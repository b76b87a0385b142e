//! A minimal real-time audio signal-processing plugin core.
//!
//! The crate defines the uniform contract by which a host discovers,
//! initializes, parameterizes, and drives an opaque signal-processing
//! module ([`dsp::Dsp`]), the sink interfaces through which a module
//! describes itself ([`meta::MetaSink`], [`ui::UiSink`]), and one
//! concrete module: a pseudo-random noise source built on a
//! linear-congruential recurrence ([`noise::NoiseCore`]).
//!
//! The core works entirely on fixed-size integer state so that every
//! per-sample step is bounded, allocation-free, and deterministic. The
//! host maps the produced sample words onto its own scalar sample type;
//! that final scaling and filtering stage lives outside this crate.

pub mod dsp;
pub mod meta;
pub mod noise;
pub mod params;
pub mod ui;
