//! The signal-processing module contract: the capability set every
//! concrete module exposes to its host, independent of the signal graph
//! it implements — lifecycle, introspection, parameter access, and
//! block-based sample computation.

use vstd::prelude::*;

use crate::meta::MetaSink;
use crate::params::ParamAddress;
use crate::params::ParamValue;
use crate::ui::UiNode;
use crate::ui::UiSink;

verus! {

/// A signal-processing module as a host drives it.
///
/// A freshly constructed module is uninitialized. `init` runs, in strict
/// order, the one-time class-level setup, the derivation of sample-rate
/// dependent constants, the reset of parameters to their defaults, and
/// the clearing of every recurrence register; after it the module is
/// ready and `compute` may run. Re-running `init` repeats the full
/// sequence. Every other operation may be called at any lifecycle stage
/// and never faults.
///
/// Each lifecycle step is specified through a transform on the module
/// state (`with_constants`, `with_reset_params`, `with_cleared`), so a
/// caller knows the exact state every sequence of calls leaves behind.
///
/// A module computes 32-bit sample words. The host owns the mapping from
/// words onto its scalar sample type; that mapping is outside this
/// contract.
pub trait Dsp: Sized {
    /// How many input channels the module declares; fixed after
    /// construction.
    spec fn num_inputs_spec() -> int;

    /// How many output channels the module declares; fixed after
    /// construction.
    spec fn num_outputs_spec() -> int;

    /// The (key, value) entries the module declares about itself.
    spec fn declared_meta() -> Seq<(Seq<char>, Seq<char>)>;

    /// The widget tree the module declares. It depends only on the
    /// module's structure, never on live state.
    spec fn declared_ui() -> Seq<UiNode>;

    /// The sample rate the instance is configured with; an unspecified
    /// stored value before `init`.
    spec fn sample_rate_spec(&self) -> int;

    /// Whether the instance has derived its sample-rate constants, i.e.
    /// `init` has run. `compute` demands this; the module itself never
    /// checks it on the real-time path.
    spec fn ready(&self) -> bool;

    /// The value of the parameter at `addr`, if the module has one there.
    spec fn param_read(&self, addr: ParamAddress) -> Option<ParamValue>;

    /// The state after writing `v` to the parameter at `addr`; a write
    /// to an unrecognized address changes nothing.
    spec fn with_param(self, addr: ParamAddress, v: ParamValue) -> Self;

    /// The state after deriving the constants for `sample_rate`; a pure
    /// function of the old state and the rate.
    spec fn with_constants(self, sample_rate: i32) -> Self;

    /// The state after resetting every parameter to its declared
    /// default; recurrence registers are untouched.
    spec fn with_reset_params(self) -> Self;

    /// The state after clearing every recurrence register to zero;
    /// parameters and constants are untouched.
    spec fn with_cleared(self) -> Self;

    /// The state after computing `n` frames.
    spec fn advanced(self, n: nat) -> Self;

    /// One-time class-level setup, keyed only by the sample rate. It
    /// touches no instance state and is idempotent across modules
    /// sharing a rate.
    fn class_init(sample_rate: i32);

    /// The sample rate the instance is configured with.
    fn get_sample_rate(&self) -> (r: i32)
        ensures
            r as int == self.sample_rate_spec(),
    ;

    /// The declared input channel count.
    fn get_num_inputs(&self) -> (r: i32)
        ensures
            r as int == Self::num_inputs_spec(),
            0 <= r,
    ;

    /// The declared output channel count.
    fn get_num_outputs(&self) -> (r: i32)
        ensures
            r as int == Self::num_outputs_spec(),
            0 <= r,
    ;

    /// Emit every declared metadata entry into `m`, in order, after
    /// whatever `m` already holds.
    fn metadata<M: MetaSink>(&self, m: &mut M)
        ensures
            final(m).entries() == old(m).entries() + Self::declared_meta(),
    ;

    /// Emit the instance's widget tree into `ui`, after whatever `ui`
    /// already holds.
    fn build_user_interface<U: UiSink>(&self, ui: &mut U)
        ensures
            final(ui).events() == old(ui).events() + Self::declared_ui(),
    ;

    /// Emit the module's widget tree without an instance: the identical
    /// tree, since the description depends only on declared structure.
    fn build_user_interface_static<U: UiSink>(ui: &mut U)
        ensures
            final(ui).events() == old(ui).events() + Self::declared_ui(),
    ;

    /// Read the parameter at `addr`; an unrecognized address yields no
    /// value, never a fault.
    fn get_param(&self, addr: ParamAddress) -> (r: Option<ParamValue>)
        ensures
            r == self.param_read(addr),
    ;

    /// Write `v` to the parameter at `addr`; an unrecognized address is
    /// silently ignored, never a fault.
    fn set_param(&mut self, addr: ParamAddress, v: ParamValue)
        ensures
            *final(self) == old(self).with_param(addr, v),
    ;

    /// Derive and store every sample-rate-dependent constant.
    fn instance_constants(&mut self, sample_rate: i32)
        ensures
            *final(self) == old(self).with_constants(sample_rate),
    ;

    /// Restore every parameter to its declared default.
    fn instance_reset_params(&mut self)
        ensures
            *final(self) == old(self).with_reset_params(),
    ;

    /// Clear every recurrence register to zero.
    fn instance_clear(&mut self)
        ensures
            *final(self) == old(self).with_cleared(),
    ;

    /// Full instance initialization: constants, then parameter defaults,
    /// then cleared registers, in that order.
    fn instance_init(&mut self, sample_rate: i32)
        ensures
            *final(self) == old(self).with_constants(sample_rate).with_reset_params()
                .with_cleared(),
            final(self).ready(),
    ;

    /// Class-level setup followed by full instance initialization.
    /// Re-invoking it re-runs the whole sequence and never fails: a
    /// degenerate rate is clamped during constant derivation, not
    /// rejected.
    fn init(&mut self, sample_rate: i32)
        ensures
            *final(self) == old(self).with_constants(sample_rate).with_reset_params()
                .with_cleared(),
            final(self).ready(),
    ;

    /// The real-time entry point: run the per-sample update `count`
    /// times, writing into the output channel buffers. The shape
    /// preconditions are the host's obligation; the module does not
    /// check them on the hot path.
    fn compute(&mut self, count: usize, inputs: &Vec<Vec<i32>>, outputs: &mut Vec<Vec<i32>>)
        requires
            old(self).ready(),
            Self::num_inputs_spec() <= inputs@.len(),
            forall|c: int| 0 <= c < Self::num_inputs_spec() ==> #[trigger] inputs@[c]@.len()
                >= count,
            Self::num_outputs_spec() <= old(outputs)@.len(),
            forall|c: int|
                0 <= c < old(outputs)@.len() ==> #[trigger] old(outputs)@[c]@.len() >= count,
        ensures
            *final(self) == old(self).advanced(count as nat),
            final(self).ready(),
            final(outputs)@.len() == old(outputs)@.len(),
            forall|c: int|
                0 <= c < old(outputs)@.len() ==> #[trigger] final(outputs)@[c]@.len() == old(
                    outputs,
                )@[c]@.len(),
    ;
}

} // verus!
