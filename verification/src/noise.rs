//! The concrete module: a pseudo-random noise source.
//!
//! The signal comes from a linear-congruential recurrence over wrapping
//! 32-bit integers; every derived quantity the module keeps — the
//! configured rate and its clamped form — is a pure function of the
//! sample rate handed to initialization. The host maps each produced
//! sample word onto its scalar sample type and applies its output
//! filtering there; for identical initial state the word stream here is
//! bit-reproducible.

use vstd::arithmetic::div_mod::lemma_add_mod_noop;
use vstd::arithmetic::div_mod::lemma_mod_multiples_vanish;
use vstd::prelude::*;

use crate::dsp::Dsp;
use crate::meta::MetaSink;
use crate::params::ParamAddress;
use crate::params::ParamValue;
use crate::ui::balanced;
use crate::ui::box_depth;
use crate::ui::close_count;
use crate::ui::open_count;
use crate::ui::widget_count;
use crate::ui::BoxKind;
use crate::ui::UiNode;
use crate::ui::UiSink;

verus! {

/// Multiplier of the linear-congruential recurrence.
pub const LCG_MULTIPLIER: i32 = 1103515245;

/// Increment of the linear-congruential recurrence.
pub const LCG_INCREMENT: i32 = 12345;

/// Lowest sample rate constant derivation will work from.
pub const MIN_SAMPLE_RATE: i32 = 1;

/// Highest sample rate constant derivation will work from.
pub const MAX_SAMPLE_RATE: i32 = 192000;

/// One advance of the generator: `x * 1103515245 + 12345` in wrapping
/// signed 32-bit arithmetic.
pub open spec fn lcg_next(x: i32) -> i32 {
    vstd::wrapping::i32_specs::wrapping_add(
        vstd::wrapping::i32_specs::wrapping_mul(x, LCG_MULTIPLIER),
        LCG_INCREMENT,
    )
}

/// The generator register after `n` advances from `seed`.
pub open spec fn lcg_iterate(seed: i32, n: nat) -> i32
    decreases n,
{
    if n == 0 {
        seed
    } else {
        lcg_next(lcg_iterate(seed, (n - 1) as nat))
    }
}

/// The `n` words the generator emits from `seed`: the register after
/// one advance, after two, and so on.
pub open spec fn lcg_stream(seed: i32, n: nat) -> Seq<i32>
    decreases n,
{
    if n == 0 {
        Seq::<i32>::empty()
    } else {
        lcg_stream(seed, (n - 1) as nat).push(lcg_iterate(seed, n))
    }
}

/// A sample rate forced into the safe operating range: degenerate rates
/// (zero, negative, absent and so represented as zero, or absurdly
/// high) are clamped, never rejected, so initialization cannot fail.
pub open spec fn clamp_sample_rate(sample_rate: i32) -> i32 {
    if sample_rate < MIN_SAMPLE_RATE {
        MIN_SAMPLE_RATE
    } else if sample_rate > MAX_SAMPLE_RATE {
        MAX_SAMPLE_RATE
    } else {
        sample_rate
    }
}

/// Advance the generator once.
pub fn lcg_step(x: i32) -> (r: i32)
    ensures
        r == lcg_next(x),
{
    x.wrapping_mul(LCG_MULTIPLIER).wrapping_add(LCG_INCREMENT)
}

/// The noise module instance: fixed-size integer state, no allocation.
///
/// `i_rec0` and `i_rec1` are the two recurrence registers of the
/// generator (the current word and the one-sample-old word; each step
/// writes `i_rec0` and then shifts it into `i_rec1`). `sample_rate` is
/// the configured rate and `clamped_rate` the constant derived from it,
/// recomputed only by re-initialization and never inferred from the
/// data stream.
#[derive(Clone, Copy, PartialEq, Eq, Structural, Debug)]
pub struct NoiseCore {
    pub sample_rate: i32,
    pub clamped_rate: i32,
    pub i_rec0: i32,
    pub i_rec1: i32,
}

impl NoiseCore {
    /// A freshly constructed, uninitialized module: zeroed storage.
    pub fn new() -> (r: NoiseCore)
        ensures
            r == (NoiseCore { sample_rate: 0, clamped_rate: 0, i_rec0: 0, i_rec1: 0 }),
            !r.ready(),
    {
        NoiseCore { sample_rate: 0, clamped_rate: 0, i_rec0: 0, i_rec1: 0 }
    }
}

impl Dsp for NoiseCore {
    /// The module reads no input channel.
    open spec fn num_inputs_spec() -> int {
        0
    }

    /// The module writes one output channel.
    open spec fn num_outputs_spec() -> int {
        1
    }

    open spec fn declared_meta() -> Seq<(Seq<char>, Seq<char>)> {
        seq![("name"@, "noise"@), ("description"@, "pseudo-random noise source"@)]
    }

    /// One vertical box named after the module, holding no controls.
    open spec fn declared_ui() -> Seq<UiNode> {
        seq![
            UiNode::OpenBox { kind: BoxKind::Vertical, label: "noise"@ },
            UiNode::CloseBox,
        ]
    }

    open spec fn sample_rate_spec(&self) -> int {
        self.sample_rate as int
    }

    /// Constants have been derived for the configured rate: true from
    /// the first `init` on (a fresh module stores a zeroed constant,
    /// which no rate clamps to).
    open spec fn ready(&self) -> bool {
        self.clamped_rate == clamp_sample_rate(self.sample_rate)
    }

    /// The module declares no parameters: every address reads as
    /// having no value.
    open spec fn param_read(&self, addr: ParamAddress) -> Option<ParamValue> {
        None
    }

    /// The module declares no parameters: every write is ignored.
    open spec fn with_param(self, addr: ParamAddress, v: ParamValue) -> NoiseCore {
        self
    }

    open spec fn with_constants(self, sample_rate: i32) -> NoiseCore {
        NoiseCore { sample_rate, clamped_rate: clamp_sample_rate(sample_rate), ..self }
    }

    /// No parameters to reset.
    open spec fn with_reset_params(self) -> NoiseCore {
        self
    }

    open spec fn with_cleared(self) -> NoiseCore {
        NoiseCore { i_rec0: 0, i_rec1: 0, ..self }
    }

    open spec fn advanced(self, n: nat) -> NoiseCore {
        if n == 0 {
            self
        } else {
            NoiseCore {
                i_rec0: lcg_iterate(self.i_rec1, n),
                i_rec1: lcg_iterate(self.i_rec1, n),
                ..self
            }
        }
    }

    /// The module keeps no class-level tables: nothing to set up.
    fn class_init(_sample_rate: i32) {
    }

    fn get_sample_rate(&self) -> (r: i32) {
        self.sample_rate
    }

    fn get_num_inputs(&self) -> (r: i32)
        ensures
            r == 0,
    {
        0
    }

    fn get_num_outputs(&self) -> (r: i32)
        ensures
            r == 1,
    {
        1
    }

    fn metadata<M: MetaSink>(&self, m: &mut M) {
        m.declare("name", "noise");
        m.declare("description", "pseudo-random noise source");
        proof {
            assert(m.entries() =~= old(m).entries() + Self::declared_meta());
        }
    }

    fn build_user_interface<U: UiSink>(&self, ui: &mut U) {
        ui.open_box(BoxKind::Vertical, "noise");
        ui.close_box();
        proof {
            assert(ui.events() =~= old(ui).events() + Self::declared_ui());
        }
    }

    fn build_user_interface_static<U: UiSink>(ui: &mut U) {
        ui.open_box(BoxKind::Vertical, "noise");
        ui.close_box();
        proof {
            assert(ui.events() =~= old(ui).events() + Self::declared_ui());
        }
    }

    fn get_param(&self, _addr: ParamAddress) -> (r: Option<ParamValue>)
        ensures
            r is None,
    {
        None
    }

    fn set_param(&mut self, _addr: ParamAddress, _v: ParamValue)
        ensures
            *final(self) == *old(self),
    {
    }

    fn instance_constants(&mut self, sample_rate: i32)
        ensures
            final(self).clamped_rate == clamp_sample_rate(sample_rate),
            MIN_SAMPLE_RATE <= final(self).clamped_rate <= MAX_SAMPLE_RATE,
            final(self).ready(),
    {
        self.sample_rate = sample_rate;
        self.clamped_rate = if sample_rate < MIN_SAMPLE_RATE {
            MIN_SAMPLE_RATE
        } else if sample_rate > MAX_SAMPLE_RATE {
            MAX_SAMPLE_RATE
        } else {
            sample_rate
        };
    }

    fn instance_reset_params(&mut self)
        ensures
            *final(self) == *old(self),
    {
    }

    fn instance_clear(&mut self)
        ensures
            final(self).i_rec0 == 0,
            final(self).i_rec1 == 0,
    {
        self.i_rec0 = 0;
        self.i_rec1 = 0;
    }

    fn instance_init(&mut self, sample_rate: i32) {
        self.instance_constants(sample_rate);
        self.instance_reset_params();
        self.instance_clear();
    }

    fn init(&mut self, sample_rate: i32) {
        Self::class_init(sample_rate);
        self.instance_init(sample_rate);
    }

    /// Runs the recurrence `count` times, writing each new word into the
    /// first output channel in order. Input channels are never read: the
    /// words depend on the old state alone.
    fn compute(&mut self, count: usize, _inputs: &Vec<Vec<i32>>, outputs: &mut Vec<Vec<i32>>)
        ensures
            final(outputs)@[0]@ == lcg_stream(old(self).i_rec1, count as nat) + old(
                outputs,
            )@[0]@.skip(count as int),
            forall|c: int| 1 <= c < old(outputs)@.len() ==> final(outputs)@[c] == old(outputs)@[c],
    {
        let ghost seed = self.i_rec1;
        let ghost orig = *self;
        let ghost outs0 = outputs@;
        let mut ch = outputs.remove(0);
        let ghost ch0 = ch@;
        proof {
            assert(ch@ =~= lcg_stream(seed, 0) + ch0.skip(0));
        }
        let mut i: usize = 0;
        while i < count
            invariant
                0 <= i <= count,
                count <= ch0.len(),
                ch@.len() == ch0.len(),
                self.sample_rate == orig.sample_rate,
                self.clamped_rate == orig.clamped_rate,
                self.i_rec1 == lcg_iterate(seed, i as nat),
                self.i_rec0 == if i == 0 {
                    orig.i_rec0
                } else {
                    lcg_iterate(seed, i as nat)
                },
                ch@ == lcg_stream(seed, i as nat) + ch0.skip(i as int),
            decreases count - i,
        {
            let w = lcg_step(self.i_rec1);
            self.i_rec0 = w;
            ch[i] = w;
            self.i_rec1 = self.i_rec0;
            proof {
                assert(lcg_iterate(seed, (i + 1) as nat) == lcg_next(lcg_iterate(seed, i as nat)));
                assert(lcg_stream(seed, (i + 1) as nat) == lcg_stream(seed, i as nat).push(
                    lcg_iterate(seed, (i + 1) as nat),
                ));
                assert(ch@ =~= lcg_stream(seed, (i + 1) as nat) + ch0.skip(i + 1));
            }
            i = i + 1;
        }
        outputs.insert(0, ch);
        proof {
            assert(outputs@ =~= outs0.update(0, outputs@[0]));
            assert(*self == orig.advanced(count as nat));
        }
    }
}

/// The generator register obeys the congruence
/// `next == (1103515245 * x + 12345) mod 2^32`, read back into the
/// signed 32-bit range: wrapping arithmetic, never saturation or
/// promotion.
pub proof fn lemma_lcg_recurrence(x: i32)
    ensures
        i32::MIN <= lcg_next(x) <= i32::MAX,
        (lcg_next(x) as int) % 0x1_0000_0000 == (x as int * LCG_MULTIPLIER + LCG_INCREMENT)
            % 0x1_0000_0000,
{
    let r: int = 0x1_0000_0000;
    let xm: int = x as int * LCG_MULTIPLIER;
    let w: i32 = vstd::wrapping::i32_specs::wrapping_mul(x, LCG_MULTIPLIER);
    // signed_crop keeps the value congruent modulo 2^32
    lemma_mod_multiples_vanish(-1, xm % r, r);
    assert(w as int % r == xm % r);
    let s: int = w as int + LCG_INCREMENT;
    let n: i32 = lcg_next(x);
    lemma_mod_multiples_vanish(-1, s, r);
    lemma_mod_multiples_vanish(1, s, r);
    assert(n as int % r == s % r);
    lemma_add_mod_noop(w as int, LCG_INCREMENT as int, r);
    lemma_add_mod_noop(xm, LCG_INCREMENT as int, r);
    lemma_mod_multiples_vanish(0, LCG_INCREMENT as int, r);
    assert(s % r == (xm + LCG_INCREMENT) % r);
}

/// Advancing `a` times and then `b` more is advancing `a + b` times.
pub proof fn lemma_lcg_iterate_add(seed: i32, a: nat, b: nat)
    ensures
        lcg_iterate(seed, a + b) == lcg_iterate(lcg_iterate(seed, a), b),
    decreases b,
{
    if b > 0 {
        lemma_lcg_iterate_add(seed, a, (b - 1) as nat);
        assert(lcg_iterate(seed, a + b) == lcg_next(lcg_iterate(seed, (a + b - 1) as nat)));
    }
}

/// The word stream splits at any point: the first `a` words, then the
/// `b` words the generator emits from where it then stands.
pub proof fn lemma_lcg_stream_split(seed: i32, a: nat, b: nat)
    ensures
        lcg_stream(seed, a + b) == lcg_stream(seed, a) + lcg_stream(lcg_iterate(seed, a), b),
    decreases b,
{
    if b == 0 {
        assert(lcg_stream(seed, a + b) =~= lcg_stream(seed, a) + lcg_stream(
            lcg_iterate(seed, a),
            0,
        ));
    } else {
        lemma_lcg_stream_split(seed, a, (b - 1) as nat);
        lemma_lcg_iterate_add(seed, a, b);
        assert(lcg_stream(seed, a + b) == lcg_stream(seed, (a + b - 1) as nat).push(
            lcg_iterate(seed, a + b),
        ));
        assert(lcg_stream(lcg_iterate(seed, a), b) == lcg_stream(
            lcg_iterate(seed, a),
            (b - 1) as nat,
        ).push(lcg_iterate(lcg_iterate(seed, a), b)));
        assert(lcg_stream(seed, a + b) =~= lcg_stream(seed, a) + lcg_stream(
            lcg_iterate(seed, a),
            b,
        ));
    }
}

/// The stream of `n` words has exactly `n` entries.
pub proof fn lemma_lcg_stream_len(seed: i32, n: nat)
    ensures
        lcg_stream(seed, n).len() == n,
    decreases n,
{
    if n > 0 {
        lemma_lcg_stream_len(seed, (n - 1) as nat);
    }
}

/// The word at position `i` of the stream is the generator register
/// after `i + 1` advances: the stream is the sequence of register
/// values themselves, in order.
pub proof fn lemma_lcg_stream_index(seed: i32, n: nat, i: int)
    requires
        0 <= i < n,
    ensures
        lcg_stream(seed, n)[i] == lcg_iterate(seed, (i + 1) as nat),
    decreases n,
{
    lemma_lcg_stream_len(seed, n);
    lemma_lcg_stream_len(seed, (n - 1) as nat);
    if i + 1 < n {
        lemma_lcg_stream_index(seed, (n - 1) as nat, i);
        assert(lcg_stream(seed, n)[i] == lcg_stream(seed, (n - 1) as nat)[i]);
    } else {
        assert(lcg_stream(seed, n) == lcg_stream(seed, (n - 1) as nat).push(
            lcg_iterate(seed, n),
        ));
    }
}

/// Determinism across block splits: from one state, computing `a + b`
/// frames in one call leaves the same state and emits the same words as
/// computing `a` frames and then `b` frames.
pub proof fn lemma_compute_split(s: NoiseCore, a: nat, b: nat)
    ensures
        s.advanced(a).advanced(b) == s.advanced(a + b),
        lcg_stream(s.i_rec1, a) + lcg_stream(s.advanced(a).i_rec1, b) == lcg_stream(
            s.i_rec1,
            a + b,
        ),
{
    lemma_lcg_iterate_add(s.i_rec1, a, b);
    lemma_lcg_stream_split(s.i_rec1, a, b);
    if a == 0 {
        assert(lcg_stream(s.i_rec1, a) + lcg_stream(s.advanced(a).i_rec1, b) =~= lcg_stream(
            s.i_rec1,
            a + b,
        ));
    }
}

/// Re-running the full initialization sequence with the same sample
/// rate leaves exactly the state one run leaves.
pub proof fn lemma_init_idempotent(s: NoiseCore, sample_rate: i32)
    ensures
        s.with_constants(sample_rate).with_reset_params().with_cleared().with_constants(
            sample_rate,
        ).with_reset_params().with_cleared() == s.with_constants(sample_rate).with_reset_params()
            .with_cleared(),
{
}

/// Parameter no-ops: the module has no parameters, so a read on any
/// address yields no value, and a write on any address neither changes
/// the state nor the words any later compute emits.
pub proof fn lemma_param_noop(s: NoiseCore, addr: ParamAddress, v: ParamValue, n: nat)
    ensures
        s.param_read(addr) == None::<ParamValue>,
        s.with_param(addr, v) == s,
        s.with_param(addr, v).advanced(n) == s.advanced(n),
        lcg_stream(s.with_param(addr, v).i_rec1, n) == lcg_stream(s.i_rec1, n),
{
}

/// The declared interface is a single vertical box: opened once, closed
/// once, properly nested, with no controls inside.
pub proof fn lemma_noise_ui_shape()
    ensures
        NoiseCore::declared_ui().len() == 2,
        balanced(NoiseCore::declared_ui()),
        open_count(NoiseCore::declared_ui()) == 1,
        close_count(NoiseCore::declared_ui()) == 1,
        widget_count(NoiseCore::declared_ui()) == 0,
{
    let t = NoiseCore::declared_ui();
    assert(t.take(0) =~= Seq::<UiNode>::empty());
    assert(t.take(1).drop_last() =~= t.take(0));
    assert(t.take(1).last() == t[0]);
    assert(t.take(2) =~= t);
    assert(t.drop_last() =~= t.take(1));
    assert(box_depth(t.take(0)) == 0);
    assert(box_depth(t.take(1)) == 1);
    assert(box_depth(t) == 0);
    assert forall|i: int| 0 <= i <= t.len() implies #[trigger] box_depth(t.take(i)) >= 0 by {
        if i == 2 {
            assert(t.take(2) =~= t);
        }
    }
    assert(t[0] is OpenBox && t[1] is CloseBox);
    assert(open_count(t.take(0)) == 0 && close_count(t.take(0)) == 0 && widget_count(t.take(0))
        == 0);
    assert(open_count(t.take(1)) == 1);
    assert(close_count(t.take(1)) == 0);
    assert(widget_count(t.take(1)) == 0);
}

} // verus!
