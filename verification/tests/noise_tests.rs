use dsp_core::dsp::Dsp;
use dsp_core::noise::NoiseCore;
use dsp_core::params::ParamAddress;
use dsp_core::params::ParamValue;

fn ready_module(sample_rate: i32) -> NoiseCore {
    let mut m = NoiseCore::new();
    m.init(sample_rate);
    m
}

fn run(m: &mut NoiseCore, count: usize) -> Vec<i32> {
    let inputs: Vec<Vec<i32>> = Vec::new();
    let mut outputs: Vec<Vec<i32>> = vec![vec![0i32; count]];
    m.compute(count, &inputs, &mut outputs);
    outputs.remove(0)
}

#[test]
fn first_words_from_cleared_state() {
    let mut m = ready_module(44100);
    let words = run(&mut m, 6);
    // signed 32-bit wraparound: x * 1103515245 + 12345 from seed 0
    assert_eq!(
        words,
        vec![12345, -740551042, -1492899873, -698016724, 229283573, -1038148470]
    );
    // the low 31 bits of the same registers
    let masked: Vec<u32> = words.iter().map(|w| (*w as u32) & 0x7fff_ffff).collect();
    assert_eq!(
        masked,
        vec![12345, 1406932606, 654583775, 1449466924, 229283573, 1109335178]
    );
}

#[test]
fn determinism_across_block_splits() {
    let mut one = ready_module(48000);
    let whole = run(&mut one, 8);

    let mut two = ready_module(48000);
    let mut split = run(&mut two, 4);
    split.extend(run(&mut two, 4));

    assert_eq!(whole, split);
    assert_eq!(one, two);

    let mut three = ready_module(48000);
    let mut uneven = run(&mut three, 1);
    uneven.extend(run(&mut three, 7));
    assert_eq!(whole, uneven);
    assert_eq!(one, three);
}

#[test]
fn compute_writes_exactly_count_frames() {
    let mut m = ready_module(44100);
    let inputs: Vec<Vec<i32>> = Vec::new();
    let mut outputs: Vec<Vec<i32>> = vec![vec![77i32; 6], vec![88i32; 6]];
    m.compute(4, &inputs, &mut outputs);
    // four frames written, the tail and the extra channel untouched
    assert_eq!(outputs[0][..4], [12345, -740551042, -1492899873, -698016724]);
    assert_eq!(outputs[0][4..], [77, 77]);
    assert_eq!(outputs[1], vec![88i32; 6]);
}

#[test]
fn zero_frames_is_a_no_op() {
    let mut m = ready_module(44100);
    let before = m;
    let words = run(&mut m, 0);
    assert!(words.is_empty());
    assert_eq!(m, before);
}

#[test]
fn channel_counts() {
    let m = ready_module(44100);
    assert_eq!(m.get_num_inputs(), 0);
    assert_eq!(m.get_num_outputs(), 1);
}

#[test]
fn sample_rate_is_stored_unclamped() {
    let mut m = NoiseCore::new();
    m.init(10_000_000);
    assert_eq!(m.get_sample_rate(), 10_000_000);
    assert_eq!(m.clamped_rate, 192000);
}

#[test]
fn degenerate_rates_are_clamped_not_rejected() {
    let mut m = NoiseCore::new();
    m.init(0);
    assert_eq!(m.clamped_rate, 1);
    m.init(-44100);
    assert_eq!(m.clamped_rate, 1);
    m.init(48000);
    assert_eq!(m.clamped_rate, 48000);
    m.init(192000);
    assert_eq!(m.clamped_rate, 192000);
    m.init(192001);
    assert_eq!(m.clamped_rate, 192000);
    m.init(10_000_000);
    assert_eq!(m.clamped_rate, 192000);
}

#[test]
fn init_twice_equals_init_once() {
    let mut once = NoiseCore::new();
    once.init(48000);
    let mut twice = NoiseCore::new();
    twice.init(48000);
    twice.init(48000);
    assert_eq!(once, twice);

    // even a used module returns to the same state
    let _ = run(&mut twice, 16);
    twice.init(48000);
    assert_eq!(once, twice);
}

#[test]
fn init_clears_registers_and_derives_constants() {
    let mut m = ready_module(44100);
    let _ = run(&mut m, 5);
    assert_ne!(m.i_rec1, 0);
    m.init(44100);
    assert_eq!(m.i_rec0, 0);
    assert_eq!(m.i_rec1, 0);
    assert_eq!(m.sample_rate, 44100);
    assert_eq!(m.clamped_rate, 44100);
}

#[test]
fn lifecycle_steps_touch_only_their_state() {
    let mut m = ready_module(44100);
    let _ = run(&mut m, 3);
    let advanced = m;

    // clearing zeroes the recurrence registers and nothing else
    m.instance_clear();
    assert_eq!(m.i_rec0, 0);
    assert_eq!(m.i_rec1, 0);
    assert_eq!(m.sample_rate, advanced.sample_rate);
    assert_eq!(m.clamped_rate, advanced.clamped_rate);

    // resetting parameters touches nothing on a parameterless module
    let before = m;
    m.instance_reset_params();
    assert_eq!(m, before);

    // constant derivation leaves the registers alone
    let mut n = ready_module(44100);
    let _ = run(&mut n, 3);
    let regs = (n.i_rec0, n.i_rec1);
    n.instance_constants(96000);
    assert_eq!((n.i_rec0, n.i_rec1), regs);
    assert_eq!(n.clamped_rate, 96000);
}

#[test]
fn get_param_yields_no_value_on_any_address() {
    let m = ready_module(44100);
    for id in [0u32, 1, 7, 1000, u32::MAX] {
        assert_eq!(m.get_param(ParamAddress::new(id)), None);
    }
}

#[test]
fn set_param_is_a_silent_no_op() {
    let mut a = ready_module(44100);
    let mut b = ready_module(44100);
    b.set_param(ParamAddress::new(3), ParamValue::from_bits(0xdead_beef));
    assert_eq!(a, b);
    let wa = run(&mut a, 8);
    b.set_param(ParamAddress::new(42), ParamValue::from_bits(1));
    let wb = run(&mut b, 8);
    assert_eq!(wa, wb);
}

#[test]
fn fresh_module_has_zeroed_storage() {
    let m = NoiseCore::new();
    assert_eq!(m.sample_rate, 0);
    assert_eq!(m.clamped_rate, 0);
    assert_eq!(m.i_rec0, 0);
    assert_eq!(m.i_rec1, 0);
}

#[test]
fn class_init_is_callable_any_time() {
    NoiseCore::class_init(44100);
    NoiseCore::class_init(44100);
    NoiseCore::class_init(0);
}
