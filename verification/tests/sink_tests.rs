use dsp_core::dsp::Dsp;
use dsp_core::meta::MetaRecorder;
use dsp_core::meta::MetaSink;
use dsp_core::noise::NoiseCore;
use dsp_core::params::ParamAddress;
use dsp_core::params::ParamValue;
use dsp_core::ui::BoxKind;
use dsp_core::ui::UiEvent;
use dsp_core::ui::UiRecorder;
use dsp_core::ui::UiSink;

#[test]
fn noise_ui_is_one_empty_vertical_box() {
    let m = NoiseCore::new();
    let mut ui = UiRecorder::new();
    m.build_user_interface(&mut ui);
    assert_eq!(ui.len(), 2);
    assert_eq!(
        ui.log[0],
        UiEvent::OpenBox { kind: BoxKind::Vertical, label: "noise".to_string() }
    );
    assert_eq!(ui.log[1], UiEvent::CloseBox);
    assert!(ui.well_nested());
}

#[test]
fn static_ui_matches_instance_ui() {
    let m = NoiseCore::new();
    let mut with_instance = UiRecorder::new();
    m.build_user_interface(&mut with_instance);
    let mut without = UiRecorder::new();
    NoiseCore::build_user_interface_static(&mut without);
    assert_eq!(with_instance.log, without.log);

    // live state does not leak into the description
    let mut used = NoiseCore::new();
    used.init(44100);
    let inputs: Vec<Vec<i32>> = Vec::new();
    let mut outputs: Vec<Vec<i32>> = vec![vec![0i32; 4]];
    used.compute(4, &inputs, &mut outputs);
    let mut after_use = UiRecorder::new();
    used.build_user_interface(&mut after_use);
    assert_eq!(after_use.log, without.log);
}

#[test]
fn ui_events_append_to_what_a_sink_holds() {
    let mut ui = UiRecorder::new();
    ui.open_box(BoxKind::Horizontal, "host");
    NoiseCore::build_user_interface_static(&mut ui);
    ui.close_box();
    assert_eq!(ui.len(), 4);
    assert!(ui.well_nested());
}

#[test]
fn well_nested_accepts_proper_trees() {
    let mut ui = UiRecorder::new();
    assert!(ui.well_nested());
    ui.open_box(BoxKind::Tab, "tabs");
    ui.open_box(BoxKind::Horizontal, "row");
    ui.add_button("go", ParamAddress::new(1));
    ui.add_toggle("mute", ParamAddress::new(2));
    ui.close_box();
    ui.open_box(BoxKind::Vertical, "column");
    ui.add_slider(
        "level",
        ParamAddress::new(3),
        ParamValue::from_bits(10),
        ParamValue::from_bits(0),
        ParamValue::from_bits(100),
        ParamValue::from_bits(1),
    );
    ui.add_num_entry(
        "offset",
        ParamAddress::new(4),
        ParamValue::from_bits(5),
        ParamValue::from_bits(0),
        ParamValue::from_bits(9),
        ParamValue::from_bits(1),
    );
    ui.add_bargraph("meter", ParamAddress::new(5), ParamValue::from_bits(0), ParamValue::from_bits(100));
    ui.declare_meta(Some(ParamAddress::new(3)), "unit", "dB");
    ui.declare_meta(None, "author", "nobody");
    ui.close_box();
    ui.close_box();
    assert_eq!(ui.len(), 13);
    assert!(ui.well_nested());
}

#[test]
fn well_nested_rejects_missing_close() {
    let mut ui = UiRecorder::new();
    ui.open_box(BoxKind::Vertical, "outer");
    assert!(!ui.well_nested());
}

#[test]
fn well_nested_rejects_early_close() {
    let mut ui = UiRecorder::new();
    ui.close_box();
    ui.open_box(BoxKind::Vertical, "late");
    assert!(!ui.well_nested());
}

#[test]
fn well_nested_rejects_extra_close() {
    let mut ui = UiRecorder::new();
    ui.open_box(BoxKind::Vertical, "outer");
    ui.close_box();
    ui.close_box();
    assert!(!ui.well_nested());
}

#[test]
fn metadata_entries_in_declaration_order() {
    let m = NoiseCore::new();
    let mut meta = MetaRecorder::new();
    m.metadata(&mut meta);
    assert_eq!(meta.len(), 2);
    assert_eq!(meta.items[0].0, "name");
    assert_eq!(meta.items[0].1, "noise");
    assert_eq!(meta.items[1].0, "description");
    assert_eq!(meta.items[1].1, "pseudo-random noise source");
}

#[test]
fn duplicate_keys_accumulate() {
    let mut meta = MetaRecorder::new();
    meta.declare("name", "first");
    meta.declare("name", "second");
    assert_eq!(meta.len(), 2);
    assert_eq!(meta.items[0].1, "first");
    assert_eq!(meta.items[1].1, "second");
}

#[test]
fn metadata_appends_to_what_a_sink_holds() {
    let m = NoiseCore::new();
    let mut meta = MetaRecorder::new();
    meta.declare("host", "test harness");
    m.metadata(&mut meta);
    assert_eq!(meta.len(), 3);
    assert_eq!(meta.items[0].0, "host");
    assert_eq!(meta.items[1].0, "name");
}
