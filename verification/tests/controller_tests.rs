use vst3_skeleton::controller::ui_message_from_json;
use vst3_skeleton::controller::{
    decode_ui_command, parameter_count, parameter_info, param_string_status, EditController,
    MeterReadings, ParameterFlags, UiAction, UiCommand, UiMessage, DEFAULT_GAIN_NORMALIZED_BITS,
    GAIN_PARAM_ID, MAX_DB, MIN_DB,
};
use vst3_skeleton::shared::SharedParams;
use vst3_skeleton::status::ResultCode;

fn msg(kind: Option<&str>, param_id: Option<u64>, value: Option<f64>) -> UiMessage {
    UiMessage {
        kind: kind.map(|k| k.to_string()),
        param_id,
        value: value.map(|v| v.to_bits()),
    }
}

#[test]
fn one_parameter_gain_at_index_zero() {
    assert_eq!(parameter_count(), 1);
    let d = parameter_info(0).unwrap();
    assert_eq!(d.id, GAIN_PARAM_ID);
    assert_eq!(d.id, 1);
    assert_eq!(d.title, "Gain");
    assert_eq!(d.units, "dB");
    assert_eq!(d.step_count, 0);
    assert_eq!(f64::from_bits(d.default_normalized), 0.8333333);
    assert_eq!(d.flags, ParameterFlags { can_automate: true, is_program_change: true });
    assert_eq!(parameter_info(1).unwrap_err(), ResultCode::InvalidArgument);
    assert_eq!(parameter_info(-1).unwrap_err(), ResultCode::InvalidArgument);
}

#[test]
fn default_gain_is_about_zero_db() {
    let v = f64::from_bits(DEFAULT_GAIN_NORMALIZED_BITS);
    let db = MIN_DB as f64 + v * (MAX_DB - MIN_DB) as f64;
    assert!(db.abs() < 1e-5);
}

#[test]
fn param_string_only_for_gain() {
    assert_eq!(param_string_status(GAIN_PARAM_ID), ResultCode::ResultOk);
    assert_eq!(param_string_status(0), ResultCode::InvalidArgument);
    assert_eq!(param_string_status(2), ResultCode::InvalidArgument);
}

#[test]
fn set_then_get_param() {
    let mut c = EditController::new();
    let mut s = SharedParams::new();
    assert_eq!(c.get_param_normalized(GAIN_PARAM_ID), DEFAULT_GAIN_NORMALIZED_BITS);
    assert_eq!(c.set_param_normalized(&mut s, GAIN_PARAM_ID, 0.5f64.to_bits()), ResultCode::ResultOk);
    assert_eq!(f64::from_bits(c.get_param_normalized(GAIN_PARAM_ID)), 0.5);
    assert_eq!(f64::from_bits(s.gain_normalized()), 0.5);
    // the controller keeps the unclamped value, the shared gain is clamped
    assert_eq!(c.set_param_normalized(&mut s, GAIN_PARAM_ID, 1.25f64.to_bits()), ResultCode::ResultOk);
    assert_eq!(f64::from_bits(c.get_param_normalized(GAIN_PARAM_ID)), 1.25);
    assert_eq!(f64::from_bits(s.gain_normalized()), 1.0);
}

#[test]
fn unknown_param_is_refused_and_reads_zero() {
    let mut c = EditController::new();
    let mut s = SharedParams::new();
    assert_eq!(c.set_param_normalized(&mut s, 7, 0.1f64.to_bits()), ResultCode::InvalidArgument);
    assert_eq!(c.gain_norm, DEFAULT_GAIN_NORMALIZED_BITS);
    assert_eq!(s.gain_normalized(), DEFAULT_GAIN_NORMALIZED_BITS);
    assert_eq!(c.get_param_normalized(7), 0.0f64.to_bits());
}

#[test]
fn decode_commands() {
    assert_eq!(decode_ui_command(&msg(Some("begin"), None, None)), UiCommand::BeginEdit);
    assert_eq!(decode_ui_command(&msg(Some("end"), Some(5), None)), UiCommand::EndEdit);
    assert_eq!(decode_ui_command(&msg(Some("poll_meters"), None, None)), UiCommand::PollMeters);
    assert_eq!(decode_ui_command(&msg(Some("perform"), Some(1), Some(0.2))), UiCommand::PerformEdit);
    assert_eq!(decode_ui_command(&msg(Some("perform"), Some(2), Some(0.2))), UiCommand::Ignore);
    assert_eq!(decode_ui_command(&msg(Some("perform"), None, Some(0.2))), UiCommand::Ignore);
    // ids are cut to 32 bits
    assert_eq!(decode_ui_command(&msg(Some("perform"), Some((1u64 << 32) + 1), None)), UiCommand::PerformEdit);
    assert_eq!(decode_ui_command(&msg(Some("Perform"), Some(1), None)), UiCommand::Ignore);
    assert_eq!(decode_ui_command(&msg(None, Some(1), None)), UiCommand::Ignore);
    assert_eq!(decode_ui_command(&msg(Some(""), None, None)), UiCommand::Ignore);
}

#[test]
fn editor_perform_updates_gain() {
    let mut c = EditController::new();
    let mut s = SharedParams::new();
    let a = c.handle_ui_message(&mut s, &msg(Some("perform"), Some(1), Some(0.75)));
    assert_eq!(a, UiAction::PerformEdit { param_id: GAIN_PARAM_ID, value: 0.75f64.to_bits() });
    assert_eq!(f64::from_bits(c.gain_norm), 0.75);
    assert_eq!(f64::from_bits(s.gain_normalized()), 0.75);
    // a perform without a value sets 0.0
    let a = c.handle_ui_message(&mut s, &msg(Some("perform"), Some(1), None));
    assert_eq!(a, UiAction::PerformEdit { param_id: GAIN_PARAM_ID, value: 0 });
    assert_eq!(f64::from_bits(s.gain_normalized()), 0.0);
}

#[test]
fn editor_edit_equals_host_edit() {
    let mut c1 = EditController::new();
    let mut s1 = SharedParams::new();
    let mut c2 = EditController::new();
    let mut s2 = SharedParams::new();
    c1.handle_ui_message(&mut s1, &msg(Some("perform"), Some(1), Some(3.0)));
    c2.set_param_normalized(&mut s2, GAIN_PARAM_ID, 3.0f64.to_bits());
    assert_eq!(c1.gain_norm, c2.gain_norm);
    assert_eq!(s1.gain_normalized(), s2.gain_normalized());
}

#[test]
fn editor_other_messages() {
    let mut c = EditController::new();
    let mut s = SharedParams::new();
    s.set_peak_l_db((-3.0f64).to_bits());
    assert_eq!(c.handle_ui_message(&mut s, &msg(Some("begin"), Some(9), None)), UiAction::BeginEdit { param_id: 1 });
    assert_eq!(c.handle_ui_message(&mut s, &msg(Some("end"), None, None)), UiAction::EndEdit { param_id: 1 });
    assert_eq!(
        c.handle_ui_message(&mut s, &msg(Some("poll_meters"), None, None)),
        UiAction::UpdateMeters {
            readings: MeterReadings {
                peak_l_db: (-3.0f64).to_bits(),
                peak_r_db: (-120.0f64).to_bits(),
                rms_l_db: (-120.0f64).to_bits(),
                rms_r_db: (-120.0f64).to_bits(),
            },
        }
    );
    assert_eq!(c.handle_ui_message(&mut s, &msg(Some("perform"), Some(4), Some(0.1))), UiAction::Nothing);
    assert_eq!(c.handle_ui_message(&mut s, &msg(Some("ping"), None, None)), UiAction::Nothing);
    assert_eq!(c.gain_norm, DEFAULT_GAIN_NORMALIZED_BITS);
    assert_eq!(s.gain_normalized(), DEFAULT_GAIN_NORMALIZED_BITS);
}

#[test]
fn editor_text_perform_sets_gain() {
    let mut c = EditController::new();
    let mut s = SharedParams::new();
    let a = c.handle_ui_text(&mut s, r#"{"kind":"perform","param_id":1,"value":0.25}"#);
    assert_eq!(a, UiAction::PerformEdit { param_id: GAIN_PARAM_ID, value: 0.25f64.to_bits() });
    assert_eq!(f64::from_bits(c.gain_norm), 0.25);
    assert_eq!(f64::from_bits(s.gain_normalized()), 0.25);
    // an integer value is a number too
    c.handle_ui_text(&mut s, r#"{"kind":"perform","param_id":1,"value":1}"#);
    assert_eq!(f64::from_bits(c.gain_norm), 1.0);
}

#[test]
fn editor_text_defaults_and_types() {
    let mut c = EditController::new();
    let mut s = SharedParams::new();
    // a param_id that is not an unsigned integer counts as 0
    assert_eq!(c.handle_ui_text(&mut s, r#"{"kind":"perform","param_id":"1","value":0.5}"#), UiAction::Nothing);
    // a kind that is not a string counts as ""
    assert_eq!(c.handle_ui_text(&mut s, r#"{"kind":1}"#), UiAction::Nothing);
    // begin and end ignore the id
    assert_eq!(c.handle_ui_text(&mut s, r#"{"kind":"begin","param_id":"x"}"#), UiAction::BeginEdit { param_id: 1 });
    assert_eq!(c.handle_ui_text(&mut s, r#"{"kind":"end"}"#), UiAction::EndEdit { param_id: 1 });
    // a perform without a value sets 0.0
    c.handle_ui_text(&mut s, r#"{"kind":"perform","param_id":4294967297}"#);
    assert_eq!(c.gain_norm, 0);
}

#[test]
fn editor_text_that_is_no_json_is_ignored() {
    let mut c = EditController::new();
    let mut s = SharedParams::new();
    assert_eq!(c.handle_ui_text(&mut s, "perform"), UiAction::Nothing);
    assert_eq!(c.handle_ui_text(&mut s, ""), UiAction::Nothing);
    assert_eq!(c.gain_norm, DEFAULT_GAIN_NORMALIZED_BITS);
    assert_eq!(s.gain_normalized(), DEFAULT_GAIN_NORMALIZED_BITS);
}

#[test]
fn editor_text_poll_meters() {
    let mut c = EditController::new();
    let mut s = SharedParams::new();
    s.set_rms_r_db((-9.0f64).to_bits());
    match c.handle_ui_text(&mut s, r#"{"kind":"poll_meters"}"#) {
        UiAction::UpdateMeters { readings } => assert_eq!(readings.rms_r_db, (-9.0f64).to_bits()),
        other => panic!("unexpected {other:?}"),
    }
}

#[test]
fn message_fields_from_json() {
    let v: serde_json::Value = serde_json::from_str(r#"{"kind":"x","param_id":5,"value":-1.5,"other":1}"#).unwrap();
    let m = ui_message_from_json(&v);
    assert_eq!(m.kind.as_deref(), Some("x"));
    assert_eq!(m.param_id, Some(5));
    assert_eq!(m.value, Some((-1.5f64).to_bits()));
    let v: serde_json::Value = serde_json::from_str(r#"{"kind":null,"param_id":-5,"value":"3"}"#).unwrap();
    let m = ui_message_from_json(&v);
    assert_eq!((m.kind, m.param_id, m.value), (None, None, None));
    let v: serde_json::Value = serde_json::from_str(r#"[1, 2]"#).unwrap();
    let m = ui_message_from_json(&v);
    assert_eq!((m.kind, m.param_id, m.value), (None, None, None));
    let v: serde_json::Value = serde_json::from_str(r#"{"value":3}"#).unwrap();
    assert_eq!(ui_message_from_json(&v).value, Some(3.0f64.to_bits()));
}
