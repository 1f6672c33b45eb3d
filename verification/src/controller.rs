//! The edit controller: the single gain parameter as the host sees it, and the
//! decisions taken on messages from the web editor.
use vstd::prelude::*;
use crate::f64_bits::{POS_ZERO_BITS, spec_clamp_unit, is_positive_normal_below_2_52, significand, scale};
use crate::shared::{SharedParams, SharedParamsView, initial_shared};
use crate::status::ResultCode;
use crate::json::{JsonModel, json_model, json_text, json_member, json_string, json_u64, json_f64_bits, parse_json, json_get, json_as_str, json_as_u64, json_as_f64_bits};

verus! {

/// Host-facing id of the gain parameter.
pub const GAIN_PARAM_ID: u32 = 1;

/// Bit pattern of `0.8333333`, the default normalized gain: 0 dB on the
/// [`MIN_DB`]..[`MAX_DB`] scale.
pub const DEFAULT_GAIN_NORMALIZED_BITS: u64 = 0x3fea_aaaa_98c5_5e44;

/// Gain in dB at normalized value `0.0`.
pub const MIN_DB: i32 = -60;

/// Gain in dB at normalized value `1.0`.
pub const MAX_DB: i32 = 12;

/// The flags the host is given for a parameter.
#[derive(Clone, Copy, PartialEq, Eq, Structural, Debug)]
pub struct ParameterFlags {
    /// `kCanAutomate`
    pub can_automate: bool,
    /// `kIsProgramChange`
    pub is_program_change: bool,
}

/// What the host is told about a parameter.
#[derive(Clone, Copy, Debug)]
pub struct ParameterDescription {
    pub id: u32,
    pub title: &'static str,
    pub units: &'static str,
    /// `0`: the parameter is continuous.
    pub step_count: i32,
    /// Bit pattern of the default normalized value.
    pub default_normalized: u64,
    pub flags: ParameterFlags,
}

/// `d` describes the gain parameter: id [`GAIN_PARAM_ID`], title `Gain`, units `dB`,
/// continuous, default [`DEFAULT_GAIN_NORMALIZED_BITS`], automatable and flagged as a
/// program change.
pub open spec fn is_gain_parameter(d: ParameterDescription) -> bool {
    &&& d.id == GAIN_PARAM_ID
    &&& d.title@ == "Gain"@
    &&& d.units@ == "dB"@
    &&& d.step_count == 0
    &&& d.default_normalized == DEFAULT_GAIN_NORMALIZED_BITS
    &&& d.flags == (ParameterFlags { can_automate: true, is_program_change: true })
}

/// The controller exposes one parameter.
pub fn parameter_count() -> (r: i32)
    ensures
        r == 1,
{
    1
}

/// The description of the parameter at `index`; only index `0` exists.
pub fn parameter_info(index: i32) -> (r: Result<ParameterDescription, ResultCode>)
    ensures
        match r {
            Ok(d) => index == 0 && is_gain_parameter(d),
            Err(e) => index != 0 && e == ResultCode::InvalidArgument,
        },
{
    if index != 0 {
        return Err(ResultCode::InvalidArgument);
    }
    Ok(
        ParameterDescription {
            id: GAIN_PARAM_ID,
            title: "Gain",
            units: "dB",
            step_count: 0,
            default_normalized: DEFAULT_GAIN_NORMALIZED_BITS,
            flags: ParameterFlags { can_automate: true, is_program_change: true },
        },
    )
}

/// Whether the host may ask for the text of a value of parameter `tag`: only the gain
/// parameter has one.
pub fn param_string_status(tag: u32) -> (r: ResultCode)
    ensures
        r == (if tag == GAIN_PARAM_ID { ResultCode::ResultOk } else { ResultCode::InvalidArgument }),
{
    if tag != GAIN_PARAM_ID {
        ResultCode::InvalidArgument
    } else {
        ResultCode::ResultOk
    }
}

/// The controller's gain and the shared values after the host sets parameter `tag` to
/// `value`: only the gain parameter can be set.
pub open spec fn after_set_param(state: (u64, SharedParamsView), tag: u32, value: u64) -> (u64, SharedParamsView) {
    if tag == GAIN_PARAM_ID {
        (value, state.1.with_gain(value))
    } else {
        state
    }
}

/// The value the host reads for parameter `tag` from a controller whose gain is `gain`.
pub open spec fn spec_get_param(gain: u64, tag: u32) -> u64 {
    if tag == GAIN_PARAM_ID {
        gain
    } else {
        POS_ZERO_BITS
    }
}

/// The controller's own copy of the gain, as last set by the host or the editor.
pub struct EditController {
    /// Bit pattern of the normalized gain. Unlike the shared copy it is kept unclamped.
    pub gain_norm: u64,
}

impl EditController {
    /// A controller whose gain is the default, 0 dB.
    pub fn new() -> (c: Self)
        ensures
            c.gain_norm == DEFAULT_GAIN_NORMALIZED_BITS,
    {
        EditController { gain_norm: DEFAULT_GAIN_NORMALIZED_BITS }
    }

    /// The host sets parameter `tag` to `value`. For the gain parameter the controller
    /// keeps `value` and the shared gain becomes `value` clamped; any other tag is
    /// refused and nothing changes.
    pub fn set_param_normalized(&mut self, shared: &mut SharedParams, tag: u32, value: u64) -> (r: ResultCode)
        ensures
            (final(self).gain_norm, final(shared)@) == after_set_param(
                (old(self).gain_norm, old(shared)@),
                tag,
                value,
            ),
            r == (if tag == GAIN_PARAM_ID { ResultCode::ResultOk } else { ResultCode::InvalidArgument }),
    {
        if tag == GAIN_PARAM_ID {
            self.gain_norm = value;
            shared.set_gain_normalized(value);
            return ResultCode::ResultOk;
        }
        ResultCode::InvalidArgument
    }

    /// The value of parameter `tag`: the controller's gain, or `0.0` for any other tag.
    pub fn get_param_normalized(&self, tag: u32) -> (r: u64)
        ensures
            r == spec_get_param(self.gain_norm, tag),
    {
        if tag == GAIN_PARAM_ID {
            self.gain_norm
        } else {
            POS_ZERO_BITS
        }
    }
}

/// A message from the web editor, as plain values: its `kind`, `param_id` and `value`
/// fields, each `None` where the message has no such field of the expected type
/// (`value` is the bit pattern of the number).
pub struct UiMessage {
    pub kind: Option<String>,
    pub param_id: Option<u64>,
    pub value: Option<u64>,
}

/// What a message from the editor asks for.
#[derive(Clone, Copy, PartialEq, Eq, Structural, Debug)]
pub enum UiCommand {
    /// The user starts dragging the gain control.
    BeginEdit,
    /// The user moves the gain control.
    PerformEdit,
    /// The user releases the gain control.
    EndEdit,
    /// The editor asks for the current meter levels.
    PollMeters,
    /// Anything else.
    Ignore,
}

/// A message's fields as plain values: kind, parameter id and value.
pub open spec fn ui_message_view(m: UiMessage) -> (Option<Seq<char>>, Option<u64>, Option<u64>) {
    (
        match m.kind {
            Some(k) => Some(k@),
            None => None,
        },
        m.param_id,
        m.value,
    )
}

/// The kind of a message, `""` where it has none.
pub open spec fn fields_kind(f: (Option<Seq<char>>, Option<u64>, Option<u64>)) -> Seq<char> {
    match f.0 {
        Some(k) => k,
        None => ""@,
    }
}

/// The parameter a message names, `0` where it names none. Ids wider than 32 bits are
/// cut to their low 32 bits.
pub open spec fn fields_param_id(f: (Option<Seq<char>>, Option<u64>, Option<u64>)) -> u32 {
    match f.1 {
        Some(p) => p as u32,
        None => 0,
    }
}

/// The value a message carries, `0.0` where it carries none.
pub open spec fn fields_value(f: (Option<Seq<char>>, Option<u64>, Option<u64>)) -> u64 {
    match f.2 {
        Some(v) => v,
        None => POS_ZERO_BITS,
    }
}

/// The `kind` of a message, `""` where it has none.
pub open spec fn message_kind(msg: UiMessage) -> Seq<char> {
    fields_kind(ui_message_view(msg))
}

/// The parameter a message names.
pub open spec fn message_param_id(msg: UiMessage) -> u32 {
    fields_param_id(ui_message_view(msg))
}

/// The value a message carries.
pub open spec fn message_value(msg: UiMessage) -> u64 {
    fields_value(ui_message_view(msg))
}

/// The command of a message: `begin`, `end` and `poll_meters` by kind alone; `perform`
/// only when it names the gain parameter.
pub open spec fn spec_ui_command(kind: Seq<char>, param_id: u32) -> UiCommand {
    if kind == "begin"@ {
        UiCommand::BeginEdit
    } else if kind == "perform"@ {
        if param_id == GAIN_PARAM_ID {
            UiCommand::PerformEdit
        } else {
            UiCommand::Ignore
        }
    } else if kind == "end"@ {
        UiCommand::EndEdit
    } else if kind == "poll_meters"@ {
        UiCommand::PollMeters
    } else {
        UiCommand::Ignore
    }
}

/// Whether `text` is exactly `name`.
fn text_is(text: &str, name: &str) -> (r: bool)
    ensures
        r == (text@ == name@),
{
    String::from_str(text) == String::from_str(name)
}

/// Decides what a message from the editor asks for.
pub fn decode_ui_command(msg: &UiMessage) -> (r: UiCommand)
    ensures
        r == spec_ui_command(message_kind(*msg), message_param_id(*msg)),
{
    let kind: &str = match &msg.kind {
        Some(k) => k.as_str(),
        None => "",
    };
    let param_id: u32 = match msg.param_id {
        Some(p) => p as u32,
        None => 0,
    };
    if text_is(kind, "begin") {
        UiCommand::BeginEdit
    } else if text_is(kind, "perform") {
        if param_id == GAIN_PARAM_ID {
            UiCommand::PerformEdit
        } else {
            UiCommand::Ignore
        }
    } else if text_is(kind, "end") {
        UiCommand::EndEdit
    } else if text_is(kind, "poll_meters") {
        UiCommand::PollMeters
    } else {
        UiCommand::Ignore
    }
}

/// The four meter levels (bit patterns of dBFS values).
#[derive(Clone, Copy, PartialEq, Eq, Structural, Debug)]
pub struct MeterReadings {
    pub peak_l_db: u64,
    pub peak_r_db: u64,
    pub rms_l_db: u64,
    pub rms_r_db: u64,
}

/// The outside work that a message from the editor calls for.
#[derive(Clone, Copy, PartialEq, Eq, Structural, Debug)]
pub enum UiAction {
    /// Nothing.
    Nothing,
    /// Tell the host (where it has given a handler) that an edit of `param_id` begins.
    BeginEdit { param_id: u32 },
    /// Tell the host (where it has given a handler) that `param_id` is now `value`,
    /// then show the new gain in the editor.
    PerformEdit { param_id: u32, value: u64 },
    /// Tell the host (where it has given a handler) that the edit of `param_id` ends.
    EndEdit { param_id: u32 },
    /// Show these levels in the editor.
    UpdateMeters { readings: MeterReadings },
}

/// The levels held by `v`.
pub open spec fn meter_readings(v: SharedParamsView) -> MeterReadings {
    MeterReadings {
        peak_l_db: v.peak_l_db,
        peak_r_db: v.peak_r_db,
        rms_l_db: v.rms_l_db,
        rms_r_db: v.rms_r_db,
    }
}

/// The command of a message given by its fields.
pub open spec fn fields_command(f: (Option<Seq<char>>, Option<u64>, Option<u64>)) -> UiCommand {
    spec_ui_command(fields_kind(f), fields_param_id(f))
}

/// The controller's gain and the shared values after a message from the editor with the
/// fields `f`: only a gain edit changes them.
pub open spec fn after_ui_fields(
    state: (u64, SharedParamsView),
    f: (Option<Seq<char>>, Option<u64>, Option<u64>),
) -> (u64, SharedParamsView) {
    if fields_command(f) == UiCommand::PerformEdit {
        (fields_value(f), state.1.with_gain(fields_value(f)))
    } else {
        state
    }
}

/// The controller's gain and the shared values after the message `msg`.
pub open spec fn after_ui_message(state: (u64, SharedParamsView), msg: UiMessage) -> (u64, SharedParamsView) {
    after_ui_fields(state, ui_message_view(msg))
}

/// The outside work a message with the fields `f` calls for, with the shared values
/// `shared` as they were when it came.
pub open spec fn ui_action(
    shared: SharedParamsView,
    f: (Option<Seq<char>>, Option<u64>, Option<u64>),
) -> UiAction {
    match fields_command(f) {
        UiCommand::BeginEdit => UiAction::BeginEdit { param_id: GAIN_PARAM_ID },
        UiCommand::PerformEdit => UiAction::PerformEdit { param_id: GAIN_PARAM_ID, value: fields_value(f) },
        UiCommand::EndEdit => UiAction::EndEdit { param_id: GAIN_PARAM_ID },
        UiCommand::PollMeters => UiAction::UpdateMeters { readings: meter_readings(shared) },
        UiCommand::Ignore => UiAction::Nothing,
    }
}

/// The fields of an editor message read from its JSON value: `kind` where it is a
/// string, `param_id` where it is a non-negative integer, and `value` where it is a
/// number.
pub open spec fn json_fields(m: JsonModel) -> (Option<Seq<char>>, Option<u64>, Option<u64>) {
    (
        json_string(json_member(m, "kind"@)),
        json_u64(json_member(m, "param_id"@)),
        json_f64_bits(json_member(m, "value"@)),
    )
}

/// Reads the `kind`, `param_id` and `value` fields of an editor message's JSON value.
pub fn ui_message_from_json(v: &serde_json::Value) -> (r: UiMessage)
    ensures
        ui_message_view(r) == json_fields(json_model(*v)),
{
    let kind: Option<String> = match json_get(v, "kind") {
        Some(k) => match json_as_str(k) {
            Some(text) => Some(String::from_str(text)),
            None => None,
        },
        None => None,
    };
    let param_id: Option<u64> = match json_get(v, "param_id") {
        Some(p) => json_as_u64(p),
        None => None,
    };
    let value: Option<u64> = match json_get(v, "value") {
        Some(x) => json_as_f64_bits(x),
        None => None,
    };
    UiMessage { kind, param_id, value }
}

impl EditController {
    /// Takes a message from the editor: a gain edit is applied to the controller and to
    /// the shared values as [`EditController::set_param_normalized`] applies it, a meter
    /// poll reads the shared levels; the result names the outside work left to do.
    pub fn handle_ui_message(&mut self, shared: &mut SharedParams, msg: &UiMessage) -> (r: UiAction)
        ensures
            (final(self).gain_norm, final(shared)@) == after_ui_message(
                (old(self).gain_norm, old(shared)@),
                *msg,
            ),
            r == ui_action(old(shared)@, ui_message_view(*msg)),
            fields_command(ui_message_view(*msg)) == UiCommand::PollMeters ==> r == (UiAction::UpdateMeters {
                readings: MeterReadings {
                    peak_l_db: old(shared)@.peak_l_db,
                    peak_r_db: old(shared)@.peak_r_db,
                    rms_l_db: old(shared)@.rms_l_db,
                    rms_r_db: old(shared)@.rms_r_db,
                },
            }),
    {
        match decode_ui_command(msg) {
            UiCommand::BeginEdit => UiAction::BeginEdit { param_id: GAIN_PARAM_ID },
            UiCommand::PerformEdit => {
                let value: u64 = match msg.value {
                    Some(v) => v,
                    None => POS_ZERO_BITS,
                };
                self.gain_norm = value;
                shared.set_gain_normalized(value);
                UiAction::PerformEdit { param_id: GAIN_PARAM_ID, value }
            },
            UiCommand::EndEdit => UiAction::EndEdit { param_id: GAIN_PARAM_ID },
            UiCommand::PollMeters => UiAction::UpdateMeters {
                readings: MeterReadings {
                    peak_l_db: shared.peak_l_db(),
                    peak_r_db: shared.peak_r_db(),
                    rms_l_db: shared.rms_l_db(),
                    rms_r_db: shared.rms_r_db(),
                },
            },
            UiCommand::Ignore => UiAction::Nothing,
        }
    }

    /// Takes the text of a message from the editor: text that is no JSON is ignored;
    /// otherwise its `kind`, `param_id` and `value` fields ([`json_fields`]) are handled
    /// as by [`EditController::handle_ui_message`].
    pub fn handle_ui_text(&mut self, shared: &mut SharedParams, text: &str) -> (r: UiAction)
        ensures
            match json_text(text@) {
                None => {
                    &&& r == UiAction::Nothing
                    &&& *final(self) == *old(self)
                    &&& final(shared)@ == old(shared)@
                },
                Some(m) => {
                    &&& (final(self).gain_norm, final(shared)@) == after_ui_fields(
                        (old(self).gain_norm, old(shared)@),
                        json_fields(m),
                    )
                    &&& r == ui_action(old(shared)@, json_fields(m))
                },
            },
    {
        match parse_json(text) {
            None => UiAction::Nothing,
            Some(v) => {
                let msg = ui_message_from_json(&v);
                self.handle_ui_message(shared, &msg)
            },
        }
    }
}

/// After the host sets the gain parameter to `value`, the host reads `value` back from
/// the controller, and the shared gain is `value` clamped into `[0, 1]`.
pub proof fn law_param_round_trip(state: (u64, SharedParamsView), value: u64)
    ensures
        spec_get_param(after_set_param(state, GAIN_PARAM_ID, value).0, GAIN_PARAM_ID) == value,
        after_set_param(state, GAIN_PARAM_ID, value).1 == state.1.with_gain(value),
{
}

/// Setting any parameter other than the gain changes nothing, and reading it gives `0.0`.
pub proof fn law_unknown_param(state: (u64, SharedParamsView), tag: u32, value: u64)
    requires
        tag != GAIN_PARAM_ID,
    ensures
        after_set_param(state, tag, value) == state,
        spec_get_param(state.0, tag) == POS_ZERO_BITS,
{
}

/// A gain edit from the editor has the same effect on the controller and the shared
/// values as the host setting the gain parameter to the same value; no other message
/// changes them.
pub proof fn law_editor_edit_is_host_edit(
    state: (u64, SharedParamsView),
    f: (Option<Seq<char>>, Option<u64>, Option<u64>),
)
    ensures
        fields_command(f) == UiCommand::PerformEdit
            ==> after_ui_fields(state, f) == after_set_param(state, GAIN_PARAM_ID, fields_value(f)),
        fields_command(f) != UiCommand::PerformEdit ==> after_ui_fields(state, f) == state,
{
}

/// The default gain is 0 dB: its normalized value `v` is a positive normal number whose
/// gain `MIN_DB + v * (MAX_DB - MIN_DB)` lies within `1e-5` dB of zero.
pub proof fn law_default_gain_is_unity()
    ensures
        is_positive_normal_below_2_52(DEFAULT_GAIN_NORMALIZED_BITS),
        ({
            let num = significand(DEFAULT_GAIN_NORMALIZED_BITS);
            let den = scale(DEFAULT_GAIN_NORMALIZED_BITS);
            let db_times_den = MIN_DB * den + num * (MAX_DB - MIN_DB);
            &&& den > 0
            &&& -den < db_times_den * 100000 < den
        }),
{
    vstd::arithmetic::power2::lemma2_to64();
    vstd::arithmetic::power2::lemma2_to64_rest();
    assert(scale(DEFAULT_GAIN_NORMALIZED_BITS) == 0x20_0000_0000_0000);
}

/// The processor and the controller start from the same gain: the shared store's initial
/// gain is the controller's initial gain and the parameter's default, and clamping leaves
/// it as it is.
pub proof fn law_initial_gain_agrees()
    ensures
        initial_shared().gain == DEFAULT_GAIN_NORMALIZED_BITS,
        spec_clamp_unit(DEFAULT_GAIN_NORMALIZED_BITS) == DEFAULT_GAIN_NORMALIZED_BITS,
        initial_shared() == initial_shared().with_gain(DEFAULT_GAIN_NORMALIZED_BITS),
{
}

/// A meter poll reports each meter's own stored level, and changes nothing: in
/// particular a level just stored to one meter comes back on that meter and no other.
pub proof fn law_poll_reports_each_meter(
    v: SharedParamsView,
    f: (Option<Seq<char>>, Option<u64>, Option<u64>),
    state: u64,
    db: u64,
)
    requires
        fields_command(f) == UiCommand::PollMeters,
    ensures
        ui_action(v, f) == (UiAction::UpdateMeters {
            readings: MeterReadings {
                peak_l_db: v.peak_l_db,
                peak_r_db: v.peak_r_db,
                rms_l_db: v.rms_l_db,
                rms_r_db: v.rms_r_db,
            },
        }),
        after_ui_fields((state, v), f) == (state, v),
        ui_action(v.with_peak_r_db(db), f) matches UiAction::UpdateMeters { readings }
            && readings.peak_r_db == db && readings.peak_l_db == v.peak_l_db
            && readings.rms_l_db == v.rms_l_db && readings.rms_r_db == v.rms_r_db,
        ui_action(v.with_rms_l_db(db), f) matches UiAction::UpdateMeters { readings }
            && readings.rms_l_db == db && readings.peak_l_db == v.peak_l_db
            && readings.peak_r_db == v.peak_r_db && readings.rms_r_db == v.rms_r_db,
{
}

} // verus!
