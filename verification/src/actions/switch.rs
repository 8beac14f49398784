//! The Switch action: reading a Boolean characteristic in its common
//! encodings, titles, the selection checks, and the toggle, which reads the
//! current state, writes its inverse and confirms it with up to three reads.
use vstd::prelude::*;
use crate::actions::common::{connection_failure, display_title, looks_like_connection_error, title_for};
use crate::json::{Json, JsonNumber, JsonView, view_json};
use crate::models::{
    AccessoryService, AccessoryServiceView, Characteristic, CharacteristicView, SelectedCharacteristic,
    SwitchSettings, SwitchSettingsView, available_types_text, boolean_characteristic, configured,
    identity_index,
};
use crate::text::{concat, decimal, lower, owned, same_text, to_lower, trim, trim_end, trim_start, trimmed};

verus! {

// ---------------------------------------------------------------------------
// Boolean values.

/// The number is 0 (as `Value::as_f64` compares it).
pub open spec fn number_is_zero(n: JsonNumber) -> bool {
    match n {
        JsonNumber::PosInt(u) => u == 0,
        JsonNumber::NegInt(i) => i == 0,
        JsonNumber::Float(bits) => bits == 0 || bits == 0x8000_0000_0000_0000u64,
    }
}

/// The number is 1 (as `Value::as_f64` compares it).
pub open spec fn number_is_one(n: JsonNumber) -> bool {
    match n {
        JsonNumber::PosInt(u) => u == 1,
        JsonNumber::NegInt(_) => false,
        JsonNumber::Float(bits) => bits == 0x3ff0_0000_0000_0000u64,
    }
}

/// The Boolean that a JSON value encodes: a Boolean, the number 0 or 1, or
/// one of the words true/on/1 and false/off/0 (also yes/no when `yes_no`),
/// ignoring surrounding whitespace and ASCII case.
pub open spec fn boolean_of(v: JsonView, yes_no: bool) -> Option<bool> {
    match v {
        JsonView::Bool(b) => Some(b),
        JsonView::Number(n) => if number_is_zero(n) {
            Some(false)
        } else if number_is_one(n) {
            Some(true)
        } else {
            None
        },
        JsonView::String(s) => {
            let t = lower(trimmed(s));
            if t == "true"@ || t == "on"@ || t == "1"@ || (yes_no && t == "yes"@) {
                Some(true)
            } else if t == "false"@ || t == "off"@ || t == "0"@ || (yes_no && t == "no"@) {
                Some(false)
            } else {
                None
            }
        },
        _ => None,
    }
}

/// The Boolean a JSON value encodes, or `None`.
pub fn boolean_of_json(value: &Json, yes_no: bool) -> (r: Option<bool>)
    ensures
        r == boolean_of(view_json(*value), yes_no),
{
    match value {
        Json::Bool(b) => Some(*b),
        Json::Number(n) => {
            let zero = match n {
                JsonNumber::PosInt(u) => *u == 0,
                JsonNumber::NegInt(i) => *i == 0,
                JsonNumber::Float(bits) => *bits == 0 || *bits == 0x8000_0000_0000_0000u64,
            };
            let one = match n {
                JsonNumber::PosInt(u) => *u == 1,
                JsonNumber::NegInt(_) => false,
                JsonNumber::Float(bits) => *bits == 0x3ff0_0000_0000_0000u64,
            };
            if zero {
                Some(false)
            } else if one {
                Some(true)
            } else {
                None
            }
        },
        Json::String(s) => {
            let t0 = trim(s.as_str());
            let t = to_lower(t0.as_str());
            if same_text(t.as_str(), "true") || same_text(t.as_str(), "on") || same_text(t.as_str(), "1")
                || (yes_no && same_text(t.as_str(), "yes")) {
                Some(true)
            } else if same_text(t.as_str(), "false") || same_text(t.as_str(), "off") || same_text(
                t.as_str(),
                "0",
            ) || (yes_no && same_text(t.as_str(), "no")) {
                Some(false)
            } else {
                None
            }
        },
        _ => None,
    }
}

/// How numbers read as Booleans: a number reads as false exactly when it is
/// 0 (the integer 0, or the float 0.0 or -0.0), as true exactly when it is 1
/// (the integer 1 or the float 1.0), and as nothing otherwise. So the integer
/// 1 reads as `true` does and as the word "1" does, and the integer 0 as
/// `false` and the word "0" do.
pub proof fn law_numbers_as_booleans(n: JsonNumber, yes_no: bool)
    ensures
        (boolean_of(JsonView::Number(n), yes_no) == Some(false)) <==> (n == JsonNumber::PosInt(0)
            || n == JsonNumber::NegInt(0) || n == JsonNumber::Float(0)
            || n == JsonNumber::Float(0x8000_0000_0000_0000u64)),
        (boolean_of(JsonView::Number(n), yes_no) == Some(true)) <==> (n == JsonNumber::PosInt(1)
            || n == JsonNumber::Float(0x3ff0_0000_0000_0000u64)),
        boolean_of(JsonView::Number(JsonNumber::PosInt(1)), yes_no) == Some(true),
        boolean_of(JsonView::Number(JsonNumber::PosInt(1)), yes_no) == boolean_of(JsonView::Bool(true), yes_no),
        boolean_of(JsonView::Number(JsonNumber::PosInt(1)), yes_no) == boolean_of(
            JsonView::String(seq!['1']),
            yes_no,
        ),
        boolean_of(JsonView::Number(JsonNumber::PosInt(0)), yes_no) == boolean_of(JsonView::Bool(false), yes_no),
        boolean_of(JsonView::Number(JsonNumber::PosInt(0)), yes_no) == boolean_of(
            JsonView::String(seq!['0']),
            yes_no,
        ),
{
    reveal_strlit("true");
    reveal_strlit("on");
    reveal_strlit("1");
    reveal_strlit("yes");
    reveal_strlit("false");
    reveal_strlit("off");
    reveal_strlit("0");
    reveal_strlit("no");
    let one = seq!['1'];
    let zero = seq!['0'];
    assert(trim_start(one) == one);
    assert(trim_end(one) == one);
    assert(lower(one) =~= one);
    assert(one =~= "1"@);
    assert(trim_start(zero) == zero);
    assert(trim_end(zero) == zero);
    assert(lower(zero) =~= zero);
    assert(zero =~= "0"@);
    assert("true"@.len() == 4 && "on"@.len() == 2 && "yes"@.len() == 3);
    assert("false"@.len() == 5 && "off"@.len() == 3 && "no"@.len() == 2);
    assert(one != "0"@);
    assert(zero != "1"@);
}

/// The state of a Switch characteristic's value; Homebridge plugins send
/// Booleans as `true`/`false`, 0/1 or words.
pub fn boolean_state(value: &Json) -> (r: Result<bool, String>)
    ensures
        match boolean_of(view_json(*value), true) {
            Some(b) => r == Ok::<bool, String>(b),
            None => r matches Err(e) && e@ == "characteristic value is not Boolean"@,
        },
{
    match boolean_of_json(value, true) {
        Some(b) => Ok(b),
        None => Err(owned("characteristic value is not Boolean")),
    }
}

/// The state of a power characteristic's value (no yes/no words).
pub fn read_boolean(value: &Json) -> (r: Result<bool, String>)
    ensures
        match boolean_of(view_json(*value), false) {
            Some(b) => r == Ok::<bool, String>(b),
            None => r matches Err(e) && e@ == "power value is not Boolean"@,
        },
{
    match boolean_of_json(value, false) {
        Some(b) => Ok(b),
        None => Err(owned("power value is not Boolean")),
    }
}

// ---------------------------------------------------------------------------
// Titles.

/// `On` or `Off`.
pub open spec fn on_off(is_on: bool) -> Seq<char> {
    if is_on {
        "On"@
    } else {
        "Off"@
    }
}

/// A Switch title for the label mode: the state, the name, nothing, or by
/// default the name above the state.
pub open spec fn switch_title(name: Seq<char>, is_on: bool, label_mode: Seq<char>) -> Seq<char> {
    if label_mode == "stateOnly"@ {
        on_off(is_on)
    } else if label_mode == "nameOnly"@ {
        name
    } else if label_mode == "hidden"@ {
        Seq::empty()
    } else {
        name + "\n"@ + on_off(is_on)
    }
}

/// The title of a Switch showing `is_on`.
pub fn state_title(name: &str, is_on: bool, label_mode: &str) -> (r: String)
    ensures
        r@ == switch_title(name@, is_on, label_mode@),
{
    let state = if is_on {
        "On"
    } else {
        "Off"
    };
    if same_text(label_mode, "stateOnly") {
        owned(state)
    } else if same_text(label_mode, "nameOnly") {
        owned(name)
    } else if same_text(label_mode, "hidden") {
        String::new()
    } else {
        let head = concat(name, "\n");
        concat(head.as_str(), state)
    }
}

/// The key under which a Switch's last error is recorded.
pub fn switch_error_key(instance_id: &str) -> (r: String)
    ensures
        r@ == "switch:"@ + instance_id@,
{
    concat("switch:", instance_id)
}

// ---------------------------------------------------------------------------
// Selection.

/// Why the selected characteristic cannot be used by a Switch.
#[derive(Debug)]
pub enum SwitchSelectionError {
    CharacteristicUnavailable(String),
    CannotRead,
    ReadOnly,
    NotBoolean,
}

/// The description of a selection that no longer exists.
pub open spec fn unavailable_detail(cs: Seq<CharacteristicView>, accessory_id: Seq<char>, uuid: Seq<char>, t: Seq<char>) -> Seq<char> {
    "service_id='"@ + accessory_id + "', characteristic_uuid='"@ + uuid + "', characteristic_type='"@
        + t + "', available=["@ + available_types_text(cs) + "]"@
}

/// The description of the selection `settings` makes, which `service` no
/// longer has.
pub fn unavailable_description<S: SelectedCharacteristic>(service: &AccessoryService, settings: &S) -> (r: String)
    ensures
        r@ == unavailable_detail(
            service@.service_characteristics,
            settings.selected_accessory(),
            settings.selected_uuid(),
            settings.selected_type(),
        ),
{
    let available = service.available_characteristic_types();
    let a = concat("service_id='", settings.accessory_id());
    let b = concat(a.as_str(), "', characteristic_uuid='");
    let c = concat(b.as_str(), settings.characteristic_uuid());
    let d = concat(c.as_str(), "', characteristic_type='");
    let e = concat(d.as_str(), settings.characteristic_type());
    let f = concat(e.as_str(), "', available=[");
    let g = concat(f.as_str(), available.as_str());
    concat(g.as_str(), "]")
}

/// The message of a selection error.
pub open spec fn selection_message(e: SwitchSelectionError) -> Seq<char> {
    match e {
        SwitchSelectionError::CharacteristicUnavailable(d) => "selected characteristic is no longer available; "@
            + d@,
        SwitchSelectionError::CannotRead => "selected characteristic cannot be read"@,
        SwitchSelectionError::ReadOnly => "selected characteristic is read-only"@,
        SwitchSelectionError::NotBoolean => "selected characteristic is not Boolean"@,
    }
}

impl SwitchSelectionError {
    /// The error's message.
    pub fn message(&self) -> (r: String)
        ensures
            r@ == selection_message(*self),
    {
        match self {
            SwitchSelectionError::CharacteristicUnavailable(detail) => concat(
                "selected characteristic is no longer available; ",
                detail.as_str(),
            ),
            SwitchSelectionError::CannotRead => owned("selected characteristic cannot be read"),
            SwitchSelectionError::ReadOnly => owned("selected characteristic is read-only"),
            SwitchSelectionError::NotBoolean => owned("selected characteristic is not Boolean"),
        }
    }
}

/// Whether a selection outcome over `cs` is right: the characteristic at the
/// selected position when it is readable, writable and Boolean, otherwise
/// the first check that fails.
pub open spec fn switch_selection_ok(
    r: Result<&Characteristic, SwitchSelectionError>,
    s: AccessoryService,
    st: SwitchSettingsView,
) -> bool {
    let cs = s@.service_characteristics;
    match identity_index(cs, st.characteristic_uuid, st.characteristic_type) {
        None => r matches Err(SwitchSelectionError::CharacteristicUnavailable(d)) && d@
            == unavailable_detail(cs, st.accessory_id, st.characteristic_uuid, st.characteristic_type),
        Some(i) => if !cs[i].can_read {
            r matches Err(SwitchSelectionError::CannotRead)
        } else if !cs[i].can_write {
            r matches Err(SwitchSelectionError::ReadOnly)
        } else if !boolean_characteristic(cs[i]) {
            r matches Err(SwitchSelectionError::NotBoolean)
        } else {
            r matches Ok(c) && 0 <= i < s.service_characteristics@.len() && *c
                == s.service_characteristics@[i]
        },
    }
}

/// The characteristic a Switch toggles, checked to be readable, writable
/// and Boolean.
pub fn selected_switch_characteristic<'a>(
    service: &'a AccessoryService,
    settings: &SwitchSettings,
) -> (r: Result<&'a Characteristic, SwitchSelectionError>)
    ensures
        switch_selection_ok(r, *service, settings@),
{
    let found = service.characteristic_by_identity(
        settings.characteristic_uuid(),
        settings.characteristic_type(),
    );
    match found {
        None => Err(SwitchSelectionError::CharacteristicUnavailable(unavailable_description(service, settings))),
        Some(characteristic) => {
            if !characteristic.can_read {
                Err(SwitchSelectionError::CannotRead)
            } else if !characteristic.can_write {
                Err(SwitchSelectionError::ReadOnly)
            } else if !characteristic.is_boolean() {
                Err(SwitchSelectionError::NotBoolean)
            } else {
                Ok(characteristic)
            }
        },
    }
}

// ---------------------------------------------------------------------------
// Reading the displayed state.

/// What a Switch shows: its state and its title.
#[derive(Debug)]
pub struct SwitchDisplayState {
    pub is_on: bool,
    pub title: String,
}

/// Why a toggle or a refresh failed.
#[derive(Debug)]
pub enum SwitchFailure {
    /// The selected characteristic cannot be used.
    Selection(SwitchSelectionError),
    /// Homebridge failed, or answered something unusable.
    Other(String),
}

/// The message of a failure.
pub open spec fn failure_message(f: SwitchFailure) -> Seq<char> {
    match f {
        SwitchFailure::Selection(e) => selection_message(e),
        SwitchFailure::Other(m) => m@,
    }
}

impl SwitchFailure {
    /// The failure's message.
    pub fn message(&self) -> (r: String)
        ensures
            r@ == failure_message(*self),
    {
        match self {
            SwitchFailure::Selection(e) => e.message(),
            SwitchFailure::Other(m) => m.clone(),
        }
    }
}

/// Whether `r` is what a Switch shows for `s`: the state of the selected
/// characteristic with its title, or why it cannot be shown.
pub open spec fn display_ok(r: Result<SwitchDisplayState, SwitchFailure>, s: AccessoryService, st: SwitchSettingsView) -> bool {
    let cs = s@.service_characteristics;
    match identity_index(cs, st.characteristic_uuid, st.characteristic_type) {
        Some(i) if cs[i].can_read && cs[i].can_write && boolean_characteristic(cs[i]) =>
            match boolean_of(cs[i].value, true) {
                Some(on) => r matches Ok(d) && d.is_on == on && d.title@ == switch_title(
                    title_for(st.display_name, s@.service_name),
                    on,
                    st.label_mode,
                ),
                None => r matches Err(SwitchFailure::Other(m)) && m@ == "characteristic value is not Boolean"@,
            },
        _ => r matches Err(SwitchFailure::Selection(e)) && switch_selection_ok(Err(e), s, st),
    }
}

/// What a Switch shows for a service just read from Homebridge.
pub fn display_state_of(service: &AccessoryService, settings: &SwitchSettings) -> (r: Result<
    SwitchDisplayState,
    SwitchFailure,
>)
    ensures
        display_ok(r, *service, settings@),
{
    let characteristic = match selected_switch_characteristic(service, settings) {
        Ok(c) => c,
        Err(e) => {
            return Err(SwitchFailure::Selection(e));
        },
    };
    let is_on = match boolean_state(&characteristic.value) {
        Ok(b) => b,
        Err(m) => {
            return Err(SwitchFailure::Other(m));
        },
    };
    let name = display_title(settings.display_name.as_str(), service.service_name.as_str());
    let title = state_title(name.as_str(), is_on, settings.label_mode.as_str());
    Ok(SwitchDisplayState { is_on, title })
}

// ---------------------------------------------------------------------------
// Toggling.

/// Where a toggle stands.
#[derive(Debug)]
pub enum ToggleState {
    /// The current state has been requested.
    Start,
    /// The inverse has been written.
    Writing { requested_on: bool },
    /// `reads` confirmation reads came back with another state.
    Confirming { requested_on: bool, reads: u64 },
    /// The toggle is over.
    Finished,
}

/// What Homebridge answered to the last action.
#[derive(Debug)]
pub enum ToggleEvent {
    /// The service was read, or reading it failed.
    Read(Result<AccessoryService, String>),
    /// The write was accepted, or failed.
    Wrote(Result<(), String>),
}

/// What to do next.
#[derive(Debug)]
pub enum ToggleAction {
    /// The Switch is not configured: show that and alert.
    NotConfigured,
    /// Read the service.
    ReadService,
    /// Write `on` to the characteristic `characteristic_type`.
    Write { characteristic_type: String, on: bool },
    /// Wait `delay_ms` milliseconds, then read the service.
    WaitThenRead { delay_ms: u64 },
    /// The toggle is confirmed: show this state.
    Succeed(SwitchDisplayState),
    /// The toggle failed.
    Fail(SwitchFailure),
}

/// The pause before the confirmation read that follows `reads` mismatches.
pub open spec fn confirm_delay(reads: u64) -> u64 {
    if reads == 0 {
        250
    } else {
        750
    }
}

/// The error when every confirmation read showed the old state.
pub open spec fn unconfirmed_message(confirmed: bool, requested: bool) -> Seq<char> {
    "Homebridge accepted the write but the confirmed state remained "@ + on_off(confirmed)
        + " instead of "@ + on_off(requested)
}

/// How a toggle starts.
pub fn toggle_begin(settings: &SwitchSettings) -> (r: (ToggleState, ToggleAction))
    ensures
        if configured(settings@.accessory_id, settings@.characteristic_type, settings@.characteristic_uuid) {
            r.0 is Start && r.1 is ReadService
        } else {
            r.0 is Finished && r.1 is NotConfigured
        },
{
    if settings.is_configured() {
        (ToggleState::Start, ToggleAction::ReadService)
    } else {
        (ToggleState::Finished, ToggleAction::NotConfigured)
    }
}

/// An event that answers the action a state was waiting on.
pub open spec fn event_expected(state: ToggleState, event: ToggleEvent) -> bool {
    match state {
        ToggleState::Start => event is Read,
        ToggleState::Writing { .. } => event is Wrote,
        ToggleState::Confirming { reads, .. } => event is Read && reads <= 2,
        ToggleState::Finished => false,
    }
}

/// The failure `f` carries exactly the message `m`.
pub open spec fn other_failure(a: ToggleAction, m: Seq<char>) -> bool {
    a matches ToggleAction::Fail(SwitchFailure::Other(x)) && x@ == m
}

/// Whether `(next, action)` is the right step from `state` on `event`: a
/// read before writing decides the inverse of the current state; the
/// write is followed by confirmation reads, paused 250 ms and then 750 ms;
/// success is reported only when a read shows the requested state, and
/// failure after the third read that does not.
pub open spec fn toggle_step_ok(
    st: SwitchSettingsView,
    state: ToggleState,
    event: ToggleEvent,
    next: ToggleState,
    action: ToggleAction,
) -> bool {
    match (state, event) {
        (ToggleState::Start, ToggleEvent::Read(Err(e))) => next is Finished && other_failure(action, e@),
        (ToggleState::Start, ToggleEvent::Read(Ok(svc))) => {
            let cs = svc@.service_characteristics;
            match identity_index(cs, st.characteristic_uuid, st.characteristic_type) {
                Some(i) if cs[i].can_read && cs[i].can_write && boolean_characteristic(cs[i]) =>
                    match boolean_of(cs[i].value, true) {
                        Some(current) => next == (ToggleState::Writing { requested_on: !current })
                            && (action matches ToggleAction::Write { characteristic_type, on } && on
                            == !current && characteristic_type@ == cs[i].characteristic_type),
                        None => next is Finished && other_failure(action, "characteristic value is not Boolean"@),
                    },
                _ => next is Finished && (action matches ToggleAction::Fail(SwitchFailure::Selection(e))
                    && switch_selection_ok(Err(e), svc, st)),
            }
        },
        (ToggleState::Writing { requested_on }, ToggleEvent::Wrote(Err(e))) => next is Finished
            && other_failure(action, e@),
        (ToggleState::Writing { requested_on }, ToggleEvent::Wrote(Ok(()))) => next == (ToggleState::Confirming {
            requested_on,
            reads: 0,
        }) && action is ReadService,
        (ToggleState::Confirming { requested_on, reads }, ToggleEvent::Read(Err(e))) => next is Finished
            && other_failure(action, e@),
        (ToggleState::Confirming { requested_on, reads }, ToggleEvent::Read(Ok(svc))) => {
            let cs = svc@.service_characteristics;
            match identity_index(cs, st.characteristic_uuid, st.characteristic_type) {
                Some(i) if cs[i].can_read && cs[i].can_write && boolean_characteristic(cs[i]) =>
                    match boolean_of(cs[i].value, true) {
                        Some(on) => if on == requested_on {
                            next is Finished && (action matches ToggleAction::Succeed(d) && d.is_on == on
                                && d.title@ == switch_title(
                                title_for(st.display_name, svc@.service_name),
                                on,
                                st.label_mode,
                            ))
                        } else if reads < 2 {
                            next == (ToggleState::Confirming { requested_on, reads: (reads + 1) as u64 })
                                && action == (ToggleAction::WaitThenRead { delay_ms: confirm_delay(reads) })
                        } else {
                            next is Finished && other_failure(action, unconfirmed_message(on, requested_on))
                        },
                        None => next is Finished && other_failure(action, "characteristic value is not Boolean"@),
                    },
                _ => next is Finished && (action matches ToggleAction::Fail(SwitchFailure::Selection(e))
                    && switch_selection_ok(Err(e), svc, st)),
            }
        },
        _ => false,
    }
}

/// `On` or `Off`.
fn on_off_text(is_on: bool) -> (r: &'static str)
    ensures
        r@ == on_off(is_on),
{
    if is_on {
        "On"
    } else {
        "Off"
    }
}

/// One step of a toggle: the next state and action after `event`.
pub fn toggle_step(settings: &SwitchSettings, state: ToggleState, event: ToggleEvent) -> (r: (ToggleState, ToggleAction))
    requires
        event_expected(state, event),
    ensures
        toggle_step_ok(settings@, state, event, r.0, r.1),
{
    match (state, event) {
        (ToggleState::Start, ToggleEvent::Read(Err(e))) => (ToggleState::Finished, ToggleAction::Fail(SwitchFailure::Other(e))),
        (ToggleState::Start, ToggleEvent::Read(Ok(service))) => {
            match display_state_of(&service, settings) {
                Err(f) => (ToggleState::Finished, ToggleAction::Fail(f)),
                Ok(current) => {
                    let characteristic = match selected_switch_characteristic(&service, settings) {
                        Ok(c) => c,
                        Err(e) => {
                            return (ToggleState::Finished, ToggleAction::Fail(SwitchFailure::Selection(e)));
                        },
                    };
                    let requested_on = !current.is_on;
                    (
                        ToggleState::Writing { requested_on },
                        ToggleAction::Write {
                            characteristic_type: characteristic.characteristic_type.clone(),
                            on: requested_on,
                        },
                    )
                },
            }
        },
        (ToggleState::Writing { requested_on }, ToggleEvent::Wrote(result)) => match result {
            Err(e) => (ToggleState::Finished, ToggleAction::Fail(SwitchFailure::Other(e))),
            Ok(()) => (ToggleState::Confirming { requested_on, reads: 0 }, ToggleAction::ReadService),
        },
        (ToggleState::Confirming { requested_on, reads }, ToggleEvent::Read(result)) => match result {
            Err(e) => (ToggleState::Finished, ToggleAction::Fail(SwitchFailure::Other(e))),
            Ok(service) => match display_state_of(&service, settings) {
                Err(f) => (ToggleState::Finished, ToggleAction::Fail(f)),
                Ok(display) => {
                    if display.is_on == requested_on {
                        (ToggleState::Finished, ToggleAction::Succeed(display))
                    } else if reads < 2 {
                        let delay_ms: u64 = if reads == 0 {
                            250
                        } else {
                            750
                        };
                        (ToggleState::Confirming { requested_on, reads: reads + 1 }, ToggleAction::WaitThenRead { delay_ms })
                    } else {
                        let a = concat(
                            "Homebridge accepted the write but the confirmed state remained ",
                            on_off_text(display.is_on),
                        );
                        let b = concat(a.as_str(), " instead of ");
                        let m = concat(b.as_str(), on_off_text(requested_on));
                        (ToggleState::Finished, ToggleAction::Fail(SwitchFailure::Other(m)))
                    }
                },
            },
        },
        (ToggleState::Start, ToggleEvent::Wrote(_)) => (ToggleState::Finished, ToggleAction::NotConfigured),
        (ToggleState::Confirming { .. }, ToggleEvent::Wrote(_)) => (ToggleState::Finished, ToggleAction::NotConfigured),
        (ToggleState::Writing { .. }, ToggleEvent::Read(_)) => (ToggleState::Finished, ToggleAction::NotConfigured),
        (ToggleState::Finished, _) => (ToggleState::Finished, ToggleAction::NotConfigured),
    }
}

/// A toggle never reports success with a state other than the one it
/// wrote, and the state it writes is the inverse of the one it read.
pub proof fn law_toggle_confirms_inverse(
    st: SwitchSettingsView,
    state: ToggleState,
    event: ToggleEvent,
    next: ToggleState,
    action: ToggleAction,
)
    requires
        toggle_step_ok(st, state, event, next, action),
    ensures
        action matches ToggleAction::Succeed(d) ==> state matches ToggleState::Confirming {
            requested_on,
            ..
        } && d.is_on == requested_on,
        action matches ToggleAction::Write { on, .. } ==> state is Start && next
            == (ToggleState::Writing { requested_on: on }),
        next matches ToggleState::Confirming { reads, .. } ==> reads <= 2,
{
}

// ---------------------------------------------------------------------------
// Reporting errors.

/// How a Switch reports an error.
#[derive(Debug)]
pub struct SwitchErrorReport {
    /// Whether to log the message.
    pub log: bool,
    /// Whether the selection is invalid and polling stops.
    pub mark_invalid: bool,
    /// Whether Homebridge looks unreachable and a reconnect is due.
    pub connection_lost: bool,
    /// The title to show, if any.
    pub title: Option<String>,
}

/// The report for an error with `message`: a selection error shows that the
/// Switch is not configured; an unreachable Homebridge shows `Offline` when
/// the user pressed the key, `Connecting…` before the first connection, and
/// otherwise keeps the last state; any other error shows a Homebridge error.
pub open spec fn switch_error_report_ok(
    r: SwitchErrorReport,
    is_selection_error: bool,
    message: Seq<char>,
    first_occurrence: bool,
    show_alert: bool,
    connected_once: bool,
) -> bool {
    &&& r.log == (first_occurrence || show_alert)
    &&& r.mark_invalid == is_selection_error
    &&& r.connection_lost == (!is_selection_error && connection_failure(message))
    &&& if is_selection_error {
        r.title matches Some(t) && t@ == "Not\nConfigured"@
    } else if connection_failure(message) {
        if show_alert {
            r.title matches Some(t) && t@ == "Offline"@
        } else if connected_once {
            r.title is None
        } else {
            r.title matches Some(t) && t@ == "Connecting…"@
        }
    } else {
        r.title matches Some(t) && t@ == "Homebridge\nerror"@
    }
}

/// Decides how a Switch reports an error.
pub fn switch_error_report(
    failure: &SwitchFailure,
    first_occurrence: bool,
    show_alert: bool,
    connected_once: bool,
) -> (r: SwitchErrorReport)
    ensures
        switch_error_report_ok(
            r,
            failure is Selection,
            failure_message(*failure),
            first_occurrence,
            show_alert,
            connected_once,
        ),
{
    let message = failure.message();
    let is_selection = match failure {
        SwitchFailure::Selection(_) => true,
        SwitchFailure::Other(_) => false,
    };
    let log = first_occurrence || show_alert;
    if is_selection {
        return SwitchErrorReport {
            log,
            mark_invalid: true,
            connection_lost: false,
            title: Some(owned("Not\nConfigured")),
        };
    }
    if looks_like_connection_error(message.as_str()) {
        let title = if show_alert {
            Some(owned("Offline"))
        } else if connected_once {
            None
        } else {
            Some(owned("Connecting…"))
        };
        SwitchErrorReport { log, mark_invalid: false, connection_lost: true, title }
    } else {
        SwitchErrorReport {
            log,
            mark_invalid: false,
            connection_lost: false,
            title: Some(owned("Homebridge\nerror")),
        }
    }
}

} // verus!
