//! The Brightness action: the checks on the selected characteristic, the
//! power switch turned on along with the brightness, the title for each
//! label mode, and how errors are reported.
use vstd::prelude::*;
use crate::actions::common::{connection_failure, looks_like_connection_error};
use crate::actions::switch::{boolean_of, read_boolean, unavailable_description, unavailable_detail};
use crate::models::{
    AccessoryService, Characteristic, CharacteristicView, SelectedCharacteristic,
    brightness_compatible, identity_index, lookup_result, switch_compatible, type_index,
};
use crate::text::{concat, contains, contains_str, eq_ignore_ascii_case, eq_ignore_case, owned, same_text};

verus! {

/// The position of the characteristic a Brightness action drives: the
/// selected one, or else the first one of type `Brightness`.
pub open spec fn brightness_index(cs: Seq<CharacteristicView>, uuid: Seq<char>, t: Seq<char>) -> Option<int> {
    match identity_index(cs, uuid, t) {
        Some(i) => Some(i),
        None => type_index(cs, "Brightness"@),
    }
}

/// Whether `r` is the right choice of characteristic over `service`: the
/// one at `brightness_index` when it is readable, writable and a
/// Brightness value, otherwise the first check that fails.
pub open spec fn brightness_selection_ok<S: SelectedCharacteristic>(
    r: Result<&Characteristic, String>,
    service: AccessoryService,
    s: S,
) -> bool {
    let cs = service@.service_characteristics;
    match brightness_index(cs, s.selected_uuid(), s.selected_type()) {
        None => r matches Err(e) && e@ == "selected brightness characteristic is no longer available; "@
            + unavailable_detail(cs, s.selected_accessory(), s.selected_uuid(), s.selected_type()),
        Some(i) => if !cs[i].can_read {
            r matches Err(e) && e@ == "selected brightness characteristic cannot be read"@
        } else if !cs[i].can_write {
            r matches Err(e) && e@ == "selected brightness characteristic is read-only"@
        } else if !brightness_compatible(cs[i]) {
            r matches Err(e) && e@ == "selected characteristic is not a writable Brightness value"@
        } else {
            r matches Ok(c) && 0 <= i < service.service_characteristics@.len() && *c
                == service.service_characteristics@[i]
        },
    }
}

/// The characteristic a Brightness action reads and writes.
pub fn selected_brightness_characteristic<'a, S: SelectedCharacteristic>(
    service: &'a AccessoryService,
    settings: &S,
) -> (r: Result<&'a Characteristic, String>)
    ensures
        brightness_selection_ok(r, *service, *settings),
{
    let found = match service.characteristic_by_identity(
        settings.characteristic_uuid(),
        settings.characteristic_type(),
    ) {
        Some(c) => Some(c),
        None => service.characteristic("Brightness"),
    };
    match found {
        None => {
            let detail = unavailable_description(service, settings);
            Err(concat("selected brightness characteristic is no longer available; ", detail.as_str()))
        },
        Some(characteristic) => {
            if !characteristic.can_read {
                Err(owned("selected brightness characteristic cannot be read"))
            } else if !characteristic.can_write {
                Err(owned("selected brightness characteristic is read-only"))
            } else if !characteristic.is_brightness_compatible() {
                Err(owned("selected characteristic is not a writable Brightness value"))
            } else {
                Ok(characteristic)
            }
        },
    }
}

/// A power switch that a Brightness action may turn on: type `On` in any
/// ASCII case, readable, writable and Boolean.
pub open spec fn power_switch(c: CharacteristicView) -> bool {
    eq_ignore_case(c.characteristic_type, "On"@) && switch_compatible(c)
}

/// `i` is the first power switch of `cs`.
pub open spec fn first_power_switch(cs: Seq<CharacteristicView>, i: int) -> bool {
    0 <= i < cs.len() && power_switch(cs[i]) && forall|j: int| 0 <= j < i ==> !power_switch(#[trigger] cs[j])
}

/// The position of the first power switch, if there is one.
pub open spec fn power_index(cs: Seq<CharacteristicView>) -> Option<int> {
    if exists|i: int| first_power_switch(cs, i) {
        Some(choose|i: int| first_power_switch(cs, i))
    } else {
        None
    }
}

/// The power switch to turn on after raising the brightness: the first
/// power switch of the service, unless it already reads as on.
pub fn power_switch_to_turn_on(service: &AccessoryService) -> (r: Option<String>)
    ensures
        ({
            let cs = service@.service_characteristics;
            match power_index(cs) {
                None => r is None,
                Some(i) => if boolean_of(cs[i].value, false) == Some(true) {
                    r is None
                } else {
                    r matches Some(t) && t@ == cs[i].characteristic_type
                },
            }
        }),
{
    let ghost cs = service@.service_characteristics;
    let mut i: usize = 0;
    while i < service.service_characteristics.len()
        invariant
            i <= service.service_characteristics@.len(),
            cs == service@.service_characteristics,
            cs.len() == service.service_characteristics@.len(),
            forall|k: int| 0 <= k < cs.len() ==> #[trigger] cs[k] == service.service_characteristics@[k]@,
            forall|j: int| 0 <= j < i ==> !power_switch(#[trigger] cs[j]),
        decreases service.service_characteristics.len() - i,
    {
        let c = &service.service_characteristics[i];
        if eq_ignore_ascii_case(c.characteristic_type.as_str(), "On") && c.is_switch_compatible() {
            assert(first_power_switch(cs, i as int));
            proof {
                let k = choose|k: int| first_power_switch(cs, k);
                assert(k == i) by {
                    if k < i {
                        assert(!power_switch(cs[k]));
                    } else if k > i {
                        assert(!power_switch(cs[i as int]));
                    }
                }
            }
            let on = match read_boolean(&c.value) {
                Ok(b) => b,
                Err(_) => false,
            };
            if on {
                return None;
            } else {
                return Some(c.characteristic_type.clone());
            }
        }
        i = i + 1;
    }
    assert(!exists|k: int| first_power_switch(cs, k));
    None
}

/// The key under which a Brightness action's last error is recorded.
pub fn brightness_error_key(instance_id: &str) -> (r: String)
    ensures
        r@ == "brightness:"@ + instance_id@,
{
    concat("brightness:", instance_id)
}

/// The title of a Brightness action for its label mode: the value, the
/// name, nothing, or by default the name above the value.
pub open spec fn brightness_title_for(label_mode: Seq<char>, name: Seq<char>, value_label: Seq<char>) -> Seq<char> {
    if label_mode == "valueOnly"@ {
        value_label
    } else if label_mode == "nameOnly"@ {
        name
    } else if label_mode == "hidden"@ {
        Seq::empty()
    } else {
        name + "\n"@ + value_label
    }
}

/// The title of a Brightness action showing `value_label`.
pub fn brightness_title(label_mode: &str, name: &str, value_label: &str) -> (r: String)
    ensures
        r@ == brightness_title_for(label_mode@, name@, value_label@),
{
    if same_text(label_mode, "valueOnly") {
        owned(value_label)
    } else if same_text(label_mode, "nameOnly") {
        owned(name)
    } else if same_text(label_mode, "hidden") {
        String::new()
    } else {
        let head = concat(name, "\n");
        concat(head.as_str(), value_label)
    }
}

/// How a Brightness action reports an error.
#[derive(Debug)]
pub struct BrightnessErrorReport {
    /// Whether to log the message.
    pub log: bool,
    /// Whether the selection is invalid and polling stops.
    pub mark_invalid: bool,
    /// Whether Homebridge looks unreachable and a reconnect is due.
    pub connection_lost: bool,
    /// The title to show, if any; `None` keeps the last one shown.
    pub title: Option<String>,
}

/// An error that means the action's selection cannot be used.
pub open spec fn selection_problem(message: Seq<char>) -> bool {
    contains(message, "not configured"@) || contains(message, "no longer available"@)
}

/// Decides how a Brightness action reports an error with `message`: a
/// selection problem shows `Not\nConfigured` and stops polling; an
/// unreachable Homebridge calls for a reconnect and shows `Offline` when the
/// user pressed the key, `Connecting…` before the first connection, and
/// otherwise keeps the last state shown; any other error shows `Offline`.
/// The message is logged when it is new or the user pressed the key.
pub fn brightness_error_report(
    message: &str,
    first_occurrence: bool,
    show_alert: bool,
    connected_once: bool,
) -> (r: BrightnessErrorReport)
    ensures
        r.log == (first_occurrence || show_alert),
        r.mark_invalid == selection_problem(message@),
        r.connection_lost == (!selection_problem(message@) && connection_failure(message@)),
        if selection_problem(message@) {
            r.title matches Some(t) && t@ == "Not\nConfigured"@
        } else if connection_failure(message@) {
            if show_alert {
                r.title matches Some(t) && t@ == "Offline"@
            } else if connected_once {
                r.title is None
            } else {
                r.title matches Some(t) && t@ == "Connecting…"@
            }
        } else {
            r.title matches Some(t) && t@ == "Offline"@
        },
{
    let log = first_occurrence || show_alert;
    let problem = contains_str(message, "not configured") || contains_str(message, "no longer available");
    if problem {
        return BrightnessErrorReport {
            log,
            mark_invalid: true,
            connection_lost: false,
            title: Some(owned("Not\nConfigured")),
        };
    }
    if looks_like_connection_error(message) {
        let title = if show_alert {
            Some(owned("Offline"))
        } else if connected_once {
            None
        } else {
            Some(owned("Connecting…"))
        };
        BrightnessErrorReport { log, mark_invalid: false, connection_lost: true, title }
    } else {
        BrightnessErrorReport { log, mark_invalid: false, connection_lost: false, title: Some(owned("Offline")) }
    }
}

/// What follows a read that confirms a brightness write.
#[derive(Debug)]
pub enum BrightnessConfirmation {
    /// The read shows the requested brightness.
    Confirmed,
    /// Wait `delay_ms` milliseconds and read again.
    WaitThenRead { delay_ms: u64 },
    /// Four reads did not show the requested brightness: the write failed.
    Unconfirmed,
}

/// The pause after the `reads`-th confirmation read showed another value.
pub open spec fn brightness_confirm_delay(reads: int) -> u64 {
    if reads <= 1 {
        200
    } else if reads == 2 {
        500
    } else {
        1000
    }
}

/// Decides what follows the `reads`-th read after a brightness write, given
/// whether it shows the requested value (`on_target`): success when it
/// does, otherwise another read after 200, 500 and then 1000 ms, and
/// failure after the fourth read.
pub fn brightness_confirmation(reads: u64, on_target: bool) -> (r: BrightnessConfirmation)
    ensures
        on_target ==> (r is Confirmed),
        !on_target && reads <= 3 ==> r == (BrightnessConfirmation::WaitThenRead {
            delay_ms: brightness_confirm_delay(reads as int),
        }),
        !on_target && reads > 3 ==> (r is Unconfirmed),
{
    if on_target {
        BrightnessConfirmation::Confirmed
    } else if reads <= 1 {
        BrightnessConfirmation::WaitThenRead { delay_ms: 200 }
    } else if reads == 2 {
        BrightnessConfirmation::WaitThenRead { delay_ms: 500 }
    } else if reads == 3 {
        BrightnessConfirmation::WaitThenRead { delay_ms: 1000 }
    } else {
        BrightnessConfirmation::Unconfirmed
    }
}

} // verus!
