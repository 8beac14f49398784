//! The Adjust action for encoders: the checks on the selected numeric
//! characteristic and how a failed refresh is reported.
use vstd::prelude::*;
use crate::actions::common::{connection_failure, looks_like_connection_error};
use crate::actions::switch::{unavailable_description, unavailable_detail};
use crate::models::{
    AccessoryService, Characteristic, SelectedCharacteristic, identity_index, numeric_characteristic,
};
use crate::text::{concat, owned};

verus! {

/// The message for a selection that `service` no longer has.
pub open spec fn missing_selection_text<S: SelectedCharacteristic>(service: AccessoryService, s: S) -> Seq<char> {
    "selected characteristic is no longer available; "@ + unavailable_detail(
        service@.service_characteristics,
        s.selected_accessory(),
        s.selected_uuid(),
        s.selected_type(),
    )
}

/// The message for a selection that `service` no longer has.
pub fn missing_selection_message<S: SelectedCharacteristic>(service: &AccessoryService, settings: &S) -> (r: String)
    ensures
        r@ == missing_selection_text(*service, *settings),
{
    let detail = unavailable_description(service, settings);
    concat("selected characteristic is no longer available; ", detail.as_str())
}

/// The characteristic an encoder adjusts: the selected one when it is
/// writable and numeric, else why it cannot be adjusted.
pub fn adjust_target<'a, S: SelectedCharacteristic>(service: &'a AccessoryService, settings: &S) -> (r: Result<
    &'a Characteristic,
    String,
>)
    ensures
        ({
            let cs = service@.service_characteristics;
            match identity_index(cs, settings.selected_uuid(), settings.selected_type()) {
                None => r matches Err(e) && e@ == missing_selection_text(*service, *settings),
                Some(i) => if !cs[i].can_write {
                    r matches Err(e) && e@ == "selected characteristic is read-only"@
                } else if !numeric_characteristic(cs[i]) {
                    r matches Err(e) && e@ == "selected characteristic is not numeric"@
                } else {
                    r matches Ok(c) && 0 <= i < service.service_characteristics@.len() && *c
                        == service.service_characteristics@[i]
                },
            }
        }),
{
    let found = service.characteristic_by_identity(
        settings.characteristic_uuid(),
        settings.characteristic_type(),
    );
    match found {
        None => Err(missing_selection_message(service, settings)),
        Some(characteristic) => {
            if !characteristic.can_write {
                Err(owned("selected characteristic is read-only"))
            } else if !characteristic.is_numeric() {
                Err(owned("selected characteristic is not numeric"))
            } else {
                Ok(characteristic)
            }
        },
    }
}

/// The key under which an encoder's last error is recorded.
pub fn adjust_error_key(instance_id: &str) -> (r: String)
    ensures
        r@ == "adjust:"@ + instance_id@,
{
    concat("adjust:", instance_id)
}

/// How an encoder shows a failed refresh.
#[derive(Debug)]
pub enum AdjustFailure {
    /// Show `title`, log the error, and alert when `alert`.
    Shown { title: String, alert: bool },
    /// Homebridge is unreachable and nobody pressed the encoder: show
    /// `Connecting…` when it was never reached, and log the message only
    /// when it is new.
    Quiet { connecting: bool },
}

/// How a failed refresh is reported, and whether it means that Homebridge
/// was lost.
#[derive(Debug)]
pub struct AdjustFailureReport {
    pub connection_lost: bool,
    pub outcome: AdjustFailure,
}

/// Decides how an encoder reports a failed read with `message`: an
/// unreachable Homebridge is marked offline and shows `Offline` when the
/// encoder was pressed, and otherwise stays quiet; any other error shows a
/// Homebridge error.
pub fn adjust_failure_report(message: &str, show_alert: bool, connected_once: bool) -> (r: AdjustFailureReport)
    ensures
        r.connection_lost == connection_failure(message@),
        if connection_failure(message@) {
            if show_alert {
                r.outcome matches AdjustFailure::Shown { title, alert } && title@ == "Offline"@ && alert
            } else {
                r.outcome == (AdjustFailure::Quiet { connecting: !connected_once })
            }
        } else {
            r.outcome matches AdjustFailure::Shown { title, alert } && title@ == "Homebridge\nerror"@
                && alert == show_alert
        },
{
    if looks_like_connection_error(message) {
        let outcome = if show_alert {
            AdjustFailure::Shown { title: owned("Offline"), alert: true }
        } else {
            AdjustFailure::Quiet { connecting: !connected_once }
        };
        AdjustFailureReport { connection_lost: true, outcome }
    } else {
        AdjustFailureReport {
            connection_lost: false,
            outcome: AdjustFailure::Shown { title: owned("Homebridge\nerror"), alert: show_alert },
        }
    }
}

} // verus!
