//! The Set State action: writes one configured value to the selected
//! characteristic when its key is released.
use vstd::prelude::*;
use crate::actions::common::{display_title, title_for};
use crate::actions::switch::{unavailable_description, unavailable_detail};
use crate::json::{Json, JsonView, view_json};
use crate::models::{AccessoryService, SelectedCharacteristic, SetStateSettings, configured, identity_index};
use crate::text::{blank, concat, lemma_blank_iff_trimmed_empty, owned, trimmed};

verus! {

/// The settings name a characteristic and a value to write.
pub open spec fn set_state_configured(s: SetStateSettings) -> bool {
    configured(s.accessory_id@, s.characteristic_type@, s.characteristic_uuid@) && view_json(
        s.target_value,
    ) != JsonView::Null
}

/// Whether the action can write: it names a characteristic and a value.
pub fn set_state_ready(settings: &SetStateSettings) -> (r: bool)
    ensures
        r == set_state_configured(*settings),
{
    settings.is_configured() && !settings.target_value.is_null()
}

/// The write a Set State action makes, and the title it shows after it.
#[derive(Debug)]
pub struct SetStateWrite {
    pub characteristic_type: String,
    pub value: Json,
    pub title: String,
}

/// Whether `r` is the right plan for writing the configured value to
/// `service`: the selected characteristic when it can be written, else why
/// not.
pub open spec fn set_state_write_ok(r: Result<SetStateWrite, String>, service: AccessoryService, s: SetStateSettings) -> bool {
    let cs = service@.service_characteristics;
    match identity_index(cs, s.characteristic_uuid@, s.characteristic_type@) {
        None => r matches Err(e) && e@ == "selected characteristic is no longer available; "@
            + unavailable_detail(cs, s.accessory_id@, s.characteristic_uuid@, s.characteristic_type@),
        Some(i) => if !cs[i].can_write {
            r matches Err(e) && e@ == "selected characteristic is read-only"@
        } else {
            r matches Ok(w) && w.characteristic_type@ == cs[i].characteristic_type && view_json(w.value)
                == view_json(s.target_value) && w.title@ == title_for(s.display_name@, service@.service_name)
        },
    }
}

/// Plans the write of the configured value to the service just read.
pub fn set_state_write(service: &AccessoryService, settings: &SetStateSettings) -> (r: Result<
    SetStateWrite,
    String,
>)
    ensures
        set_state_write_ok(r, *service, *settings),
{
    let found = service.characteristic_by_identity(
        settings.characteristic_uuid(),
        settings.characteristic_type(),
    );
    match found {
        None => {
            let detail = unavailable_description(service, settings);
            Err(concat("selected characteristic is no longer available; ", detail.as_str()))
        },
        Some(characteristic) => {
            if !characteristic.can_write {
                Err(owned("selected characteristic is read-only"))
            } else {
                Ok(SetStateWrite {
                    characteristic_type: characteristic.characteristic_type.clone(),
                    value: settings.target_value.duplicate(),
                    title: display_title(settings.display_name.as_str(), service.service_name.as_str()),
                })
            }
        },
    }
}

/// After a Set State write the key shows the configured display name,
/// trimmed, whenever that name is not blank; the service's name, trimmed,
/// only when the display name is blank; and `Homebridge` when both are.
pub proof fn law_set_state_title(r: Result<SetStateWrite, String>, service: AccessoryService, s: SetStateSettings)
    requires
        set_state_write_ok(r, service, s),
    ensures
        r matches Ok(w) ==> {
            &&& !blank(s.display_name@) ==> w.title@ == trimmed(s.display_name@)
            &&& blank(s.display_name@) && !blank(service@.service_name) ==> w.title@ == trimmed(
                service@.service_name,
            )
            &&& blank(s.display_name@) && blank(service@.service_name) ==> w.title@ == "Homebridge"@
        },
{
    lemma_blank_iff_trimmed_empty(s.display_name@);
    lemma_blank_iff_trimmed_empty(service@.service_name);
}

/// The title a Set State action shows before it is used: its name, or that
/// a state must be selected.
pub fn set_state_idle_title(settings: &SetStateSettings) -> (r: String)
    ensures
        r@ == if configured(
            settings.accessory_id@,
            settings.characteristic_type@,
            settings.characteristic_uuid@,
        ) {
            title_for(settings.display_name@, "Set state"@)
        } else {
            "Select\nstate"@
        },
{
    if settings.is_configured() {
        display_title(settings.display_name.as_str(), "Set state")
    } else {
        owned("Select\nstate")
    }
}

} // verus!
