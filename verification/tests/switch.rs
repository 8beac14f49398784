use openhome::actions::switch::{
    boolean_state, read_boolean, selected_switch_characteristic, state_title, switch_error_report,
    toggle_begin, toggle_step, SwitchFailure, SwitchSelectionError, ToggleAction, ToggleEvent,
    ToggleState,
};
use openhome::json::{Json, JsonNumber};
use openhome::models::{AccessoryService, Characteristic, HomebridgeInstance, SwitchSettings};

fn text(s: &str) -> Json {
    Json::String(s.to_string())
}

fn lamp(on: bool) -> AccessoryService {
    let mut power = Characteristic::default();
    power.characteristic_type = "On".to_string();
    power.value = Json::Bool(on);
    power.format = "bool".to_string();
    power.can_read = true;
    power.can_write = true;
    AccessoryService {
        aid: None,
        iid: None,
        uuid: String::new(),
        raw_type: String::new(),
        human_type: String::new(),
        service_name: "Lamp".to_string(),
        service_type: "Lightbulb".to_string(),
        unique_id: "abc".to_string(),
        accessory_name: "Lamp".to_string(),
        accessory_information: Json::Null,
        service_characteristics: vec![power],
        instance: HomebridgeInstance { name: "Bridge".to_string(), username: String::new() },
    }
}

fn lamp_settings() -> SwitchSettings {
    let mut s = SwitchSettings::default();
    s.accessory_id = "abc".to_string();
    s.characteristic_type = "On".to_string();
    s
}

#[test]
fn reads_common_boolean_representations() {
    assert!(boolean_state(&Json::Bool(true)).unwrap());
    assert!(!boolean_state(&Json::Number(JsonNumber::PosInt(0))).unwrap());
    assert!(boolean_state(&text("on")).unwrap());
    assert!(boolean_state(&Json::Number(JsonNumber::PosInt(2))).is_err());
}

#[test]
fn title_contains_current_state() {
    assert_eq!(state_title("Desk Lamp", true, "nameAndState"), "Desk Lamp\nOn");
    assert_eq!(state_title("Desk Lamp", false, "stateOnly"), "Off");
    assert_eq!(state_title("Desk Lamp", true, "hidden"), "");
}

#[test]
fn name_only_title_and_yes_no_words() {
    assert_eq!(state_title("Desk Lamp", true, "nameOnly"), "Desk Lamp");
    assert!(boolean_state(&text("  YES ")).unwrap());
    assert!(!boolean_state(&text("no")).unwrap());
    assert!(read_boolean(&text("yes")).is_err());
    assert_eq!(read_boolean(&text("maybe")).unwrap_err(), "power value is not Boolean");
    assert!(!read_boolean(&Json::Number(JsonNumber::Float(0))).unwrap());
    assert!(read_boolean(&Json::Number(JsonNumber::Float(1.0f64.to_bits()))).unwrap());
    assert_eq!(boolean_state(&Json::Null).unwrap_err(), "characteristic value is not Boolean");
}

#[test]
fn selection_errors_name_the_failed_check() {
    let service = lamp(false);
    let mut settings = lamp_settings();
    settings.characteristic_type = "Brightness".to_string();
    match selected_switch_characteristic(&service, &settings) {
        Err(SwitchSelectionError::CharacteristicUnavailable(detail)) => {
            assert_eq!(
                detail,
                "service_id='abc', characteristic_uuid='', characteristic_type='Brightness', available=[On]"
            );
        }
        _ => panic!("expected an unavailable selection"),
    }
    let mut read_only = lamp(false);
    read_only.service_characteristics[0].can_write = false;
    assert!(matches!(
        selected_switch_characteristic(&read_only, &lamp_settings()),
        Err(SwitchSelectionError::ReadOnly)
    ));
    let mut unreadable = lamp(false);
    unreadable.service_characteristics[0].can_read = false;
    assert!(matches!(
        selected_switch_characteristic(&unreadable, &lamp_settings()),
        Err(SwitchSelectionError::CannotRead)
    ));
    let mut numeric = lamp(false);
    numeric.service_characteristics[0].format = "int".to_string();
    numeric.service_characteristics[0].value = Json::Number(JsonNumber::PosInt(3));
    assert!(matches!(
        selected_switch_characteristic(&numeric, &lamp_settings()),
        Err(SwitchSelectionError::NotBoolean)
    ));
    assert_eq!(SwitchSelectionError::ReadOnly.message(), "selected characteristic is read-only");
}

#[test]
fn toggle_writes_the_inverse_and_confirms_it() {
    let settings = lamp_settings();
    let (state, action) = toggle_begin(&settings);
    assert!(matches!(action, ToggleAction::ReadService));
    let (state, action) = toggle_step(&settings, state, ToggleEvent::Read(Ok(lamp(false))));
    match action {
        ToggleAction::Write { characteristic_type, on } => {
            assert_eq!(characteristic_type, "On");
            assert!(on);
        }
        _ => panic!("expected a write"),
    }
    let (state, action) = toggle_step(&settings, state, ToggleEvent::Wrote(Ok(())));
    assert!(matches!(action, ToggleAction::ReadService));
    let (state, action) = toggle_step(&settings, state, ToggleEvent::Read(Ok(lamp(true))));
    assert!(matches!(state, ToggleState::Finished));
    match action {
        ToggleAction::Succeed(display) => {
            assert!(display.is_on);
            assert_eq!(display.title, "Lamp\nOn");
        }
        _ => panic!("expected success"),
    }
}

#[test]
fn toggle_retries_confirmation_then_fails() {
    let settings = lamp_settings();
    let (state, _) = toggle_begin(&settings);
    let (state, _) = toggle_step(&settings, state, ToggleEvent::Read(Ok(lamp(true))));
    let (mut state, _) = toggle_step(&settings, state, ToggleEvent::Wrote(Ok(())));
    let mut delays = Vec::new();
    loop {
        let (next, action) = toggle_step(&settings, state, ToggleEvent::Read(Ok(lamp(true))));
        state = next;
        match action {
            ToggleAction::WaitThenRead { delay_ms } => delays.push(delay_ms),
            ToggleAction::Fail(SwitchFailure::Other(message)) => {
                assert_eq!(
                    message,
                    "Homebridge accepted the write but the confirmed state remained On instead of Off"
                );
                break;
            }
            _ => panic!("unexpected action"),
        }
    }
    assert_eq!(delays, vec![250, 750]);
}

#[test]
fn unconfigured_toggle_and_failed_reads() {
    let settings = SwitchSettings::default();
    let (state, action) = toggle_begin(&settings);
    assert!(matches!(state, ToggleState::Finished));
    assert!(matches!(action, ToggleAction::NotConfigured));
    let settings = lamp_settings();
    let (state, _) = toggle_begin(&settings);
    let (_, action) = toggle_step(&settings, state, ToggleEvent::Read(Err("could not connect".to_string())));
    match action {
        ToggleAction::Fail(f) => assert_eq!(f.message(), "could not connect"),
        _ => panic!("expected failure"),
    }
}

#[test]
fn switch_errors_are_reported_by_kind() {
    let selection = SwitchFailure::Selection(SwitchSelectionError::NotBoolean);
    let r = switch_error_report(&selection, false, false, true);
    assert!(r.mark_invalid);
    assert!(!r.log);
    assert_eq!(r.title.unwrap(), "Not\nConfigured");

    let offline = SwitchFailure::Other("could not connect to http://x/api".to_string());
    let r = switch_error_report(&offline, true, true, true);
    assert!(r.connection_lost && r.log);
    assert_eq!(r.title.unwrap(), "Offline");
    let r = switch_error_report(&offline, false, false, true);
    assert!(r.title.is_none());
    let r = switch_error_report(&offline, false, false, false);
    assert_eq!(r.title.unwrap(), "Connecting…");

    let other = SwitchFailure::Other("Homebridge returned HTTP 500".to_string());
    let r = switch_error_report(&other, true, false, true);
    assert!(!r.connection_lost && !r.mark_invalid);
    assert_eq!(r.title.unwrap(), "Homebridge\nerror");
}
