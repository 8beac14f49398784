use openhome::actions::adjust::{adjust_error_key, adjust_failure_report, adjust_target, AdjustFailure};
use openhome::actions::brightness::{
    brightness_confirmation, brightness_error_key, brightness_error_report, BrightnessConfirmation, brightness_title, power_switch_to_turn_on,
    selected_brightness_characteristic,
};
use openhome::actions::common::{
    appearance, catalog_loading_message, catalog_status, device_count_title, display_title,
    handles_event, looks_like_connection_error, Appearance,
};
use openhome::actions::set_state::{set_state_idle_title, set_state_ready, set_state_write};
use openhome::address::write_body;
use openhome::json::{Json, JsonNumber};
use openhome::models::{
    AccessoryService, AuthenticationStatus, Catalog, Characteristic, HomebridgeInstance, Selection,
    SetStateSettings,
};

fn characteristic(kind: &str, value: Json, format: &str) -> Characteristic {
    let mut c = Characteristic::default();
    c.characteristic_type = kind.to_string();
    c.value = value;
    c.format = format.to_string();
    c.can_read = true;
    c.can_write = true;
    c
}

fn bulb(characteristics: Vec<Characteristic>) -> AccessoryService {
    AccessoryService {
        aid: None,
        iid: None,
        uuid: String::new(),
        raw_type: String::new(),
        human_type: String::new(),
        service_name: "Bulb".to_string(),
        service_type: "Lightbulb".to_string(),
        unique_id: "b1".to_string(),
        accessory_name: "Bulb".to_string(),
        accessory_information: Json::Null,
        service_characteristics: characteristics,
        instance: HomebridgeInstance { name: "Bridge".to_string(), username: String::new() },
    }
}

fn number(n: u64) -> Json {
    Json::Number(JsonNumber::PosInt(n))
}

#[test]
fn titles_fall_back_to_the_service_name() {
    assert_eq!(display_title("  Desk  ", "Lamp"), "Desk");
    assert_eq!(display_title(" ", " Lamp "), "Lamp");
    assert_eq!(display_title("", "  "), "Homebridge");
    assert_eq!(device_count_title(1), "1\ndevice");
    assert_eq!(device_count_title(12), "12\ndevices");
    assert_eq!(catalog_loading_message(true), "Refreshing devices from Homebridge…");
    assert_eq!(catalog_loading_message(false), "Loading Homebridge devices…");
}

#[test]
fn connection_errors_are_recognised() {
    assert!(looks_like_connection_error("could not connect to http://hb"));
    assert!(looks_like_connection_error("Operation TIMED OUT"));
    assert!(!looks_like_connection_error("Homebridge returned HTTP 500"));
    assert!(handles_event("testConnection", &["refreshCatalog", "testConnection"]));
    assert!(!handles_event("toggleSwitch", &["refreshCatalog", "testConnection"]));
}

#[test]
fn appearance_follows_the_connection() {
    assert!(matches!(appearance(false, true, true, true), Appearance::NotConfigured));
    assert!(matches!(appearance(true, false, false, false), Appearance::Connecting));
    assert!(matches!(appearance(true, true, false, true), Appearance::KeepLastState));
    assert!(matches!(appearance(true, true, true, true), Appearance::Refresh));
}

#[test]
fn catalog_status_reports_freshness() {
    let mut c = Catalog {
        authentication: String::new(),
        authentication_status: AuthenticationStatus {
            method: String::new(),
            authenticated_at_epoch_ms: 0,
            expires_at_epoch_ms: 0,
            refresh_at_epoch_ms: 0,
            remaining_seconds: 0,
        },
        device_count: 0,
        service_count: 0,
        rooms: Vec::new(),
        services: Vec::new(),
        refreshed_at_epoch_ms: 0,
        cache_age_seconds: 42,
        cached: false,
        stale: false,
        warning: None,
    };
    let (level, message) = catalog_status(&c);
    assert_eq!(level, "connected");
    assert_eq!(message, "Connected to Homebridge · live catalogue refreshed");
    c.cached = true;
    assert_eq!(catalog_status(&c).1, "Connected to Homebridge · cached catalogue (42 seconds old)");
    c.stale = true;
    c.warning = Some("Live refresh failed: timed out".to_string());
    let (level, message) = catalog_status(&c);
    assert_eq!(level, "warning");
    assert_eq!(message, "Live refresh failed: timed out");
}

#[test]
fn set_state_plans_the_configured_write() {
    let mut settings = SetStateSettings::default();
    assert!(!set_state_ready(&settings));
    assert_eq!(set_state_idle_title(&settings), "Select\nstate");
    settings.accessory_id = "b1".to_string();
    settings.characteristic_type = "brightness".to_string();
    assert!(!set_state_ready(&settings));
    settings.target_value = number(30);
    assert!(set_state_ready(&settings));
    assert_eq!(set_state_idle_title(&settings), "Set state");

    let service = bulb(vec![characteristic("Brightness", number(10), "int")]);
    let write = set_state_write(&service, &settings).unwrap();
    assert_eq!(write.characteristic_type, "Brightness");
    assert!(matches!(write.value, Json::Number(JsonNumber::PosInt(30))));
    assert_eq!(write.title, "Bulb");

    let mut locked = bulb(vec![characteristic("Brightness", number(10), "int")]);
    locked.service_characteristics[0].can_write = false;
    assert_eq!(set_state_write(&locked, &settings).unwrap_err(), "selected characteristic is read-only");
    settings.characteristic_type = "Hue".to_string();
    assert_eq!(
        set_state_write(&service, &settings).unwrap_err(),
        "selected characteristic is no longer available; service_id='b1', characteristic_uuid='', characteristic_type='Hue', available=[Brightness]"
    );
}

#[test]
fn adjust_checks_the_selected_characteristic() {
    let service = bulb(vec![
        characteristic("On", Json::Bool(true), "bool"),
        characteristic("Brightness", number(10), "int"),
    ]);
    let selection = Selection::new("b1", "Brightness", "");
    assert_eq!(adjust_target(&service, &selection).unwrap().characteristic_type, "Brightness");
    let on = Selection::new("b1", "on", "");
    assert_eq!(adjust_target(&service, &on).unwrap_err(), "selected characteristic is not numeric");
    let gone = Selection::new("b1", "Hue", "");
    assert!(adjust_target(&service, &gone).unwrap_err().contains("no longer available"));
    assert_eq!(adjust_error_key("ctx"), "adjust:ctx");
}

#[test]
fn adjust_failures_keep_the_last_state_in_the_background() {
    let r = adjust_failure_report("could not connect to http://hb", false, true);
    assert!(r.connection_lost);
    assert!(matches!(r.outcome, AdjustFailure::Quiet { connecting: false }));
    let r = adjust_failure_report("could not connect to http://hb", false, false);
    assert!(matches!(r.outcome, AdjustFailure::Quiet { connecting: true }));
    let r = adjust_failure_report("could not connect to http://hb", true, true);
    match r.outcome {
        AdjustFailure::Shown { title, alert } => {
            assert_eq!(title, "Offline");
            assert!(alert);
        }
        _ => panic!("expected a shown failure"),
    }
    let r = adjust_failure_report("Homebridge returned HTTP 500", false, true);
    assert!(!r.connection_lost);
    match r.outcome {
        AdjustFailure::Shown { title, alert } => {
            assert_eq!(title, "Homebridge\nerror");
            assert!(!alert);
        }
        _ => panic!("expected a shown failure"),
    }
}

#[test]
fn brightness_falls_back_to_the_brightness_characteristic() {
    let service = bulb(vec![
        characteristic("On", Json::Bool(false), "bool"),
        characteristic("Brightness", number(10), "int"),
    ]);
    let stale = Selection::new("b1", "Lightness", "uuid-gone");
    assert_eq!(
        selected_brightness_characteristic(&service, &stale).unwrap().characteristic_type,
        "Brightness"
    );
    let power = Selection::new("b1", "On", "");
    assert_eq!(
        selected_brightness_characteristic(&service, &power).unwrap_err(),
        "selected characteristic is not a writable Brightness value"
    );
    let empty = bulb(vec![characteristic("On", Json::Bool(false), "bool")]);
    assert!(selected_brightness_characteristic(&empty, &stale)
        .unwrap_err()
        .starts_with("selected brightness characteristic is no longer available; "));
    assert_eq!(power_switch_to_turn_on(&service).unwrap(), "On");
    let lit = bulb(vec![characteristic("on", Json::String("ON".to_string()), "bool")]);
    assert!(power_switch_to_turn_on(&lit).is_none());
    let unknown = bulb(vec![characteristic("On", Json::Null, "bool")]);
    assert_eq!(power_switch_to_turn_on(&unknown).unwrap(), "On");
}

#[test]
fn brightness_titles_and_reports() {
    assert_eq!(brightness_title("nameAndValue", "Bulb", "40%"), "Bulb\n40%");
    assert_eq!(brightness_title("valueOnly", "Bulb", "40%"), "40%");
    assert_eq!(brightness_title("nameOnly", "Bulb", "40%"), "Bulb");
    assert_eq!(brightness_title("hidden", "Bulb", "40%"), "");
    assert_eq!(brightness_error_key("ctx"), "brightness:ctx");
    let r = brightness_error_report("brightness action is not configured", false, false, true);
    assert!(r.mark_invalid && !r.log && !r.connection_lost);
    assert_eq!(r.title.unwrap(), "Not\nConfigured");
    let r = brightness_error_report("could not connect to http://hb", true, true, true);
    assert!(!r.mark_invalid && r.log && r.connection_lost);
    assert_eq!(r.title.unwrap(), "Offline");
    let r = brightness_error_report("current brightness value is not numeric", false, false, true);
    assert!(!r.connection_lost);
    assert_eq!(r.title.unwrap(), "Offline");
}

#[test]
fn background_brightness_outage_keeps_the_last_title() {
    let r = brightness_error_report("could not connect to http://hb", false, false, true);
    assert!(r.connection_lost && !r.mark_invalid);
    assert!(r.title.is_none());
    let r = brightness_error_report("operation timed out", false, false, false);
    assert!(r.connection_lost);
    assert_eq!(r.title.unwrap(), "Connecting…");
}

#[test]
fn write_bodies_name_type_and_value() {
    match write_body("On", Json::Bool(true)) {
        Json::Object(members) => {
            assert_eq!(members.len(), 2);
            assert_eq!(members[0].0, "characteristicType");
            assert!(matches!(&members[0].1, Json::String(s) if s == "On"));
            assert_eq!(members[1].0, "value");
            assert!(matches!(members[1].1, Json::Bool(true)));
        }
        _ => panic!("expected an object"),
    }
}

#[test]
fn brightness_confirmation_reads_four_times() {
    assert!(matches!(brightness_confirmation(1, true), BrightnessConfirmation::Confirmed));
    let delays: Vec<u64> = (1..=3)
        .map(|reads| match brightness_confirmation(reads, false) {
            BrightnessConfirmation::WaitThenRead { delay_ms } => delay_ms,
            _ => panic!("expected another read"),
        })
        .collect();
    assert_eq!(delays, vec![200, 500, 1000]);
    assert!(matches!(brightness_confirmation(4, false), BrightnessConfirmation::Unconfirmed));
    assert!(matches!(brightness_confirmation(4, true), BrightnessConfirmation::Confirmed));
}
