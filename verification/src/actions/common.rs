//! Decisions shared by the actions.
use vstd::prelude::*;
use crate::models::{Catalog, CatalogView};
use crate::text::{
    blank, contains, contains_str, concat, decimal, decimal_string, is_blank, lower, owned,
    to_lower, trim, trimmed, same_text,
};

verus! {

/// The button title: the configured name, else the fallback, trimmed; or
/// `Homebridge` when both are blank.
pub open spec fn title_for(configured_name: Seq<char>, fallback: Seq<char>) -> Seq<char> {
    let v = if blank(configured_name) {
        trimmed(fallback)
    } else {
        trimmed(configured_name)
    };
    if v.len() == 0 {
        "Homebridge"@
    } else {
        v
    }
}

/// The title for a button: the configured name, else the fallback.
pub fn display_title(configured_name: &str, fallback: &str) -> (r: String)
    ensures
        r@ == title_for(configured_name@, fallback@),
{
    let value = if is_blank(configured_name) {
        trim(fallback)
    } else {
        trim(configured_name)
    };
    if value.as_str().is_empty() {
        owned("Homebridge")
    } else {
        value
    }
}

/// An error message that reports an unreachable Homebridge rather than a
/// refused request.
pub open spec fn connection_failure(message: Seq<char>) -> bool {
    let l = lower(message);
    contains(l, "could not connect"@) || contains(l, "error sending request"@) || contains(
        l,
        "timed out"@,
    ) || contains(l, "connection"@)
}

/// Whether `message` reports that Homebridge could not be reached.
pub fn looks_like_connection_error(message: &str) -> (r: bool)
    ensures
        r == connection_failure(message@),
{
    let l = to_lower(message);
    contains_str(l.as_str(), "could not connect") || contains_str(l.as_str(), "error sending request")
        || contains_str(l.as_str(), "timed out") || contains_str(l.as_str(), "connection")
}

/// The status line shown with a catalogue.
pub open spec fn catalog_message(c: CatalogView) -> Seq<char> {
    if c.stale {
        match c.warning {
            Some(w) => w,
            None => "Showing stale cached device data"@,
        }
    } else if c.cached {
        "Connected to Homebridge · cached catalogue ("@ + decimal(c.cache_age_seconds as nat)
            + " seconds old)"@
    } else {
        "Connected to Homebridge · live catalogue refreshed"@
    }
}

/// The status level shown with a catalogue message.
pub open spec fn catalog_level(message: Seq<char>) -> Seq<char> {
    if contains(message, "stale"@) || contains(message, "failed"@) {
        "warning"@
    } else {
        "connected"@
    }
}

/// The status level and line that accompany a catalogue sent to the
/// property inspector.
pub fn catalog_status(catalog: &Catalog) -> (r: (String, String))
    ensures
        r.1@ == catalog_message(catalog@),
        r.0@ == catalog_level(r.1@),
{
    let message = if catalog.stale {
        match &catalog.warning {
            Some(w) => w.clone(),
            None => owned("Showing stale cached device data"),
        }
    } else if catalog.cached {
        let age = decimal_string(catalog.cache_age_seconds);
        let head = concat("Connected to Homebridge · cached catalogue (", age.as_str());
        concat(head.as_str(), " seconds old)")
    } else {
        owned("Connected to Homebridge · live catalogue refreshed")
    };
    let level = if contains_str(message.as_str(), "stale") || contains_str(message.as_str(), "failed") {
        owned("warning")
    } else {
        owned("connected")
    };
    (level, message)
}

/// The status line shown while a catalogue is loaded.
pub fn catalog_loading_message(force_refresh: bool) -> (r: String)
    ensures
        r@ == if force_refresh {
            "Refreshing devices from Homebridge…"@
        } else {
            "Loading Homebridge devices…"@
        },
{
    if force_refresh {
        owned("Refreshing devices from Homebridge…")
    } else {
        owned("Loading Homebridge devices…")
    }
}

/// Whether a property-inspector event is one that `accepted` lists.
pub fn handles_event(event: &str, accepted: &[&str]) -> (r: bool)
    ensures
        r == exists|i: int| 0 <= i < accepted@.len() && accepted@[i]@ == event@,
{
    let mut i: usize = 0;
    while i < accepted.len()
        invariant
            i <= accepted@.len(),
            forall|j: int| 0 <= j < i ==> accepted@[j]@ != event@,
        decreases accepted.len() - i,
    {
        if same_text(accepted[i], event) {
            return true;
        }
        i = i + 1;
    }
    false
}

/// The title of the Devices action for `count` devices.
pub fn device_count_title(count: usize) -> (r: String)
    ensures
        r@ == if count == 1 {
            "1\ndevice"@
        } else {
            decimal(count as nat) + "\ndevices"@
        },
{
    if count == 1 {
        owned("1\ndevice")
    } else {
        let n = decimal_string(count as u64);
        concat(n.as_str(), "\ndevices")
    }
}

/// What a stateful action shows when it appears or its settings change.
#[derive(Debug)]
pub enum Appearance {
    /// The selection is incomplete: show that it is not configured.
    NotConfigured,
    /// Homebridge has not been reached yet: show that it is connecting.
    Connecting,
    /// Homebridge is offline after having been reached: keep the last state.
    KeepLastState,
    /// Read the selected characteristic and show it.
    Refresh,
}

/// The appearance of a stateful action from whether it is configured,
/// whether settings are loaded, whether Homebridge is online, and whether it
/// has ever been reached.
pub open spec fn appearance_for(configured: bool, loaded: bool, online: bool, connected_once: bool) -> Appearance {
    if !configured {
        Appearance::NotConfigured
    } else if !loaded || !online {
        if !connected_once {
            Appearance::Connecting
        } else {
            Appearance::KeepLastState
        }
    } else {
        Appearance::Refresh
    }
}

/// Decides what a stateful action shows when it appears.
pub fn appearance(configured: bool, loaded: bool, online: bool, connected_once: bool) -> (r: Appearance)
    ensures
        r == appearance_for(configured, loaded, online, connected_once),
{
    if !configured {
        Appearance::NotConfigured
    } else if !loaded || !online {
        if !connected_once {
            Appearance::Connecting
        } else {
            Appearance::KeepLastState
        }
    } else {
        Appearance::Refresh
    }
}

} // verus!
