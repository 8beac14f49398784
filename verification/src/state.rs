//! The plugin's shared state: global settings, the settings of every
//! visible action instance, the instances whose selection is invalid, the
//! last error logged per key, and the connection status.
use vstd::prelude::*;
use crate::models::{
    GlobalSettings, GlobalSettingsView, SelectedCharacteristic, Selection, SwitchSettings,
    SwitchSettingsView, configured,
};
use crate::registry::StringMap;
use crate::session::HomebridgeClient;
use crate::text::same_text;

verus! {

/// What changing the global settings does to the caches: new address or
/// credentials drop tokens and catalogues, a new cache lifetime drops the
/// catalogues only.
#[derive(Debug)]
pub enum CacheReset {
    Everything,
    Catalogs,
    Nothing,
}

/// The cache reset that replacing `old` by `new` calls for.
pub open spec fn cache_reset_for(old: GlobalSettingsView, new: GlobalSettingsView) -> CacheReset {
    if old.homebridge_url != new.homebridge_url || old.username != new.username || old.password
        != new.password {
        CacheReset::Everything
    } else if old.catalog_cache_seconds != new.catalog_cache_seconds {
        CacheReset::Catalogs
    } else {
        CacheReset::Nothing
    }
}

/// Whether an error should be logged: not when `message` is already the
/// last one logged under `key`.
pub open spec fn error_is_new(errors: Map<Seq<char>, Seq<char>>, key: Seq<char>, message: Seq<char>) -> bool {
    !(errors.contains_key(key) && errors[key] == message)
}

/// The shared plugin state. `A` and `B` are the settings of Adjust State and
/// Brightness actions.
#[derive(Debug)]
pub struct PluginState<A, B> {
    pub client: HomebridgeClient,
    global_settings: GlobalSettings,
    settings_loaded: bool,
    online: bool,
    connected_once: bool,
    switch_settings: StringMap<SwitchSettings>,
    adjust_settings: StringMap<(Selection, A)>,
    brightness_settings: StringMap<(Selection, B)>,
    last_errors: StringMap<String>,
    invalid_switches: StringMap<()>,
    invalid_brightness: StringMap<()>,
}

impl<A, B> PluginState<A, B> {
    /// The Homebridge session caches.
    pub closed spec fn session(&self) -> HomebridgeClient {
        self.client
    }

    /// The global settings.
    pub closed spec fn global(&self) -> GlobalSettingsView {
        self.global_settings@
    }

    /// Whether global settings have been received.
    pub closed spec fn loaded(&self) -> bool {
        self.settings_loaded
    }

    /// Whether Homebridge is currently reachable.
    pub closed spec fn is_online(&self) -> bool {
        self.online
    }

    /// Whether Homebridge has been reached since the plugin started.
    pub closed spec fn was_ever_online(&self) -> bool {
        self.connected_once
    }

    /// The Switch settings per instance.
    pub closed spec fn switches(&self) -> Map<Seq<char>, SwitchSettingsView> {
        self.switch_settings.view().map_values(|s: SwitchSettings| s@)
    }

    /// The selection and the settings of each Adjust State instance.
    pub closed spec fn adjusts(&self) -> Map<Seq<char>, (Selection, A)> {
        self.adjust_settings.view()
    }

    /// The selection and the settings of each Brightness instance.
    pub closed spec fn brightnesses(&self) -> Map<Seq<char>, (Selection, B)> {
        self.brightness_settings.view()
    }

    /// The last error message logged per key.
    pub closed spec fn errors(&self) -> Map<Seq<char>, Seq<char>> {
        self.last_errors.view().map_values(|s: String| s@)
    }

    /// The Switch instances whose selection is invalid.
    pub closed spec fn invalid_switch_ids(&self) -> Set<Seq<char>> {
        self.invalid_switches.view().dom()
    }

    /// The Brightness instances whose selection is invalid.
    pub closed spec fn invalid_brightness_ids(&self) -> Set<Seq<char>> {
        self.invalid_brightness.view().dom()
    }

    /// A state with default global settings, nothing registered and no
    /// connection yet.
    pub fn new() -> (s: Self)
        ensures
            s.global().homebridge_url == "http://homebridge.local:8581"@,
            s.global().update_interval == 5,
            s.global().catalog_cache_seconds == 60,
            s.global().username.len() == 0,
            s.global().password.len() == 0,
            !s.loaded(),
            !s.is_online(),
            !s.was_ever_online(),
            s.switches() == Map::<Seq<char>, SwitchSettingsView>::empty(),
            s.adjusts() == Map::<Seq<char>, (Selection, A)>::empty(),
            s.brightnesses() == Map::<Seq<char>, (Selection, B)>::empty(),
            s.errors() == Map::<Seq<char>, Seq<char>>::empty(),
            s.invalid_switch_ids() == Set::<Seq<char>>::empty(),
            s.invalid_brightness_ids() == Set::<Seq<char>>::empty(),
            s.session().tokens().is_empty(),
            s.session().catalogs().is_empty(),
    {
        let s = PluginState {
            client: HomebridgeClient::new(),
            global_settings: GlobalSettings::default(),
            settings_loaded: false,
            online: false,
            connected_once: false,
            switch_settings: StringMap::new(),
            adjust_settings: StringMap::new(),
            brightness_settings: StringMap::new(),
            last_errors: StringMap::new(),
            invalid_switches: StringMap::new(),
            invalid_brightness: StringMap::new(),
        };
        assert(s.switches() =~= Map::<Seq<char>, SwitchSettingsView>::empty());
        assert(s.errors() =~= Map::<Seq<char>, Seq<char>>::empty());
        assert(s.invalid_switch_ids() =~= Set::<Seq<char>>::empty());
        assert(s.invalid_brightness_ids() =~= Set::<Seq<char>>::empty());
        s
    }

    /// A copy of the global settings.
    pub fn global_settings(&self) -> (g: GlobalSettings)
        ensures
            g@ == self.global(),
    {
        self.global_settings.duplicate()
    }

    /// Replaces the global settings, dropping the caches they invalidate,
    /// and records that settings have been received.
    pub fn update_global_settings(&mut self, settings: GlobalSettings) -> (reset: CacheReset)
        ensures
            reset == cache_reset_for(old(self).global(), settings@),
            final(self).global() == settings@,
            final(self).loaded(),
            match reset {
                CacheReset::Everything => final(self).session().tokens().is_empty()
                    && final(self).session().catalogs().is_empty(),
                CacheReset::Catalogs => final(self).session().tokens() == old(self).session().tokens()
                    && final(self).session().catalogs().is_empty(),
                CacheReset::Nothing => final(self).session().tokens() == old(self).session().tokens()
                    && final(self).session().catalogs() == old(self).session().catalogs(),
            },
            final(self).switches() == old(self).switches(),
            final(self).adjusts() == old(self).adjusts(),
            final(self).brightnesses() == old(self).brightnesses(),
            final(self).errors() == old(self).errors(),
            final(self).invalid_switch_ids() == old(self).invalid_switch_ids(),
            final(self).invalid_brightness_ids() == old(self).invalid_brightness_ids(),
            final(self).is_online() == old(self).is_online(),
            final(self).was_ever_online() == old(self).was_ever_online(),
    {
        let previous = &self.global_settings;
        let reset = if !same_text(previous.homebridge_url.as_str(), settings.homebridge_url.as_str())
            || !same_text(previous.username.as_str(), settings.username.as_str()) || !same_text(
            previous.password.as_str(),
            settings.password.as_str(),
        ) {
            CacheReset::Everything
        } else if previous.catalog_cache_seconds != settings.catalog_cache_seconds {
            CacheReset::Catalogs
        } else {
            CacheReset::Nothing
        };
        match reset {
            CacheReset::Everything => self.client.clear_all_caches(),
            CacheReset::Catalogs => self.client.clear_catalogs(),
            CacheReset::Nothing => {},
        }
        self.global_settings = settings;
        self.settings_loaded = true;
        reset
    }

    /// Whether global settings have been received.
    pub fn global_settings_loaded(&self) -> (r: bool)
        ensures
            r == self.loaded(),
    {
        self.settings_loaded
    }

    /// Whether Homebridge is currently reachable.
    pub fn connection_online(&self) -> (r: bool)
        ensures
            r == self.is_online(),
    {
        self.online
    }

    /// Whether Homebridge has been reached since the plugin started.
    pub fn has_connected_once(&self) -> (r: bool)
        ensures
            r == self.was_ever_online(),
    {
        self.connected_once
    }

    /// Records that Homebridge answered; returns whether it was offline.
    pub fn mark_connection_online(&mut self) -> (reconnected: bool)
        ensures
            reconnected == !old(self).is_online(),
            final(self).is_online(),
            final(self).was_ever_online(),
            final(self).loaded() == old(self).loaded(),
            final(self).global() == old(self).global(),
            final(self).switches() == old(self).switches(),
            final(self).errors() == old(self).errors(),
            final(self).invalid_switch_ids() == old(self).invalid_switch_ids(),
            final(self).invalid_brightness_ids() == old(self).invalid_brightness_ids(),
    {
        let was_online = self.online;
        self.online = true;
        self.connected_once = true;
        !was_online
    }

    /// Records that Homebridge is unreachable; returns whether it was online.
    pub fn mark_connection_offline(&mut self) -> (was_online: bool)
        ensures
            was_online == old(self).is_online(),
            !final(self).is_online(),
            final(self).was_ever_online() == old(self).was_ever_online(),
            final(self).loaded() == old(self).loaded(),
            final(self).global() == old(self).global(),
            final(self).switches() == old(self).switches(),
            final(self).errors() == old(self).errors(),
            final(self).invalid_switch_ids() == old(self).invalid_switch_ids(),
            final(self).invalid_brightness_ids() == old(self).invalid_brightness_ids(),
    {
        let was_online = self.online;
        self.online = false;
        was_online
    }

    /// Registers the settings of a visible Switch; its selection is
    /// considered valid again.
    pub fn remember_switch(&mut self, instance_id: String, settings: SwitchSettings)
        ensures
            final(self).switches() == old(self).switches().insert(instance_id@, settings@),
            final(self).invalid_switch_ids() == old(self).invalid_switch_ids().remove(instance_id@),
            final(self).errors() == old(self).errors(),
            final(self).global() == old(self).global(),
            final(self).invalid_brightness_ids() == old(self).invalid_brightness_ids(),
    {
        self.invalid_switches.remove(instance_id.as_str());
        let ghost s = settings@;
        self.switch_settings.insert(instance_id, settings);
        assert(self.switches() =~= old(self).switches().insert(instance_id@, s));
        assert(self.invalid_switch_ids() =~= old(self).invalid_switch_ids().remove(instance_id@));
    }

    /// Forgets a Switch that disappeared.
    pub fn forget_switch(&mut self, instance_id: &str)
        ensures
            final(self).switches() == old(self).switches().remove(instance_id@),
            final(self).invalid_switch_ids() == old(self).invalid_switch_ids().remove(instance_id@),
            final(self).errors() == old(self).errors(),
            final(self).global() == old(self).global(),
    {
        self.switch_settings.remove(instance_id);
        self.invalid_switches.remove(instance_id);
        assert(self.switches() =~= old(self).switches().remove(instance_id@));
        assert(self.invalid_switch_ids() =~= old(self).invalid_switch_ids().remove(instance_id@));
    }

    /// The settings of a Switch instance.
    pub fn switch_settings(&self, instance_id: &str) -> (r: Option<SwitchSettings>)
        ensures
            match r {
                Some(s) => self.switches().contains_key(instance_id@) && s@ == self.switches()[instance_id@],
                None => !self.switches().contains_key(instance_id@),
            },
    {
        match self.switch_settings.get(instance_id) {
            Some(s) => Some(s.duplicate()),
            None => None,
        }
    }

    /// Marks a Switch's selection invalid: it is not polled until its
    /// settings change.
    pub fn mark_switch_invalid(&mut self, instance_id: &str)
        ensures
            final(self).invalid_switch_ids() == old(self).invalid_switch_ids().insert(instance_id@),
            final(self).switches() == old(self).switches(),
            final(self).errors() == old(self).errors(),
            final(self).global() == old(self).global(),
    {
        self.invalid_switches.insert(crate::text::owned(instance_id), ());
        assert(self.invalid_switch_ids() =~= old(self).invalid_switch_ids().insert(instance_id@));
    }

    /// Marks a Switch's selection valid again.
    pub fn clear_switch_invalid(&mut self, instance_id: &str)
        ensures
            final(self).invalid_switch_ids() == old(self).invalid_switch_ids().remove(instance_id@),
            final(self).switches() == old(self).switches(),
            final(self).errors() == old(self).errors(),
            final(self).global() == old(self).global(),
    {
        self.invalid_switches.remove(instance_id);
        assert(self.invalid_switch_ids() =~= old(self).invalid_switch_ids().remove(instance_id@));
    }

    /// Whether a Switch instance is polled.
    pub fn switch_polling_enabled(&self, instance_id: &str) -> (r: bool)
        ensures
            r == !self.invalid_switch_ids().contains(instance_id@),
    {
        !self.invalid_switches.contains_key(instance_id)
    }

    /// Registers the selection and settings of a visible Brightness action;
    /// its selection is considered valid again.
    pub fn remember_brightness(&mut self, instance_id: String, selection: Selection, settings: B)
        ensures
            final(self).brightnesses() == old(self).brightnesses().insert(instance_id@, (selection, settings)),
            final(self).invalid_brightness_ids() == old(self).invalid_brightness_ids().remove(
                instance_id@,
            ),
            final(self).errors() == old(self).errors(),
            final(self).global() == old(self).global(),
            final(self).switches() == old(self).switches(),
    {
        self.invalid_brightness.remove(instance_id.as_str());
        self.brightness_settings.insert(instance_id, (selection, settings));
        assert(self.invalid_brightness_ids() =~= old(self).invalid_brightness_ids().remove(instance_id@));
    }

    /// Forgets a Brightness action that disappeared.
    pub fn forget_brightness(&mut self, instance_id: &str)
        ensures
            final(self).brightnesses() == old(self).brightnesses().remove(instance_id@),
            final(self).invalid_brightness_ids() == old(self).invalid_brightness_ids().remove(
                instance_id@,
            ),
            final(self).errors() == old(self).errors(),
            final(self).global() == old(self).global(),
            final(self).switches() == old(self).switches(),
    {
        self.brightness_settings.remove(instance_id);
        self.invalid_brightness.remove(instance_id);
        assert(self.invalid_brightness_ids() =~= old(self).invalid_brightness_ids().remove(instance_id@));
    }

    /// The settings of a Brightness instance.
    pub fn brightness_settings(&self, instance_id: &str) -> (r: Option<&B>)
        ensures
            match r {
                Some(s) => self.brightnesses().contains_key(instance_id@) && *s == self.brightnesses()[instance_id@].1,
                None => !self.brightnesses().contains_key(instance_id@),
            },
    {
        match self.brightness_settings.get(instance_id) {
            Some(entry) => Some(&entry.1),
            None => None,
        }
    }

    /// Marks a Brightness action's selection invalid.
    pub fn mark_brightness_invalid(&mut self, instance_id: &str)
        ensures
            final(self).invalid_brightness_ids() == old(self).invalid_brightness_ids().insert(
                instance_id@,
            ),
            final(self).brightnesses() == old(self).brightnesses(),
            final(self).errors() == old(self).errors(),
            final(self).global() == old(self).global(),
    {
        self.invalid_brightness.insert(crate::text::owned(instance_id), ());
        assert(self.invalid_brightness_ids() =~= old(self).invalid_brightness_ids().insert(instance_id@));
    }

    /// Marks a Brightness action's selection valid again.
    pub fn clear_brightness_invalid(&mut self, instance_id: &str)
        ensures
            final(self).invalid_brightness_ids() == old(self).invalid_brightness_ids().remove(
                instance_id@,
            ),
            final(self).brightnesses() == old(self).brightnesses(),
            final(self).errors() == old(self).errors(),
            final(self).global() == old(self).global(),
    {
        self.invalid_brightness.remove(instance_id);
        assert(self.invalid_brightness_ids() =~= old(self).invalid_brightness_ids().remove(instance_id@));
    }

    /// Whether a Brightness instance is polled.
    pub fn brightness_polling_enabled(&self, instance_id: &str) -> (r: bool)
        ensures
            r == !self.invalid_brightness_ids().contains(instance_id@),
    {
        !self.invalid_brightness.contains_key(instance_id)
    }

    /// Records `message` as the last error under `key`; returns whether it
    /// differs from the one recorded before, that is, whether to log it.
    pub fn should_log_error(&mut self, key: &str, message: &str) -> (r: bool)
        ensures
            r == error_is_new(old(self).errors(), key@, message@),
            final(self).errors() == old(self).errors().insert(key@, message@),
            final(self).switches() == old(self).switches(),
            final(self).global() == old(self).global(),
            final(self).invalid_switch_ids() == old(self).invalid_switch_ids(),
            final(self).invalid_brightness_ids() == old(self).invalid_brightness_ids(),
    {
        let repeated = match self.last_errors.get(key) {
            Some(previous) => same_text(previous.as_str(), message),
            None => false,
        };
        if repeated {
            assert(self.errors() =~= old(self).errors().insert(key@, message@));
            return false;
        }
        self.last_errors.insert(crate::text::owned(key), crate::text::owned(message));
        assert(self.errors() =~= old(self).errors().insert(key@, message@));
        true
    }

    /// Forgets the last error under `key`.
    pub fn clear_error(&mut self, key: &str)
        ensures
            final(self).errors() == old(self).errors().remove(key@),
            final(self).switches() == old(self).switches(),
            final(self).global() == old(self).global(),
            final(self).invalid_switch_ids() == old(self).invalid_switch_ids(),
            final(self).invalid_brightness_ids() == old(self).invalid_brightness_ids(),
    {
        self.last_errors.remove(key);
        assert(self.errors() =~= old(self).errors().remove(key@));
    }

    /// Registers the selection and settings of a visible Adjust State action.
    pub fn remember_adjust(&mut self, instance_id: String, selection: Selection, settings: A)
        ensures
            final(self).adjusts() == old(self).adjusts().insert(instance_id@, (selection, settings)),
            final(self).errors() == old(self).errors(),
            final(self).global() == old(self).global(),
            final(self).switches() == old(self).switches(),
    {
        self.adjust_settings.insert(instance_id, (selection, settings));
    }

    /// Forgets an Adjust State action that disappeared.
    pub fn forget_adjust(&mut self, instance_id: &str)
        ensures
            final(self).adjusts() == old(self).adjusts().remove(instance_id@),
            final(self).errors() == old(self).errors(),
            final(self).global() == old(self).global(),
            final(self).switches() == old(self).switches(),
    {
        self.adjust_settings.remove(instance_id);
    }

    /// The settings of an Adjust State instance.
    pub fn adjust_settings(&self, instance_id: &str) -> (r: Option<&A>)
        ensures
            match r {
                Some(s) => self.adjusts().contains_key(instance_id@) && *s == self.adjusts()[instance_id@].1,
                None => !self.adjusts().contains_key(instance_id@),
            },
    {
        match self.adjust_settings.get(instance_id) {
            Some(entry) => Some(&entry.1),
            None => None,
        }
    }
}

impl<A, B> PluginState<A, B> {
    /// Whether the periodic refresh runs at all: only once settings are
    /// loaded and while Homebridge is reachable.
    pub fn polling_due(&self) -> (r: bool)
        ensures
            r == (self.loaded() && self.is_online()),
    {
        self.settings_loaded && self.online
    }

    /// Whether a visible Switch is refreshed: it is registered, names a
    /// characteristic, and its selection is not known to be invalid.
    pub fn polls_switch(&self, instance_id: &str) -> (r: bool)
        ensures
            r == (self.switches().contains_key(instance_id@) && configured(
                self.switches()[instance_id@].accessory_id,
                self.switches()[instance_id@].characteristic_type,
                self.switches()[instance_id@].characteristic_uuid,
            ) && !self.invalid_switch_ids().contains(instance_id@)),
    {
        match self.switch_settings.get(instance_id) {
            Some(s) => s.is_configured() && !self.invalid_switches.contains_key(instance_id),
            None => false,
        }
    }

    /// Whether a visible Adjust State action is refreshed: it is registered
    /// and names a characteristic.
    pub fn polls_adjust(&self, instance_id: &str) -> (r: bool)
        ensures
            r == (self.adjusts().contains_key(instance_id@) && configured(
                self.adjusts()[instance_id@].0.accessory_id@,
                self.adjusts()[instance_id@].0.characteristic_type@,
                self.adjusts()[instance_id@].0.characteristic_uuid@,
            )),
    {
        match self.adjust_settings.get(instance_id) {
            Some(entry) => entry.0.is_configured(),
            None => false,
        }
    }

    /// Whether a visible Brightness action is refreshed: it is registered,
    /// names a characteristic, and its selection is not known to be invalid.
    pub fn polls_brightness(&self, instance_id: &str) -> (r: bool)
        ensures
            r == (self.brightnesses().contains_key(instance_id@) && configured(
                self.brightnesses()[instance_id@].0.accessory_id@,
                self.brightnesses()[instance_id@].0.characteristic_type@,
                self.brightnesses()[instance_id@].0.characteristic_uuid@,
            ) && !self.invalid_brightness_ids().contains(instance_id@)),
    {
        match self.brightness_settings.get(instance_id) {
            Some(entry) => entry.0.is_configured() && !self.invalid_brightness.contains_key(instance_id),
            None => false,
        }
    }
}

/// An error repeated under the same key is logged once; once the key is
/// cleared, or another message comes, it is logged again.
pub proof fn law_errors_logged_once(
    errors: Map<Seq<char>, Seq<char>>,
    key: Seq<char>,
    message: Seq<char>,
    other: Seq<char>,
)
    requires
        other != message,
    ensures
        !error_is_new(errors.insert(key, message), key, message),
        error_is_new(errors.insert(key, message).remove(key), key, message),
        error_is_new(errors.insert(key, message), key, other),
{
}

/// Changing the address or the credentials drops every cached token and
/// catalogue; changing only the cache lifetime drops the catalogues;
/// anything else keeps both.
pub proof fn law_settings_change_resets_caches(old: GlobalSettingsView, new: GlobalSettingsView)
    ensures
        (old.homebridge_url != new.homebridge_url || old.username != new.username || old.password
            != new.password) ==> cache_reset_for(old, new) is Everything,
        (old.homebridge_url == new.homebridge_url && old.username == new.username && old.password
            == new.password && old.catalog_cache_seconds != new.catalog_cache_seconds)
            ==> cache_reset_for(old, new) is Catalogs,
        cache_reset_for(old, old) is Nothing,
{
}

/// Settings registered for an instance are read back as registered and
/// make its selection count as valid again; once the instance is forgotten
/// nothing is read back for it, and other instances are untouched.
pub proof fn law_registration_read_back<V>(
    registered: Map<Seq<char>, V>,
    invalid: Set<Seq<char>>,
    id: Seq<char>,
    other: Seq<char>,
    settings: V,
)
    requires
        other != id,
    ensures
        registered.insert(id, settings).contains_key(id),
        registered.insert(id, settings)[id] == settings,
        !invalid.remove(id).contains(id),
        !registered.insert(id, settings).remove(id).contains_key(id),
        registered.insert(id, settings).contains_key(other) == registered.contains_key(other),
        registered.contains_key(other) ==> registered.insert(id, settings)[other] == registered[other],
{
}

} // verus!
