//! The plugin's data model: settings, Homebridge services and their
//! characteristics, and the device catalogue, with their views.
use vstd::prelude::*;
use crate::json::{Json, JsonNumber, JsonView, view_json};
use crate::text::{
    blank, decimal, decimal_string, eq_ignore_ascii_case, eq_ignore_case, is_blank, joined, lower,
    owned, concat, to_lower, trim, trimmed, join, same_text,
};

verus! {

// ---------------------------------------------------------------------------
// Global settings.

/// Connection settings shared by every action.
#[derive(Debug)]
pub struct GlobalSettings {
    pub homebridge_url: String,
    pub username: String,
    pub password: String,
    pub update_interval: u64,
    pub catalog_cache_seconds: u64,
}

/// The view of `GlobalSettings`.
pub struct GlobalSettingsView {
    pub homebridge_url: Seq<char>,
    pub username: Seq<char>,
    pub password: Seq<char>,
    pub update_interval: u64,
    pub catalog_cache_seconds: u64,
}

impl View for GlobalSettings {
    type V = GlobalSettingsView;

    open spec fn view(&self) -> GlobalSettingsView {
        GlobalSettingsView {
            homebridge_url: self.homebridge_url@,
            username: self.username@,
            password: self.password@,
            update_interval: self.update_interval,
            catalog_cache_seconds: self.catalog_cache_seconds,
        }
    }
}

/// `v` limited to `lo..=hi` (`Ord::clamp`).
pub open spec fn clamp(v: int, lo: int, hi: int) -> int {
    if v < lo {
        lo
    } else if v > hi {
        hi
    } else {
        v
    }
}

impl Default for GlobalSettings {
    fn default() -> (s: Self)
        ensures
            s@.homebridge_url == "http://homebridge.local:8581"@,
            s@.username.len() == 0,
            s@.password.len() == 0,
            s@.update_interval == 5,
            s@.catalog_cache_seconds == 60,
    {
        GlobalSettings {
            homebridge_url: owned("http://homebridge.local:8581"),
            username: String::new(),
            password: String::new(),
            update_interval: 5,
            catalog_cache_seconds: 60,
        }
    }
}

impl GlobalSettings {
    /// The seconds between state polls: the configured interval within 1..=3600.
    pub fn polling_interval(&self) -> (r: u64)
        ensures
            r == clamp(self.update_interval as int, 1, 3600),
    {
        if self.update_interval < 1 {
            1
        } else if self.update_interval > 3600 {
            3600
        } else {
            self.update_interval
        }
    }

    /// The seconds a catalogue stays fresh: the configured value within 5..=3600.
    pub fn catalog_cache_ttl(&self) -> (r: u64)
        ensures
            r == clamp(self.catalog_cache_seconds as int, 5, 3600),
    {
        if self.catalog_cache_seconds < 5 {
            5
        } else if self.catalog_cache_seconds > 3600 {
            3600
        } else {
            self.catalog_cache_seconds
        }
    }

    /// A copy with the same view.
    pub fn duplicate(&self) -> (r: GlobalSettings)
        ensures
            r@ == self@,
    {
        GlobalSettings {
            homebridge_url: self.homebridge_url.clone(),
            username: self.username.clone(),
            password: self.password.clone(),
            update_interval: self.update_interval,
            catalog_cache_seconds: self.catalog_cache_seconds,
        }
    }
}

/// The settings of an action that has none.
#[derive(Debug)]
pub struct EmptySettings {}

// ---------------------------------------------------------------------------
// Per-action settings and the selected characteristic.

/// A selection is configured when it names a service and a characteristic
/// by type or by UUID.
pub open spec fn configured(
    accessory_id: Seq<char>,
    characteristic_type: Seq<char>,
    characteristic_uuid: Seq<char>,
) -> bool {
    !blank(accessory_id) && (!blank(characteristic_type) || !blank(characteristic_uuid))
}

/// Whether a selection names a service and a characteristic.
pub fn selection_is_configured(
    accessory_id: &str,
    characteristic_type: &str,
    characteristic_uuid: &str,
) -> (r: bool)
    ensures
        r == configured(accessory_id@, characteristic_type@, characteristic_uuid@),
{
    !is_blank(accessory_id) && (!is_blank(characteristic_type) || !is_blank(characteristic_uuid))
}

/// Settings that select one characteristic of one Homebridge service.
pub trait SelectedCharacteristic {
    spec fn selected_accessory(&self) -> Seq<char>;

    spec fn selected_type(&self) -> Seq<char>;

    spec fn selected_uuid(&self) -> Seq<char>;

    fn accessory_id(&self) -> (r: &str)
        ensures
            r@ == self.selected_accessory(),
    ;

    fn characteristic_type(&self) -> (r: &str)
        ensures
            r@ == self.selected_type(),
    ;

    fn characteristic_uuid(&self) -> (r: &str)
        ensures
            r@ == self.selected_uuid(),
    ;

    /// Whether the settings name a service and a characteristic.
    fn is_configured(&self) -> (r: bool)
        ensures
            r == configured(self.selected_accessory(), self.selected_type(), self.selected_uuid()),
    {
        selection_is_configured(
            self.accessory_id(),
            self.characteristic_type(),
            self.characteristic_uuid(),
        )
    }
}

/// A selected service and characteristic, as every stateful action names
/// them.
#[derive(Debug)]
pub struct Selection {
    pub accessory_id: String,
    pub characteristic_type: String,
    pub characteristic_uuid: String,
}

impl Selection {
    /// The selection of the service `accessory_id` and of the characteristic
    /// with `characteristic_uuid`, or else of type `characteristic_type`.
    pub fn new(accessory_id: &str, characteristic_type: &str, characteristic_uuid: &str) -> (r: Selection)
        ensures
            r.accessory_id@ == accessory_id@,
            r.characteristic_type@ == characteristic_type@,
            r.characteristic_uuid@ == characteristic_uuid@,
    {
        Selection {
            accessory_id: owned(accessory_id),
            characteristic_type: owned(characteristic_type),
            characteristic_uuid: owned(characteristic_uuid),
        }
    }
}

impl SelectedCharacteristic for Selection {
    open spec fn selected_accessory(&self) -> Seq<char> {
        self.accessory_id@
    }

    open spec fn selected_type(&self) -> Seq<char> {
        self.characteristic_type@
    }

    open spec fn selected_uuid(&self) -> Seq<char> {
        self.characteristic_uuid@
    }

    fn accessory_id(&self) -> (r: &str) {
        self.accessory_id.as_str()
    }

    fn characteristic_type(&self) -> (r: &str) {
        self.characteristic_type.as_str()
    }

    fn characteristic_uuid(&self) -> (r: &str) {
        self.characteristic_uuid.as_str()
    }
}

/// The label mode a Switch starts with.
pub fn default_switch_label_mode() -> (r: String)
    ensures
        r@ == "nameAndState"@,
{
    owned("nameAndState")
}

/// Settings of a Switch action.
#[derive(Debug)]
pub struct SwitchSettings {
    pub accessory_id: String,
    pub characteristic_type: String,
    pub characteristic_uuid: String,
    pub display_name: String,
    pub label_mode: String,
    pub show_confirmation: bool,
}

/// The view of `SwitchSettings`.
pub struct SwitchSettingsView {
    pub accessory_id: Seq<char>,
    pub characteristic_type: Seq<char>,
    pub characteristic_uuid: Seq<char>,
    pub display_name: Seq<char>,
    pub label_mode: Seq<char>,
    pub show_confirmation: bool,
}

impl View for SwitchSettings {
    type V = SwitchSettingsView;

    open spec fn view(&self) -> SwitchSettingsView {
        SwitchSettingsView {
            accessory_id: self.accessory_id@,
            characteristic_type: self.characteristic_type@,
            characteristic_uuid: self.characteristic_uuid@,
            display_name: self.display_name@,
            label_mode: self.label_mode@,
            show_confirmation: self.show_confirmation,
        }
    }
}

impl Default for SwitchSettings {
    fn default() -> (s: Self)
        ensures
            s@.accessory_id.len() == 0,
            s@.characteristic_type.len() == 0,
            s@.characteristic_uuid.len() == 0,
            s@.display_name.len() == 0,
            s@.label_mode == "nameAndState"@,
            s@.show_confirmation,
    {
        SwitchSettings {
            accessory_id: String::new(),
            characteristic_type: String::new(),
            characteristic_uuid: String::new(),
            display_name: String::new(),
            label_mode: default_switch_label_mode(),
            show_confirmation: true,
        }
    }
}

impl SwitchSettings {
    /// A copy with the same view.
    pub fn duplicate(&self) -> (r: SwitchSettings)
        ensures
            r@ == self@,
    {
        SwitchSettings {
            accessory_id: self.accessory_id.clone(),
            characteristic_type: self.characteristic_type.clone(),
            characteristic_uuid: self.characteristic_uuid.clone(),
            display_name: self.display_name.clone(),
            label_mode: self.label_mode.clone(),
            show_confirmation: self.show_confirmation,
        }
    }
}

impl SelectedCharacteristic for SwitchSettings {
    open spec fn selected_accessory(&self) -> Seq<char> {
        self.accessory_id@
    }

    open spec fn selected_type(&self) -> Seq<char> {
        self.characteristic_type@
    }

    open spec fn selected_uuid(&self) -> Seq<char> {
        self.characteristic_uuid@
    }

    fn accessory_id(&self) -> (r: &str) {
        self.accessory_id.as_str()
    }

    fn characteristic_type(&self) -> (r: &str) {
        self.characteristic_type.as_str()
    }

    fn characteristic_uuid(&self) -> (r: &str) {
        self.characteristic_uuid.as_str()
    }
}

/// Settings of a Set State action.
#[derive(Debug)]
pub struct SetStateSettings {
    pub accessory_id: String,
    pub characteristic_type: String,
    pub characteristic_uuid: String,
    pub target_value: Json,
    pub display_name: String,
}

impl Default for SetStateSettings {
    fn default() -> (s: Self)
        ensures
            s.accessory_id@.len() == 0,
            s.characteristic_type@.len() == 0,
            s.characteristic_uuid@.len() == 0,
            view_json(s.target_value) == JsonView::Null,
            s.display_name@.len() == 0,
    {
        SetStateSettings {
            accessory_id: String::new(),
            characteristic_type: String::new(),
            characteristic_uuid: String::new(),
            target_value: Json::Null,
            display_name: String::new(),
        }
    }
}

impl SelectedCharacteristic for SetStateSettings {
    open spec fn selected_accessory(&self) -> Seq<char> {
        self.accessory_id@
    }

    open spec fn selected_type(&self) -> Seq<char> {
        self.characteristic_type@
    }

    open spec fn selected_uuid(&self) -> Seq<char> {
        self.characteristic_uuid@
    }

    fn accessory_id(&self) -> (r: &str) {
        self.accessory_id.as_str()
    }

    fn characteristic_type(&self) -> (r: &str) {
        self.characteristic_type.as_str()
    }

    fn characteristic_uuid(&self) -> (r: &str) {
        self.characteristic_uuid.as_str()
    }
}

/// The mode a Brightness action starts with.
pub fn default_brightness_mode() -> (r: String)
    ensures
        r@ == "increase"@,
{
    owned("increase")
}

/// The label mode a Brightness action starts with.
pub fn default_brightness_label_mode() -> (r: String)
    ensures
        r@ == "nameAndValue"@,
{
    owned("nameAndValue")
}

// ---------------------------------------------------------------------------
// Characteristics.

/// One characteristic of a Homebridge service. Numeric limits are kept as
/// the JSON numbers Homebridge sent.
#[derive(Debug)]
pub struct Characteristic {
    pub characteristic_type: String,
    pub uuid: String,
    pub description: String,
    pub value: Json,
    pub format: String,
    pub min_value: Option<JsonNumber>,
    pub max_value: Option<JsonNumber>,
    pub min_step: Option<JsonNumber>,
    pub can_read: bool,
    pub can_write: bool,
    pub valid_values: Vec<Json>,
}

/// The view of a `Characteristic`.
pub struct CharacteristicView {
    pub characteristic_type: Seq<char>,
    pub uuid: Seq<char>,
    pub description: Seq<char>,
    pub value: JsonView,
    pub format: Seq<char>,
    pub min_value: Option<JsonNumber>,
    pub max_value: Option<JsonNumber>,
    pub min_step: Option<JsonNumber>,
    pub can_read: bool,
    pub can_write: bool,
    pub valid_values: Seq<JsonView>,
}

impl View for Characteristic {
    type V = CharacteristicView;

    open spec fn view(&self) -> CharacteristicView {
        CharacteristicView {
            characteristic_type: self.characteristic_type@,
            uuid: self.uuid@,
            description: self.description@,
            value: view_json(self.value),
            format: self.format@,
            min_value: self.min_value,
            max_value: self.max_value,
            min_step: self.min_step,
            can_read: self.can_read,
            can_write: self.can_write,
            valid_values: self.valid_values@.map_values(|j: Json| view_json(j)),
        }
    }
}

impl Default for Characteristic {
    fn default() -> (c: Self)
        ensures
            c@.characteristic_type.len() == 0,
            c@.uuid.len() == 0,
            c@.description.len() == 0,
            c@.value == JsonView::Null,
            c@.format.len() == 0,
            c@.min_value is None,
            c@.max_value is None,
            c@.min_step is None,
            !c@.can_read,
            !c@.can_write,
            c@.valid_values.len() == 0,
    {
        Characteristic {
            characteristic_type: String::new(),
            uuid: String::new(),
            description: String::new(),
            value: Json::Null,
            format: String::new(),
            min_value: None,
            max_value: None,
            min_step: None,
            can_read: false,
            can_write: false,
            valid_values: Vec::new(),
        }
    }
}

/// A Boolean characteristic: its format is `bool` or its value is a Boolean.
pub open spec fn boolean_characteristic(c: CharacteristicView) -> bool {
    eq_ignore_case(c.format, "bool"@) || c.value is Bool
}

/// A characteristic a Switch can toggle.
pub open spec fn switch_compatible(c: CharacteristicView) -> bool {
    c.can_read && c.can_write && boolean_characteristic(c)
}

/// The formats of integer characteristics.
pub open spec fn integer_format(f: Seq<char>) -> bool {
    let l = lower(f);
    l == "int"@ || l == "uint8"@ || l == "uint16"@ || l == "uint32"@ || l == "uint64"@
}

/// A numeric characteristic: a numeric format or a number value.
pub open spec fn numeric_characteristic(c: CharacteristicView) -> bool {
    integer_format(c.format) || lower(c.format) == "float"@ || c.value is Number
}

/// A characteristic a Brightness action can drive.
pub open spec fn brightness_compatible(c: CharacteristicView) -> bool {
    &&& c.can_read
    &&& c.can_write
    &&& numeric_characteristic(c)
    &&& (eq_ignore_case(c.characteristic_type, "Brightness"@) || eq_ignore_case(
        c.description,
        "Brightness"@,
    ))
}

/// Whether `f` names an integer format, compared in lower case.
fn is_integer_format(lowered: &str) -> (r: bool)
    ensures
        r == (lowered@ == "int"@ || lowered@ == "uint8"@ || lowered@ == "uint16"@ || lowered@
            == "uint32"@ || lowered@ == "uint64"@),
{
    same_text(lowered, "int") || same_text(lowered, "uint8") || same_text(lowered, "uint16")
        || same_text(lowered, "uint32") || same_text(lowered, "uint64")
}

impl Characteristic {
    /// Whether the characteristic holds a Boolean.
    pub fn is_boolean(&self) -> (r: bool)
        ensures
            r == boolean_characteristic(self@),
    {
        eq_ignore_ascii_case(self.format.as_str(), "bool") || self.value.is_boolean()
    }

    /// Whether a Switch can read and toggle the characteristic.
    pub fn is_switch_compatible(&self) -> (r: bool)
        ensures
            r == switch_compatible(self@),
    {
        self.can_read && self.can_write && self.is_boolean()
    }

    /// Whether the characteristic holds a number.
    pub fn is_numeric(&self) -> (r: bool)
        ensures
            r == numeric_characteristic(self@),
    {
        let l = to_lower(self.format.as_str());
        is_integer_format(l.as_str()) || same_text(l.as_str(), "float")
            || self.value.is_number()
    }

    /// Whether the characteristic's format is an integer format.
    pub fn is_integer(&self) -> (r: bool)
        ensures
            r == integer_format(self@.format),
    {
        let l = to_lower(self.format.as_str());
        is_integer_format(l.as_str())
    }

    /// Whether a Brightness action can drive the characteristic.
    pub fn is_brightness_compatible(&self) -> (r: bool)
        ensures
            r == brightness_compatible(self@),
    {
        self.can_read && self.can_write && self.is_numeric() && (eq_ignore_ascii_case(
            self.characteristic_type.as_str(),
            "Brightness",
        ) || eq_ignore_ascii_case(self.description.as_str(), "Brightness"))
    }

    /// A copy with the same view.
    pub fn duplicate(&self) -> (r: Characteristic)
        ensures
            r@ == self@,
    {
        let mut valid: Vec<Json> = Vec::new();
        let mut i: usize = 0;
        while i < self.valid_values.len()
            invariant
                i <= self.valid_values@.len(),
                valid@.len() == i,
                forall|k: int|
                    0 <= k < i ==> view_json(#[trigger] valid@[k]) == view_json(
                        self.valid_values@[k],
                    ),
            decreases self.valid_values.len() - i,
        {
            valid.push(self.valid_values[i].duplicate());
            i = i + 1;
        }
        assert(valid@.map_values(|j: Json| view_json(j)) =~= self.valid_values@.map_values(
            |j: Json| view_json(j),
        ));
        Characteristic {
            characteristic_type: self.characteristic_type.clone(),
            uuid: self.uuid.clone(),
            description: self.description.clone(),
            value: self.value.duplicate(),
            format: self.format.clone(),
            min_value: self.min_value,
            max_value: self.max_value,
            min_step: self.min_step,
            can_read: self.can_read,
            can_write: self.can_write,
            valid_values: valid,
        }
    }
}

// ---------------------------------------------------------------------------
// Services.

/// The Homebridge instance that exposes a service.
#[derive(Debug)]
pub struct HomebridgeInstance {
    pub name: String,
    pub username: String,
}

/// The view of a `HomebridgeInstance`.
pub struct HomebridgeInstanceView {
    pub name: Seq<char>,
    pub username: Seq<char>,
}

impl View for HomebridgeInstance {
    type V = HomebridgeInstanceView;

    open spec fn view(&self) -> HomebridgeInstanceView {
        HomebridgeInstanceView { name: self.name@, username: self.username@ }
    }
}

/// One accessory service as Homebridge Config UI describes it.
#[derive(Debug)]
pub struct AccessoryService {
    pub aid: Option<u64>,
    pub iid: Option<u64>,
    pub uuid: String,
    pub raw_type: String,
    pub human_type: String,
    pub service_name: String,
    pub service_type: String,
    pub unique_id: String,
    pub accessory_name: String,
    pub accessory_information: Json,
    pub service_characteristics: Vec<Characteristic>,
    pub instance: HomebridgeInstance,
}

/// The view of an `AccessoryService`.
pub struct AccessoryServiceView {
    pub aid: Option<u64>,
    pub iid: Option<u64>,
    pub uuid: Seq<char>,
    pub raw_type: Seq<char>,
    pub human_type: Seq<char>,
    pub service_name: Seq<char>,
    pub service_type: Seq<char>,
    pub unique_id: Seq<char>,
    pub accessory_name: Seq<char>,
    pub accessory_information: JsonView,
    pub service_characteristics: Seq<CharacteristicView>,
    pub instance: HomebridgeInstanceView,
}

impl View for AccessoryService {
    type V = AccessoryServiceView;

    open spec fn view(&self) -> AccessoryServiceView {
        AccessoryServiceView {
            aid: self.aid,
            iid: self.iid,
            uuid: self.uuid@,
            raw_type: self.raw_type@,
            human_type: self.human_type@,
            service_name: self.service_name@,
            service_type: self.service_type@,
            unique_id: self.unique_id@,
            accessory_name: self.accessory_name@,
            accessory_information: view_json(self.accessory_information),
            service_characteristics: self.service_characteristics@.map_values(
                |c: Characteristic| c@,
            ),
            instance: self.instance@,
        }
    }
}

/// The string under `key` in the JSON object `info`, if there is one.
pub open spec fn string_member(info: JsonView, key: Seq<char>) -> Option<Seq<char>> {
    match info {
        JsonView::Object(m) => match crate::json::get(m, key) {
            Some(JsonView::String(s)) => Some(s),
            _ => None,
        },
        _ => None,
    }
}

/// The service type after normalisation.
pub open spec fn normalised_service_type(s: AccessoryServiceView) -> Seq<char> {
    if !blank(s.service_type) {
        s.service_type
    } else if !blank(s.human_type) {
        s.human_type
    } else if !blank(s.raw_type) {
        s.raw_type
    } else {
        "Unknown service"@
    }
}

/// The service name after normalisation.
pub open spec fn normalised_service_name(s: AccessoryServiceView) -> Seq<char> {
    if !blank(s.service_name) {
        s.service_name
    } else {
        match string_member(s.accessory_information, "Name"@) {
            Some(n) => n,
            None => "Unnamed service"@,
        }
    }
}

/// The accessory name after normalisation.
pub open spec fn normalised_accessory_name(s: AccessoryServiceView) -> Seq<char> {
    if !blank(s.accessory_name) {
        s.accessory_name
    } else {
        match string_member(s.accessory_information, "Name"@) {
            Some(n) => n,
            None => normalised_service_name(s),
        }
    }
}

/// The unique ID after normalisation.
pub open spec fn normalised_unique_id(s: AccessoryServiceView) -> Seq<char> {
    if !blank(s.unique_id) {
        s.unique_id
    } else if !blank(s.uuid) {
        s.uuid
    } else if s.aid is Some && s.iid is Some {
        decimal(s.aid->0 as nat) + "."@ + decimal(s.iid->0 as nat)
    } else {
        normalised_accessory_name(s) + ":"@ + normalised_service_name(s)
    }
}

/// `i` is the first characteristic whose type matches `t` ignoring ASCII case.
pub open spec fn first_of_type(cs: Seq<CharacteristicView>, t: Seq<char>, i: int) -> bool {
    &&& 0 <= i < cs.len()
    &&& eq_ignore_case(cs[i].characteristic_type, t)
    &&& forall|j: int| 0 <= j < i ==> !eq_ignore_case(#[trigger] cs[j].characteristic_type, t)
}

/// `i` is the first characteristic whose UUID matches `u` ignoring ASCII case.
pub open spec fn first_of_uuid(cs: Seq<CharacteristicView>, u: Seq<char>, i: int) -> bool {
    &&& 0 <= i < cs.len()
    &&& eq_ignore_case(cs[i].uuid, u)
    &&& forall|j: int| 0 <= j < i ==> !eq_ignore_case(#[trigger] cs[j].uuid, u)
}

/// How a characteristic is listed in diagnostics: its type, and its UUID in
/// brackets when it has one.
pub open spec fn characteristic_label(c: CharacteristicView) -> Seq<char> {
    if blank(c.uuid) {
        c.characteristic_type
    } else {
        c.characteristic_type + " ("@ + c.uuid + ")"@
    }
}

/// The characteristics of a service listed for diagnostics, separated by
/// commas, or `none`.
pub open spec fn available_types_text(cs: Seq<CharacteristicView>) -> Seq<char> {
    if cs.len() == 0 {
        "none"@
    } else {
        joined(cs.map_values(|c: CharacteristicView| characteristic_label(c)), ", "@)
    }
}

/// The position of the first characteristic whose type matches `t`.
pub open spec fn type_index(cs: Seq<CharacteristicView>, t: Seq<char>) -> Option<int> {
    if exists|i: int| first_of_type(cs, t, i) {
        Some(choose|i: int| first_of_type(cs, t, i))
    } else {
        None
    }
}

/// The position of the first characteristic whose UUID matches `u`.
pub open spec fn uuid_index(cs: Seq<CharacteristicView>, u: Seq<char>) -> Option<int> {
    if exists|i: int| first_of_uuid(cs, u, i) {
        Some(choose|i: int| first_of_uuid(cs, u, i))
    } else {
        None
    }
}

/// The position of the selected characteristic: by UUID when a UUID is
/// given and found, otherwise by type.
pub open spec fn identity_index(cs: Seq<CharacteristicView>, uuid: Seq<char>, t: Seq<char>) -> Option<
    int,
> {
    if !blank(uuid) && uuid_index(cs, trimmed(uuid)) is Some {
        uuid_index(cs, trimmed(uuid))
    } else {
        type_index(cs, t)
    }
}

/// A lookup result `r` over `cs` is the characteristic at `idx`, or
/// nothing when `idx` is.
pub open spec fn lookup_result(r: Option<&Characteristic>, cs: Seq<Characteristic>, idx: Option<int>) -> bool {
    match idx {
        Some(i) => r matches Some(c) && 0 <= i < cs.len() && *c == cs[i],
        None => r is None,
    }
}

impl AccessoryService {
    /// Fills the names and identifiers that Homebridge left empty.
    pub fn normalise(self) -> (r: Self)
        ensures
            r@.service_type == normalised_service_type(self@),
            r@.service_name == normalised_service_name(self@),
            r@.accessory_name == normalised_accessory_name(self@),
            r@.unique_id == normalised_unique_id(self@),
            r.aid == self.aid,
            r.iid == self.iid,
            r.uuid == self.uuid,
            r.raw_type == self.raw_type,
            r.human_type == self.human_type,
            r.accessory_information == self.accessory_information,
            r.service_characteristics == self.service_characteristics,
            r.instance == self.instance,
    {
        let mut s = self;
        let ghost orig = self@;
        if is_blank(s.service_type.as_str()) {
            s.service_type = if !is_blank(s.human_type.as_str()) {
                s.human_type.clone()
            } else if !is_blank(s.raw_type.as_str()) {
                s.raw_type.clone()
            } else {
                owned("Unknown service")
            };
        }
        let info_name: Option<String> = match s.accessory_information.get("Name") {
            Some(v) => match v.as_str() {
                Some(n) => Some(n.clone()),
                None => None,
            },
            None => None,
        };
        assert(info_name matches Some(n) ==> string_member(orig.accessory_information, "Name"@)
            == Some(n@));
        assert(info_name is None ==> string_member(orig.accessory_information, "Name"@) is None);
        if is_blank(s.service_name.as_str()) {
            s.service_name = match &info_name {
                Some(n) => n.clone(),
                None => owned("Unnamed service"),
            };
        }
        if is_blank(s.accessory_name.as_str()) {
            s.accessory_name = match &info_name {
                Some(n) => n.clone(),
                None => s.service_name.clone(),
            };
        }
        if is_blank(s.unique_id.as_str()) {
            s.unique_id = if !is_blank(s.uuid.as_str()) {
                s.uuid.clone()
            } else if s.aid.is_some() && s.iid.is_some() {
                let a = decimal_string(s.aid.unwrap());
                let i = decimal_string(s.iid.unwrap());
                let a_dot = concat(a.as_str(), ".");
                concat(a_dot.as_str(), i.as_str())
            } else {
                let n_colon = concat(s.accessory_name.as_str(), ":");
                concat(n_colon.as_str(), s.service_name.as_str())
            };
        }
        s
    }

    /// The first characteristic whose type matches `characteristic_type`,
    /// ignoring ASCII case.
    pub fn characteristic(&self, characteristic_type: &str) -> (r: Option<&Characteristic>)
        ensures
            lookup_result(
                r,
                self.service_characteristics@,
                type_index(self@.service_characteristics, characteristic_type@),
            ),
    {
        let ghost cs = self@.service_characteristics;
        let mut i: usize = 0;
        while i < self.service_characteristics.len()
            invariant
                i <= self.service_characteristics@.len(),
                cs == self@.service_characteristics,
                forall|j: int|
                    0 <= j < i ==> !eq_ignore_case(#[trigger] cs[j].characteristic_type, characteristic_type@),
            decreases self.service_characteristics.len() - i,
        {
            if eq_ignore_ascii_case(
                self.service_characteristics[i].characteristic_type.as_str(),
                characteristic_type,
            ) {
                proof {
                    assert(first_of_type(cs, characteristic_type@, i as int));
                    let c = choose|c: int| first_of_type(cs, characteristic_type@, c);
                    assert(c == i) by {
                        if c < i {
                            assert(!eq_ignore_case(cs[c].characteristic_type, characteristic_type@));
                        } else if c > i {
                            assert(!eq_ignore_case(cs[i as int].characteristic_type, characteristic_type@));
                        }
                    }
                }
                return Some(&self.service_characteristics[i]);
            }
            i = i + 1;
        }
        assert(!exists|c: int| first_of_type(cs, characteristic_type@, c));
        None
    }

    /// The characteristic selected by UUID when a UUID is given and present,
    /// otherwise the one selected by type.
    pub fn characteristic_by_identity(
        &self,
        characteristic_uuid: &str,
        characteristic_type: &str,
    ) -> (r: Option<&Characteristic>)
        ensures
            lookup_result(
                r,
                self.service_characteristics@,
                identity_index(self@.service_characteristics, characteristic_uuid@, characteristic_type@),
            ),
    {
        let ghost cs = self@.service_characteristics;
        if !is_blank(characteristic_uuid) {
            let wanted = trim(characteristic_uuid);
            let mut i: usize = 0;
            while i < self.service_characteristics.len()
                invariant
                    i <= self.service_characteristics@.len(),
                    cs == self@.service_characteristics,
                    !blank(characteristic_uuid@),
                    wanted@ == trimmed(characteristic_uuid@),
                    forall|j: int|
                        0 <= j < i ==> !eq_ignore_case(#[trigger] cs[j].uuid, wanted@),
                decreases self.service_characteristics.len() - i,
            {
                if eq_ignore_ascii_case(self.service_characteristics[i].uuid.as_str(), wanted.as_str()) {
                    proof {
                        assert(first_of_uuid(cs, wanted@, i as int));
                        let c = choose|c: int| first_of_uuid(cs, wanted@, c);
                        assert(c == i) by {
                            if c < i {
                                assert(!eq_ignore_case(cs[c].uuid, wanted@));
                            } else if c > i {
                                assert(!eq_ignore_case(cs[i as int].uuid, wanted@));
                            }
                        }
                    }
                    return Some(&self.service_characteristics[i]);
                }
                i = i + 1;
            }
            assert(!exists|c: int| first_of_uuid(cs, wanted@, c));
        }
        self.characteristic(characteristic_type)
    }

    /// The characteristics listed for diagnostics, separated by commas, or
    /// `none`.
    pub fn available_characteristic_types(&self) -> (r: String)
        ensures
            r@ == available_types_text(self@.service_characteristics),
    {
        let mut labels: Vec<String> = Vec::new();
        let mut i: usize = 0;
        while i < self.service_characteristics.len()
            invariant
                i <= self.service_characteristics@.len(),
                labels@.len() == i,
                forall|k: int|
                    0 <= k < i ==> (#[trigger] labels@[k])@ == characteristic_label(
                        self@.service_characteristics[k],
                    ),
            decreases self.service_characteristics.len() - i,
        {
            let item = &self.service_characteristics[i];
            let label = if is_blank(item.uuid.as_str()) {
                item.characteristic_type.clone()
            } else {
                let a = concat(item.characteristic_type.as_str(), " (");
                let b = concat(a.as_str(), item.uuid.as_str());
                concat(b.as_str(), ")")
            };
            labels.push(label);
            i = i + 1;
        }
        if labels.len() == 0 {
            owned("none")
        } else {
            let r = join(&labels, ", ");
            assert(labels@.map_values(|p: String| p@) =~= self@.service_characteristics.map_values(
                |c: CharacteristicView| characteristic_label(c),
            ));
            r
        }
    }
}

// ---------------------------------------------------------------------------
// Room layout, device metadata and the catalogue.

/// A room of the Homebridge UI layout and the services placed in it.
#[derive(Debug)]
pub struct RoomLayout {
    pub name: String,
    pub services: Vec<LayoutService>,
}

/// A service placed in a room, with the name the user gave it there.
#[derive(Debug)]
pub struct LayoutService {
    pub unique_id: String,
    pub custom_name: Option<String>,
}

/// Manufacturer details of a device.
#[derive(Debug)]
pub struct DeviceMetadata {
    pub manufacturer: String,
    pub model: String,
    pub serial_number: String,
    pub firmware_revision: String,
}

/// The first key of `keys` under which `info` holds a string, and that
/// string; empty when none does.
pub open spec fn first_string_of(info: JsonView, keys: Seq<Seq<char>>) -> Seq<char>
    decreases keys.len(),
{
    if keys.len() == 0 {
        Seq::empty()
    } else {
        match string_member(info, keys[0]) {
            Some(s) => s,
            None => first_string_of(info, keys.drop_first()),
        }
    }
}

/// The string under the first of `keys` that holds one, or an empty string.
fn first_string(value: &Json, keys: &[&str]) -> (r: String)
    ensures
        r@ == first_string_of(view_json(*value), keys@.map_values(|k: &str| k@)),
{
    let ghost ks = keys@.map_values(|k: &str| k@);
    assert(ks.skip(0) =~= ks);
    let mut i: usize = 0;
    while i < keys.len()
        invariant
            i <= keys@.len(),
            ks == keys@.map_values(|k: &str| k@),
            first_string_of(view_json(*value), ks) == first_string_of(
                view_json(*value),
                ks.skip(i as int),
            ),
        decreases keys.len() - i,
    {
        assert(ks.skip(i as int)[0] == keys@[i as int]@);
        assert(ks.skip(i as int).drop_first() =~= ks.skip(i + 1));
        match value.get(keys[i]) {
            Some(v) => match v.as_str() {
                Some(s) => {
                    return s.clone();
                },
                None => {},
            },
            None => {},
        }
        i = i + 1;
    }
    String::new()
}

impl DeviceMetadata {
    /// Manufacturer, model, serial number and firmware from Homebridge's
    /// accessory information, under any of the spellings Homebridge uses.
    pub fn from_accessory_information(value: &Json) -> (r: Self)
        ensures
            r.manufacturer@ == first_string_of(view_json(*value), seq!["Manufacturer"@, "manufacturer"@]),
            r.model@ == first_string_of(view_json(*value), seq!["Model"@, "model"@]),
            r.serial_number@ == first_string_of(
                view_json(*value),
                seq!["Serial Number"@, "SerialNumber"@, "serialNumber"@, "serial_number"@],
            ),
            r.firmware_revision@ == first_string_of(
                view_json(*value),
                seq!["Firmware Revision"@, "FirmwareRevision"@, "firmwareRevision"@],
            ),
    {
        let k1: [&str; 2] = ["Manufacturer", "manufacturer"];
        let k2: [&str; 2] = ["Model", "model"];
        let k3: [&str; 4] = ["Serial Number", "SerialNumber", "serialNumber", "serial_number"];
        let k4: [&str; 3] = ["Firmware Revision", "FirmwareRevision", "firmwareRevision"];
        let manufacturer = first_string(value, k1.as_slice());
        let model = first_string(value, k2.as_slice());
        let serial_number = first_string(value, k3.as_slice());
        let firmware_revision = first_string(value, k4.as_slice());
        assert(k1@.map_values(|k: &str| k@) =~= seq!["Manufacturer"@, "manufacturer"@]);
        assert(k2@.map_values(|k: &str| k@) =~= seq!["Model"@, "model"@]);
        assert(k3@.map_values(|k: &str| k@) =~= seq!["Serial Number"@, "SerialNumber"@, "serialNumber"@, "serial_number"@]);
        assert(k4@.map_values(|k: &str| k@) =~= seq!["Firmware Revision"@, "FirmwareRevision"@, "firmwareRevision"@]);
        DeviceMetadata { manufacturer, model, serial_number, firmware_revision }
    }
}

/// The view of an optional text.
pub open spec fn opt_text(o: Option<String>) -> Option<Seq<char>> {
    match o {
        Some(s) => Some(s@),
        None => None,
    }
}

/// A copy of an optional text.
pub fn duplicate_opt_text(o: &Option<String>) -> (r: Option<String>)
    ensures
        opt_text(r) == opt_text(*o),
{
    match o {
        Some(s) => Some(s.clone()),
        None => None,
    }
}

/// The view of a `RoomLayout`: its name and, per placed service, its ID and
/// custom name.
pub open spec fn room_view(r: RoomLayout) -> (Seq<char>, Seq<(Seq<char>, Option<Seq<char>>)>) {
    (r.name@, r.services@.map_values(|l: LayoutService| (l.unique_id@, opt_text(l.custom_name))))
}

impl HomebridgeInstance {
    /// A copy with the same view.
    pub fn duplicate(&self) -> (r: HomebridgeInstance)
        ensures
            r@ == self@,
    {
        HomebridgeInstance { name: self.name.clone(), username: self.username.clone() }
    }
}

impl AccessoryService {
    /// A copy with the same view.
    pub fn duplicate(&self) -> (r: AccessoryService)
        ensures
            r@ == self@,
    {
        let mut cs: Vec<Characteristic> = Vec::new();
        let mut i: usize = 0;
        while i < self.service_characteristics.len()
            invariant
                i <= self.service_characteristics@.len(),
                cs@.len() == i,
                forall|k: int| 0 <= k < i ==> (#[trigger] cs@[k])@ == self.service_characteristics@[k]@,
            decreases self.service_characteristics.len() - i,
        {
            cs.push(self.service_characteristics[i].duplicate());
            i = i + 1;
        }
        assert(cs@.map_values(|c: Characteristic| c@) =~= self.service_characteristics@.map_values(
            |c: Characteristic| c@,
        ));
        AccessoryService {
            aid: self.aid,
            iid: self.iid,
            uuid: self.uuid.clone(),
            raw_type: self.raw_type.clone(),
            human_type: self.human_type.clone(),
            service_name: self.service_name.clone(),
            service_type: self.service_type.clone(),
            unique_id: self.unique_id.clone(),
            accessory_name: self.accessory_name.clone(),
            accessory_information: self.accessory_information.duplicate(),
            service_characteristics: cs,
            instance: self.instance.duplicate(),
        }
    }
}

/// The view of `DeviceMetadata`.
pub struct DeviceMetadataView {
    pub manufacturer: Seq<char>,
    pub model: Seq<char>,
    pub serial_number: Seq<char>,
    pub firmware_revision: Seq<char>,
}

impl View for DeviceMetadata {
    type V = DeviceMetadataView;

    open spec fn view(&self) -> DeviceMetadataView {
        DeviceMetadataView {
            manufacturer: self.manufacturer@,
            model: self.model@,
            serial_number: self.serial_number@,
            firmware_revision: self.firmware_revision@,
        }
    }
}

impl DeviceMetadata {
    /// A copy with the same view.
    pub fn duplicate(&self) -> (r: DeviceMetadata)
        ensures
            r@ == self@,
    {
        DeviceMetadata {
            manufacturer: self.manufacturer.clone(),
            model: self.model.clone(),
            serial_number: self.serial_number.clone(),
            firmware_revision: self.firmware_revision.clone(),
        }
    }
}

/// A service as the catalogue lists it: with its room, custom name and
/// device details.
#[derive(Debug)]
pub struct CatalogService {
    pub room_name: String,
    pub custom_name: Option<String>,
    pub device_metadata: DeviceMetadata,
    pub service: AccessoryService,
}

/// The view of a `CatalogService`.
pub struct CatalogServiceView {
    pub room_name: Seq<char>,
    pub custom_name: Option<Seq<char>>,
    pub device_metadata: DeviceMetadataView,
    pub service: AccessoryServiceView,
}

impl View for CatalogService {
    type V = CatalogServiceView;

    open spec fn view(&self) -> CatalogServiceView {
        CatalogServiceView {
            room_name: self.room_name@,
            custom_name: opt_text(self.custom_name),
            device_metadata: self.device_metadata@,
            service: self.service@,
        }
    }
}

impl CatalogService {
    /// A copy with the same view.
    pub fn duplicate(&self) -> (r: CatalogService)
        ensures
            r@ == self@,
    {
        CatalogService {
            room_name: self.room_name.clone(),
            custom_name: duplicate_opt_text(&self.custom_name),
            device_metadata: self.device_metadata.duplicate(),
            service: self.service.duplicate(),
        }
    }
}

/// How and until when the plugin is signed in to Homebridge.
#[derive(Debug)]
pub struct AuthenticationStatus {
    pub method: String,
    pub authenticated_at_epoch_ms: u64,
    pub expires_at_epoch_ms: u64,
    pub refresh_at_epoch_ms: u64,
    pub remaining_seconds: u64,
}

/// The view of an `AuthenticationStatus`.
pub struct AuthenticationStatusView {
    pub method: Seq<char>,
    pub authenticated_at_epoch_ms: u64,
    pub expires_at_epoch_ms: u64,
    pub refresh_at_epoch_ms: u64,
    pub remaining_seconds: u64,
}

impl View for AuthenticationStatus {
    type V = AuthenticationStatusView;

    open spec fn view(&self) -> AuthenticationStatusView {
        AuthenticationStatusView {
            method: self.method@,
            authenticated_at_epoch_ms: self.authenticated_at_epoch_ms,
            expires_at_epoch_ms: self.expires_at_epoch_ms,
            refresh_at_epoch_ms: self.refresh_at_epoch_ms,
            remaining_seconds: self.remaining_seconds,
        }
    }
}

impl Default for AuthenticationStatus {
    fn default() -> (r: Self)
        ensures
            r@.method.len() == 0,
            r@.authenticated_at_epoch_ms == 0,
            r@.expires_at_epoch_ms == 0,
            r@.refresh_at_epoch_ms == 0,
            r@.remaining_seconds == 0,
    {
        AuthenticationStatus {
            method: String::new(),
            authenticated_at_epoch_ms: 0,
            expires_at_epoch_ms: 0,
            refresh_at_epoch_ms: 0,
            remaining_seconds: 0,
        }
    }
}

impl AuthenticationStatus {
    /// A copy with the same view.
    pub fn duplicate(&self) -> (r: AuthenticationStatus)
        ensures
            r@ == self@,
    {
        AuthenticationStatus {
            method: self.method.clone(),
            authenticated_at_epoch_ms: self.authenticated_at_epoch_ms,
            expires_at_epoch_ms: self.expires_at_epoch_ms,
            refresh_at_epoch_ms: self.refresh_at_epoch_ms,
            remaining_seconds: self.remaining_seconds,
        }
    }
}

/// The device catalogue: every service, grouped by room, with the state of
/// the cache it came from.
#[derive(Debug)]
pub struct Catalog {
    pub authentication: String,
    pub authentication_status: AuthenticationStatus,
    pub device_count: usize,
    pub service_count: usize,
    pub rooms: Vec<String>,
    pub services: Vec<CatalogService>,
    pub refreshed_at_epoch_ms: u64,
    pub cache_age_seconds: u64,
    pub cached: bool,
    pub stale: bool,
    pub warning: Option<String>,
}

/// The view of a `Catalog`.
pub struct CatalogView {
    pub authentication: Seq<char>,
    pub authentication_status: AuthenticationStatusView,
    pub device_count: usize,
    pub service_count: usize,
    pub rooms: Seq<Seq<char>>,
    pub services: Seq<CatalogServiceView>,
    pub refreshed_at_epoch_ms: u64,
    pub cache_age_seconds: u64,
    pub cached: bool,
    pub stale: bool,
    pub warning: Option<Seq<char>>,
}

impl View for Catalog {
    type V = CatalogView;

    open spec fn view(&self) -> CatalogView {
        CatalogView {
            authentication: self.authentication@,
            authentication_status: self.authentication_status@,
            device_count: self.device_count,
            service_count: self.service_count,
            rooms: self.rooms@.map_values(|r: String| r@),
            services: self.services@.map_values(|s: CatalogService| s@),
            refreshed_at_epoch_ms: self.refreshed_at_epoch_ms,
            cache_age_seconds: self.cache_age_seconds,
            cached: self.cached,
            stale: self.stale,
            warning: opt_text(self.warning),
        }
    }
}

impl Catalog {
    /// A copy with the same view.
    pub fn duplicate(&self) -> (r: Catalog)
        ensures
            r@ == self@,
    {
        let mut rooms: Vec<String> = Vec::new();
        let mut i: usize = 0;
        while i < self.rooms.len()
            invariant
                i <= self.rooms@.len(),
                rooms@.len() == i,
                forall|k: int| 0 <= k < i ==> (#[trigger] rooms@[k])@ == self.rooms@[k]@,
            decreases self.rooms.len() - i,
        {
            rooms.push(self.rooms[i].clone());
            i = i + 1;
        }
        let mut services: Vec<CatalogService> = Vec::new();
        let mut j: usize = 0;
        while j < self.services.len()
            invariant
                j <= self.services@.len(),
                services@.len() == j,
                forall|k: int| 0 <= k < j ==> (#[trigger] services@[k])@ == self.services@[k]@,
            decreases self.services.len() - j,
        {
            services.push(self.services[j].duplicate());
            j = j + 1;
        }
        assert(rooms@.map_values(|r: String| r@) =~= self.rooms@.map_values(|r: String| r@));
        assert(services@.map_values(|s: CatalogService| s@) =~= self.services@.map_values(
            |s: CatalogService| s@,
        ));
        Catalog {
            authentication: self.authentication.clone(),
            authentication_status: self.authentication_status.duplicate(),
            device_count: self.device_count,
            service_count: self.service_count,
            rooms,
            services,
            refreshed_at_epoch_ms: self.refreshed_at_epoch_ms,
            cache_age_seconds: self.cache_age_seconds,
            cached: self.cached,
            stale: self.stale,
            warning: duplicate_opt_text(&self.warning),
        }
    }
}

/// A message from the property inspector.
#[derive(Debug)]
pub struct PropertyInspectorRequest {
    pub event: String,
    pub global_settings: Option<GlobalSettings>,
    pub action_settings: Json,
    pub otp: Option<String>,
    pub force_refresh: bool,
}

impl Default for PropertyInspectorRequest {
    fn default() -> (r: Self)
        ensures
            r.event@.len() == 0,
            r.global_settings is None,
            view_json(r.action_settings) == JsonView::Null,
            r.otp is None,
            !r.force_refresh,
    {
        PropertyInspectorRequest {
            event: String::new(),
            global_settings: None,
            action_settings: Json::Null,
            otp: None,
            force_refresh: false,
        }
    }
}

} // verus!
