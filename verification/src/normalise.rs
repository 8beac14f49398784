//! Normalising the accessory and characteristic objects of the several
//! Homebridge response shapes into one: aliases copied to canonical keys,
//! property blocks lifted, permissions read conservatively, and legacy
//! value maps turned into characteristics.
use vstd::prelude::*;
use crate::json::{
    Json, JsonNumber, JsonView, get, has_key, has_member, member, put, put_member, view_array,
    view_json, view_object, lemma_view_array, lemma_view_object,
};
use crate::text::{lower, owned, same_text, to_lower};

verus! {

/// An object's members, as the view sees them.
pub type Members = Seq<(Seq<char>, JsonView)>;

// ---------------------------------------------------------------------------
// Aliases.

/// The value of the first of `aliases` that `m` holds.
pub open spec fn first_alias_value(m: Members, aliases: Seq<Seq<char>>) -> Option<JsonView>
    decreases aliases.len(),
{
    if aliases.len() == 0 {
        None
    } else {
        match get(m, aliases[0]) {
            Some(v) => Some(v),
            None => first_alias_value(m, aliases.drop_first()),
        }
    }
}

/// `m` with `target` set from the first alias it holds, unless `target` is
/// already there.
pub open spec fn with_alias(m: Members, target: Seq<char>, aliases: Seq<Seq<char>>) -> Members {
    if has_key(m, target) {
        m
    } else {
        match first_alias_value(m, aliases) {
            Some(v) => put(m, target, v),
            None => m,
        }
    }
}

/// Copies the first alias present to `target` when `target` is missing.
pub fn copy_alias(m: &mut Vec<(String, Json)>, target: &str, aliases: &[&str])
    ensures
        view_object(*final(m)) == with_alias(
            view_object(*old(m)),
            target@,
            aliases@.map_values(|a: &str| a@),
        ),
{
    if has_member(m, target) {
        return;
    }
    let ghost mv = view_object(*m);
    let ghost al = aliases@.map_values(|a: &str| a@);
    assert(al.skip(0) =~= al);
    let mut i: usize = 0;
    while i < aliases.len()
        invariant
            i <= aliases@.len(),
            mv == view_object(*m),
            *m == *old(m),
            !has_key(mv, target@),
            al == aliases@.map_values(|a: &str| a@),
            first_alias_value(mv, al) == first_alias_value(mv, al.skip(i as int)),
        decreases aliases.len() - i,
    {
        assert(al.skip(i as int)[0] == aliases@[i as int]@);
        assert(al.skip(i as int).drop_first() =~= al.skip(i + 1));
        match member(m, aliases[i]) {
            Some(v) => {
                let value = v.duplicate();
                put_member(m, owned(target), value);
                return;
            },
            None => {},
        }
        i = i + 1;
    }
}

/// `m` with `key` copied from `props` when `m` lacks it and `props` has it.
pub open spec fn fill_from(m: Members, props: Members, key: Seq<char>) -> Members {
    if !has_key(m, key) && get(props, key) is Some {
        put(m, key, get(props, key)->0)
    } else {
        m
    }
}

/// Copies `key` from `props` when `m` lacks it.
fn fill_member(m: &mut Vec<(String, Json)>, props: &Vec<(String, Json)>, key: &str)
    ensures
        view_object(*final(m)) == fill_from(view_object(*old(m)), view_object(*props), key@),
{
    if !has_member(m, key) {
        match member(props, key) {
            Some(v) => {
                let value = v.duplicate();
                put_member(m, owned(key), value);
            },
            None => {},
        }
    }
}

// ---------------------------------------------------------------------------
// Values.

/// The format inferred from a value.
pub open spec fn inferred_format(v: JsonView) -> Seq<char> {
    match v {
        JsonView::Bool(_) => "bool"@,
        JsonView::Number(JsonNumber::Float(_)) => "float"@,
        JsonView::Number(_) => "int"@,
        JsonView::String(_) => "string"@,
        _ => "unknown"@,
    }
}

/// The format a value suggests: bool, int, float, string or unknown.
pub fn infer_format(value: &Json) -> (r: String)
    ensures
        r@ == inferred_format(view_json(*value)),
{
    match value {
        Json::Bool(_) => owned("bool"),
        Json::Number(JsonNumber::Float(_)) => owned("float"),
        Json::Number(_) => owned("int"),
        Json::String(_) => owned("string"),
        _ => owned("unknown"),
    }
}

/// `items` holds the string `t`.
pub open spec fn holds_text(items: Seq<JsonView>, t: Seq<char>) -> bool {
    exists|i: int| 0 <= i < items.len() && items[i] == JsonView::String(t)
}

/// Whether `items` holds the string `t`.
fn has_text(items: &Vec<Json>, t: &str) -> (r: bool)
    ensures
        r == holds_text(view_array(*items), t@),
{
    proof {
        lemma_view_array(*items);
    }
    let mut i: usize = 0;
    while i < items.len()
        invariant
            i <= items@.len(),
            view_array(*items).len() == items@.len(),
            forall|k: int| 0 <= k < items@.len() ==> #[trigger] view_array(*items)[k] == view_json(items@[k]),
            forall|k: int| 0 <= k < i ==> view_array(*items)[k] != JsonView::String(t@),
        decreases items.len() - i,
    {
        match items[i].as_str() {
            Some(s) => {
                if same_text(s.as_str(), t) {
                    assert(view_array(*items)[i as int] == JsonView::String(t@));
                    return true;
                }
            },
            None => {},
        }
        i = i + 1;
    }
    false
}

/// The array under `key`, or nothing.
pub open spec fn array_member(m: Members, key: Seq<char>) -> Seq<JsonView> {
    match get(m, key) {
        Some(JsonView::Array(a)) => a,
        _ => Seq::empty(),
    }
}

/// A copy of the array under `key`, or an empty one.
fn array_copy(m: &Vec<(String, Json)>, key: &str) -> (r: Vec<Json>)
    ensures
        view_array(r) == array_member(view_object(*m), key@),
{
    match member(m, key) {
        Some(v) => match v.duplicate() {
            Json::Array(a) => a,
            _ => {
                let e: Vec<Json> = Vec::new();
                assert(view_array(e) =~= Seq::<JsonView>::empty());
                e
            },
        },
        None => {
            let e: Vec<Json> = Vec::new();
            assert(view_array(e) =~= Seq::<JsonView>::empty());
            e
        },
    }
}

/// The object under `key`, if it is one.
pub open spec fn object_member(m: Members, key: Seq<char>) -> Option<Members> {
    match get(m, key) {
        Some(JsonView::Object(o)) => Some(o),
        _ => None,
    }
}

/// A copy of the object under `key`, if it is one.
fn object_copy(m: &Vec<(String, Json)>, key: &str) -> (r: Option<Vec<(String, Json)>>)
    ensures
        match object_member(view_object(*m), key@) {
            Some(o) => r matches Some(x) && view_object(x) == o,
            None => r is None,
        },
{
    match member(m, key) {
        Some(v) => match v.duplicate() {
            Json::Object(o) => Some(o),
            _ => None,
        },
        None => None,
    }
}

// ---------------------------------------------------------------------------
// Characteristics.

/// Characteristic aliases: `type`, `uuid` and `description`.
pub open spec fn characteristic_aliases(m: Members) -> Members {
    let a = with_alias(m, "type"@, seq!["characteristicType"@, "name"@]);
    let b = with_alias(a, "uuid"@, seq!["characteristicUuid"@]);
    with_alias(b, "description"@, seq!["displayName"@, "name"@])
}

/// The format, limits, valid values and permissions lifted from `props`.
pub open spec fn lifted_props(m: Members) -> Members {
    match object_member(m, "props"@) {
        Some(p) => {
            let a = fill_from(m, p, "format"@);
            let b = fill_from(a, p, "minValue"@);
            let c = fill_from(b, p, "maxValue"@);
            let d = fill_from(c, p, "minStep"@);
            let e = fill_from(d, p, "validValues"@);
            fill_from(e, p, "perms"@)
        },
        None => m,
    }
}

/// `m` with the flag `flag` set, when missing, from the Boolean under
/// `legacy`, else from whether `perms` grants `perm`.
pub open spec fn with_flag(m: Members, flag: Seq<char>, legacy: Seq<char>, perms: Seq<JsonView>, perm: Seq<char>) -> Members {
    if has_key(m, flag) {
        m
    } else {
        put(
            m,
            flag,
            JsonView::Bool(
                match get(m, legacy) {
                    Some(JsonView::Bool(b)) => b,
                    _ => holds_text(perms, perm),
                },
            ),
        )
    }
}

/// `m` with a format inferred from its value when it has none.
pub open spec fn with_format(m: Members) -> Members {
    if has_key(m, "format"@) {
        m
    } else {
        put(
            m,
            "format"@,
            JsonView::String(
                inferred_format(
                    match get(m, "value"@) {
                        Some(v) => v,
                        None => JsonView::Null,
                    },
                ),
            ),
        )
    }
}

/// `m` with a description, its type's text or `Characteristic`, when it has
/// none.
pub open spec fn with_description(m: Members) -> Members {
    if has_key(m, "description"@) {
        m
    } else {
        put(
            m,
            "description"@,
            JsonView::String(
                match get(m, "type"@) {
                    Some(JsonView::String(t)) => t,
                    _ => "Characteristic"@,
                },
            ),
        )
    }
}

/// A characteristic object in the canonical shape.
pub open spec fn normalised_characteristic(m: Members) -> Members {
    let a = lifted_props(characteristic_aliases(m));
    let perms = array_member(a, "perms"@);
    let b = with_flag(a, "canRead"@, "readable"@, perms, "pr"@);
    let c = with_flag(b, "canWrite"@, "writable"@, perms, "pw"@);
    with_description(with_format(c))
}

/// Sets the flag `flag` when missing.
fn set_flag(m: &mut Vec<(String, Json)>, flag: &str, legacy: &str, perms: &Vec<Json>, perm: &str)
    ensures
        view_object(*final(m)) == with_flag(view_object(*old(m)), flag@, legacy@, view_array(*perms), perm@),
{
    if !has_member(m, flag) {
        let value = match member(m, legacy) {
            Some(v) => match v.as_bool() {
                Some(b) => b,
                None => has_text(perms, perm),
            },
            None => has_text(perms, perm),
        };
        put_member(m, owned(flag), Json::Bool(value));
    }
}

/// Normalises one characteristic object.
pub fn normalise_characteristic_value(value: Json) -> (r: Result<Json, String>)
    ensures
        match view_json(value) {
            JsonView::Object(m) => r matches Ok(j) && view_json(j) == JsonView::Object(
                normalised_characteristic(m),
            ),
            _ => r matches Err(e) && e@ == "Homebridge characteristic is not an object"@,
        },
{
    let mut m = match value {
        Json::Object(m) => m,
        _ => {
            return Err(owned("Homebridge characteristic is not an object"));
        },
    };
    let a1: [&str; 2] = ["characteristicType", "name"];
    let a2: [&str; 1] = ["characteristicUuid"];
    let a3: [&str; 2] = ["displayName", "name"];
    assert(a1@.map_values(|a: &str| a@) =~= seq!["characteristicType"@, "name"@]);
    assert(a2@.map_values(|a: &str| a@) =~= seq!["characteristicUuid"@]);
    assert(a3@.map_values(|a: &str| a@) =~= seq!["displayName"@, "name"@]);
    copy_alias(&mut m, "type", a1.as_slice());
    copy_alias(&mut m, "uuid", a2.as_slice());
    copy_alias(&mut m, "description", a3.as_slice());
    match object_copy(&m, "props") {
        Some(p) => {
            fill_member(&mut m, &p, "format");
            fill_member(&mut m, &p, "minValue");
            fill_member(&mut m, &p, "maxValue");
            fill_member(&mut m, &p, "minStep");
            fill_member(&mut m, &p, "validValues");
            fill_member(&mut m, &p, "perms");
        },
        None => {},
    }
    let perms = array_copy(&m, "perms");
    set_flag(&mut m, "canRead", "readable", &perms, "pr");
    set_flag(&mut m, "canWrite", "writable", &perms, "pw");
    if !has_member(&m, "format") {
        let format = match member(&m, "value") {
            Some(v) => infer_format(v),
            None => infer_format(&Json::Null),
        };
        put_member(&mut m, owned("format"), Json::String(format));
    }
    if !has_member(&m, "description") {
        let description = match member(&m, "type") {
            Some(t) => match t.as_str() {
                Some(s) => s.clone(),
                None => owned("Characteristic"),
            },
            None => owned("Characteristic"),
        };
        put_member(&mut m, owned("description"), Json::String(description));
    }
    Ok(Json::Object(m))
}

// ---------------------------------------------------------------------------
// Legacy value maps.

/// The characteristic types a legacy service lists as writable.
pub open spec fn listed_writable(service: Members) -> Seq<JsonView> {
    array_member(service, "writableCharacteristics"@)
}

/// `items` lists the text `t`, compared in ASCII lower case.
pub open spec fn lists_ignoring_case(items: Seq<JsonView>, t: Seq<char>) -> bool {
    exists|i: int| 0 <= i < items.len() && (#[trigger] items[i] matches JsonView::String(s) && lower(s) == lower(t))
}

/// A legacy permission entry grants writing: `canWrite: true`, or a
/// permission list holding `pw`.
pub open spec fn permission_grants_write(p: JsonView) -> bool {
    match p {
        JsonView::Object(o) => get(o, "canWrite"@) == Some(JsonView::Bool(true)),
        JsonView::Array(a) => holds_text(a, "pw"@),
        _ => false,
    }
}

/// The legacy permissions of a service grant writing `t`.
pub open spec fn legacy_can_write(service: Members, t: Seq<char>) -> bool {
    match object_member(service, "characteristicPermissions"@) {
        Some(cp) => match get(cp, t) {
            Some(p) => permission_grants_write(p),
            None => false,
        },
        None => false,
    }
}

/// The characteristic object made from a legacy value.
pub open spec fn legacy_characteristic(t: Seq<char>, v: JsonView, can_write: bool) -> JsonView {
    JsonView::Object(
        seq![
            ("type"@, JsonView::String(t)),
            ("description"@, JsonView::String(t)),
            ("value"@, v),
            ("format"@, JsonView::String(inferred_format(v))),
            ("canRead"@, JsonView::Bool(true)),
            ("canWrite"@, JsonView::Bool(can_write)),
        ],
    )
}

/// The characteristics of a legacy value map, readable, and writable when
/// listed as writable or granted by legacy permissions.
pub open spec fn characteristics_of_values(values: Members, service: Members) -> Seq<JsonView> {
    values.map_values(
        |e: (Seq<char>, JsonView)|
            legacy_characteristic(
                e.0,
                e.1,
                lists_ignoring_case(listed_writable(service), e.0) || legacy_can_write(service, e.0),
            ),
    )
}

/// Whether the legacy permissions of `service` grant writing `t`.
pub fn legacy_permission_can_write(service: &Vec<(String, Json)>, characteristic_type: &str) -> (r: bool)
    ensures
        r == legacy_can_write(view_object(*service), characteristic_type@),
{
    let permissions = match object_copy(service, "characteristicPermissions") {
        Some(cp) => match member(&cp, characteristic_type) {
            Some(p) => p.duplicate(),
            None => {
                return false;
            },
        },
        None => {
            return false;
        },
    };
    match &permissions {
        Json::Object(o) => match member(o, "canWrite") {
            Some(v) => match v.as_bool() {
                Some(b) => b,
                None => false,
            },
            None => false,
        },
        Json::Array(a) => has_text(a, "pw"),
        _ => false,
    }
}

/// Whether `items` lists `t`, ignoring ASCII case.
fn lists_type(items: &Vec<Json>, t: &str) -> (r: bool)
    ensures
        r == lists_ignoring_case(view_array(*items), t@),
{
    proof {
        lemma_view_array(*items);
    }
    let lt = to_lower(t);
    let mut i: usize = 0;
    while i < items.len()
        invariant
            i <= items@.len(),
            lt@ == lower(t@),
            view_array(*items).len() == items@.len(),
            forall|k: int| 0 <= k < items@.len() ==> #[trigger] view_array(*items)[k] == view_json(items@[k]),
            forall|k: int| 0 <= k < i ==> !(#[trigger] view_array(*items)[k] matches JsonView::String(s) && lower(s) == lower(t@)),
        decreases items.len() - i,
    {
        match items[i].as_str() {
            Some(s) => {
                let ls = to_lower(s.as_str());
                if same_text(ls.as_str(), lt.as_str()) {
                    assert(view_array(*items)[i as int] == JsonView::String(s@));
                    assert(view_array(*items)[i as int] matches JsonView::String(x) && lower(x) == lower(t@));
                    return true;
                }
            },
            None => {},
        }
        i = i + 1;
    }
    false
}

/// The characteristics of a legacy value map.
pub fn characteristics_from_values(values: &Vec<(String, Json)>, service: &Vec<(String, Json)>) -> (r: Vec<Json>)
    ensures
        view_array(r) == characteristics_of_values(view_object(*values), view_object(*service)),
{
    proof {
        lemma_view_object(*values);
    }
    let writable = array_copy(service, "writableCharacteristics");
    let ghost target = characteristics_of_values(view_object(*values), view_object(*service));
    let mut out: Vec<Json> = Vec::new();
    let mut i: usize = 0;
    while i < values.len()
        invariant
            i <= values@.len(),
            view_object(*values).len() == values@.len(),
            forall|k: int| 0 <= k < values@.len() ==> #[trigger] view_object(*values)[k] == (values@[k].0@, view_json(values@[k].1)),
            view_array(writable) == listed_writable(view_object(*service)),
            target == characteristics_of_values(view_object(*values), view_object(*service)),
            out@.len() == i,
            forall|k: int| 0 <= k < i ==> view_json(#[trigger] out@[k]) == target[k],
        decreases values.len() - i,
    {
        let t = &values[i].0;
        let v = &values[i].1;
        let can_write = lists_type(&writable, t.as_str()) || legacy_permission_can_write(service, t.as_str());
        let mut m: Vec<(String, Json)> = Vec::new();
        m.push((owned("type"), Json::String(t.clone())));
        m.push((owned("description"), Json::String(t.clone())));
        m.push((owned("value"), v.duplicate()));
        m.push((owned("format"), Json::String(infer_format(v))));
        m.push((owned("canRead"), Json::Bool(true)));
        m.push((owned("canWrite"), Json::Bool(can_write)));
        proof {
            lemma_view_object(m);
            assert(view_object(m) =~= seq![
                ("type"@, JsonView::String(t@)),
                ("description"@, JsonView::String(t@)),
                ("value"@, view_json(*v)),
                ("format"@, JsonView::String(inferred_format(view_json(*v)))),
                ("canRead"@, JsonView::Bool(true)),
                ("canWrite"@, JsonView::Bool(can_write)),
            ]);
        }
        out.push(Json::Object(m));
        i = i + 1;
    }
    proof {
        lemma_view_array(out);
        assert(view_array(out) =~= target);
    }
    out
}

// ---------------------------------------------------------------------------
// Services.

/// Service aliases: unique ID, names and types, and the UUID as unique ID.
pub open spec fn service_aliases(m: Members) -> Members {
    let a = with_alias(m, "uniqueId"@, seq!["uniqueID"@, "id"@]);
    let b = with_alias(a, "serviceName"@, seq!["displayName"@, "name"@]);
    let c = with_alias(b, "accessoryName"@, seq!["accessoryDisplayName"@]);
    let d = with_alias(c, "humanType"@, seq!["serviceTypeName"@]);
    let e = with_alias(d, "serviceType"@, seq!["humanType"@]);
    if has_key(e, "uniqueId"@) {
        e
    } else {
        match get(e, "uuid"@) {
            Some(v) => put(e, "uniqueId"@, v),
            None => e,
        }
    }
}

/// `info` with `target` taken from the first of `aliases` that the service
/// `m` holds, unless `info` has it.
pub open spec fn info_field(info: Members, m: Members, target: Seq<char>, aliases: Seq<Seq<char>>) -> Members {
    if has_key(info, target) {
        info
    } else {
        match first_alias_value(m, aliases) {
            Some(v) => put(info, target, v),
            None => info,
        }
    }
}

/// The accessory information of a service, completed from its top-level
/// name, manufacturer, model, serial number and firmware.
pub open spec fn accessory_information_of(m: Members) -> Members {
    let i0 = match object_member(m, "accessoryInformation"@) {
        Some(o) => o,
        None => Seq::empty(),
    };
    let i1 = info_field(i0, m, "Name"@, seq!["accessoryName"@, "name"@]);
    let i2 = info_field(i1, m, "Manufacturer"@, seq!["manufacturer"@]);
    let i3 = info_field(i2, m, "Model"@, seq!["model"@]);
    let i4 = info_field(i3, m, "Serial Number"@, seq!["serialNumber"@, "serial_number"@]);
    info_field(i4, m, "Firmware Revision"@, seq!["firmwareRevision"@])
}

/// The characteristics a service lists, in whichever shape it uses.
pub open spec fn raw_characteristics(m: Members) -> Seq<JsonView> {
    if has_key(m, "serviceCharacteristics"@) {
        array_member(m, "serviceCharacteristics"@)
    } else if has_key(m, "characteristics"@) {
        array_member(m, "characteristics"@)
    } else {
        match object_member(m, "values"@) {
            Some(values) => characteristics_of_values(values, m),
            None => Seq::empty(),
        }
    }
}

/// Every item is an object.
pub open spec fn all_objects(items: Seq<JsonView>) -> bool {
    forall|i: int| 0 <= i < items.len() ==> #[trigger] items[i] is Object
}

/// Characteristic objects normalised.
pub open spec fn normalised_characteristics(items: Seq<JsonView>) -> Seq<JsonView> {
    items.map_values(
        |v: JsonView|
            match v {
                JsonView::Object(m) => JsonView::Object(normalised_characteristic(m)),
                _ => v,
            },
    )
}

/// The service object in canonical shape, when all its characteristics are
/// objects.
pub open spec fn normalised_service(m: Members) -> Option<Members> {
    let m1 = service_aliases(m);
    let m2 = put(m1, "accessoryInformation"@, JsonView::Object(accessory_information_of(m1)));
    let raw = raw_characteristics(m2);
    if all_objects(raw) {
        Some(put(m2, "serviceCharacteristics"@, JsonView::Array(normalised_characteristics(raw))))
    } else {
        None
    }
}

/// Setting an alias leaves every other key as it was.
proof fn lemma_alias_keeps(m: Members, target: Seq<char>, aliases: Seq<Seq<char>>, q: Seq<char>)
    requires
        q != target,
    ensures
        get(with_alias(m, target, aliases), q) == get(m, q),
{
    if !has_key(m, target) {
        match first_alias_value(m, aliases) {
            Some(v) => crate::json::law_object_read_back(m, target, v, q),
            None => {},
        }
    }
}

/// The service aliases leave every key but the five canonical ones as it was.
proof fn lemma_service_aliases_keep(m: Members, q: Seq<char>)
    requires
        q != "uniqueId"@,
        q != "serviceName"@,
        q != "accessoryName"@,
        q != "humanType"@,
        q != "serviceType"@,
    ensures
        get(service_aliases(m), q) == get(m, q),
{
    let a = with_alias(m, "uniqueId"@, seq!["uniqueID"@, "id"@]);
    let b = with_alias(a, "serviceName"@, seq!["displayName"@, "name"@]);
    let c = with_alias(b, "accessoryName"@, seq!["accessoryDisplayName"@]);
    let d = with_alias(c, "humanType"@, seq!["serviceTypeName"@]);
    let e = with_alias(d, "serviceType"@, seq!["humanType"@]);
    lemma_alias_keeps(m, "uniqueId"@, seq!["uniqueID"@, "id"@], q);
    lemma_alias_keeps(a, "serviceName"@, seq!["displayName"@, "name"@], q);
    lemma_alias_keeps(b, "accessoryName"@, seq!["accessoryDisplayName"@], q);
    lemma_alias_keeps(c, "humanType"@, seq!["serviceTypeName"@], q);
    lemma_alias_keeps(d, "serviceType"@, seq!["humanType"@], q);
    if !has_key(e, "uniqueId"@) {
        match get(e, "uuid"@) {
            Some(v) => crate::json::law_object_read_back(e, "uniqueId"@, v, q),
            None => {},
        }
    }
}

/// Listed characteristics come first: when a service object holds a
/// `serviceCharacteristics` array of objects, the normalised service's
/// characteristics are exactly those items, each normalised, in their
/// order, whatever else (such as a `values` map) the object holds. When it
/// holds no `serviceCharacteristics` but a `characteristics` array, the
/// same holds of that array.
pub proof fn law_listed_characteristics_first(m: Members, key: Seq<char>, items: Seq<JsonView>)
    requires
        key == "serviceCharacteristics"@ || (key == "characteristics"@ && !has_key(
            m,
            "serviceCharacteristics"@,
        )),
        get(m, key) == Some(JsonView::Array(items)),
        all_objects(items),
    ensures
        normalised_service(m) is Some,
        get(normalised_service(m).unwrap(), "serviceCharacteristics"@) == Some(
            JsonView::Array(items.map_values(|v: JsonView| JsonView::Object(normalised_characteristic(v->Object_0)))),
        ),
{
    reveal_strlit("serviceCharacteristics");
    reveal_strlit("characteristics");
    reveal_strlit("uniqueId");
    reveal_strlit("serviceName");
    reveal_strlit("accessoryName");
    reveal_strlit("humanType");
    reveal_strlit("serviceType");
    reveal_strlit("accessoryInformation");
    let sc = "serviceCharacteristics"@;
    assert(sc.len() == 22 && "characteristics"@.len() == 15);
    assert("uniqueId"@.len() == 8 && "serviceName"@.len() == 11 && "accessoryName"@.len() == 13);
    assert("humanType"@.len() == 9 && "serviceType"@.len() == 11 && "accessoryInformation"@.len() == 20);
    let m1 = service_aliases(m);
    let m2 = put(m1, "accessoryInformation"@, JsonView::Object(accessory_information_of(m1)));
    lemma_service_aliases_keep(m, sc);
    lemma_service_aliases_keep(m, key);
    crate::json::law_object_read_back(m1, "accessoryInformation"@, JsonView::Object(accessory_information_of(m1)), sc);
    crate::json::law_object_read_back(m1, "accessoryInformation"@, JsonView::Object(accessory_information_of(m1)), key);
    assert(get(m2, key) == Some(JsonView::Array(items)));
    if key == sc {
        assert(has_key(m2, sc));
    } else {
        assert(!has_key(m, sc));
        assert(get(m2, sc) is None);
        assert(!has_key(m2, sc));
        assert(has_key(m2, key));
    }
    assert(raw_characteristics(m2) == items);
    let listed = normalised_characteristics(items);
    assert(listed =~= items.map_values(|v: JsonView| JsonView::Object(normalised_characteristic(v->Object_0)))) by {
        assert forall|i: int| 0 <= i < items.len() implies listed[i] == JsonView::Object(
            normalised_characteristic(items[i]->Object_0),
        ) by {
            assert(items[i] is Object);
        }
    }
    crate::json::law_object_read_back(m2, sc, JsonView::Array(listed), sc);
}

/// A legacy `values` map is the last resort: when a service object holds
/// neither `serviceCharacteristics` nor `characteristics` but a `values`
/// object, the normalised service's characteristics are one per entry of
/// that map, in its order, each made from the entry's type and value with
/// the writability that the object's legacy lists grant, then normalised.
pub proof fn law_values_map_last(m: Members, values: Members)
    requires
        !has_key(m, "serviceCharacteristics"@),
        !has_key(m, "characteristics"@),
        get(m, "values"@) == Some(JsonView::Object(values)),
    ensures
        normalised_service(m) is Some,
        get(normalised_service(m).unwrap(), "serviceCharacteristics"@) == Some(
            JsonView::Array(
                characteristics_of_values(values, m).map_values(
                    |v: JsonView| JsonView::Object(normalised_characteristic(v->Object_0)),
                ),
            ),
        ),
{
    reveal_strlit("serviceCharacteristics");
    reveal_strlit("characteristics");
    reveal_strlit("values");
    reveal_strlit("writableCharacteristics");
    reveal_strlit("characteristicPermissions");
    reveal_strlit("uniqueId");
    reveal_strlit("serviceName");
    reveal_strlit("accessoryName");
    reveal_strlit("humanType");
    reveal_strlit("serviceType");
    reveal_strlit("accessoryInformation");
    let sc = "serviceCharacteristics"@;
    let ch = "characteristics"@;
    let va = "values"@;
    let wc = "writableCharacteristics"@;
    let cp = "characteristicPermissions"@;
    assert(sc.len() == 22 && ch.len() == 15 && va.len() == 6 && wc.len() == 23 && cp.len() == 25);
    assert("uniqueId"@.len() == 8 && "serviceName"@.len() == 11 && "accessoryName"@.len() == 13);
    assert("humanType"@.len() == 9 && "serviceType"@.len() == 11 && "accessoryInformation"@.len() == 20);
    let m1 = service_aliases(m);
    let info = JsonView::Object(accessory_information_of(m1));
    let m2 = put(m1, "accessoryInformation"@, info);
    lemma_service_aliases_keep(m, sc);
    lemma_service_aliases_keep(m, ch);
    lemma_service_aliases_keep(m, va);
    lemma_service_aliases_keep(m, wc);
    lemma_service_aliases_keep(m, cp);
    crate::json::law_object_read_back(m1, "accessoryInformation"@, info, sc);
    crate::json::law_object_read_back(m1, "accessoryInformation"@, info, ch);
    crate::json::law_object_read_back(m1, "accessoryInformation"@, info, va);
    crate::json::law_object_read_back(m1, "accessoryInformation"@, info, wc);
    crate::json::law_object_read_back(m1, "accessoryInformation"@, info, cp);
    assert(get(m, sc) is None && get(m, ch) is None);
    assert(!has_key(m2, sc) && !has_key(m2, ch));
    assert(object_member(m2, va) == Some(values));
    assert(listed_writable(m2) == listed_writable(m));
    assert(object_member(m2, cp) == object_member(m, cp));
    let raw = characteristics_of_values(values, m);
    assert(raw_characteristics(m2) =~= raw) by {
        assert forall|i: int| 0 <= i < raw.len() implies raw_characteristics(m2)[i] == raw[i] by {
            assert(legacy_can_write(m2, values[i].0) == legacy_can_write(m, values[i].0));
        }
    }
    assert(all_objects(raw));
    let listed = normalised_characteristics(raw);
    assert(listed =~= raw.map_values(|v: JsonView| JsonView::Object(normalised_characteristic(v->Object_0)))) by {
        assert forall|i: int| 0 <= i < raw.len() implies listed[i] == JsonView::Object(
            normalised_characteristic(raw[i]->Object_0),
        ) by {
            assert(raw[i] is Object);
        }
    }
    crate::json::law_object_read_back(m2, sc, JsonView::Array(listed), sc);
}

/// Completes one accessory-information entry from the service's aliases.
fn fill_info(info: &mut Vec<(String, Json)>, m: &Vec<(String, Json)>, target: &str, aliases: &[&str])
    ensures
        view_object(*final(info)) == info_field(
            view_object(*old(info)),
            view_object(*m),
            target@,
            aliases@.map_values(|a: &str| a@),
        ),
{
    if has_member(info, target) {
        return;
    }
    let ghost mv = view_object(*m);
    let ghost al = aliases@.map_values(|a: &str| a@);
    assert(al.skip(0) =~= al);
    let mut i: usize = 0;
    while i < aliases.len()
        invariant
            i <= aliases@.len(),
            mv == view_object(*m),
            *info == *old(info),
            !has_key(view_object(*info), target@),
            al == aliases@.map_values(|a: &str| a@),
            first_alias_value(mv, al) == first_alias_value(mv, al.skip(i as int)),
        decreases aliases.len() - i,
    {
        assert(al.skip(i as int)[0] == aliases@[i as int]@);
        assert(al.skip(i as int).drop_first() =~= al.skip(i + 1));
        match member(m, aliases[i]) {
            Some(v) => {
                let value = v.duplicate();
                put_member(info, owned(target), value);
                return;
            },
            None => {},
        }
        i = i + 1;
    }
}

/// Normalises one accessory-service object.
pub fn normalise_service_value(value: Json) -> (r: Result<Json, String>)
    ensures
        match view_json(value) {
            JsonView::Object(m) => match normalised_service(m) {
                Some(n) => r matches Ok(j) && view_json(j) == JsonView::Object(n),
                None => r matches Err(e) && e@ == "Homebridge characteristic is not an object"@,
            },
            _ => r matches Err(e) && e@ == "Homebridge accessory service is not an object"@,
        },
{
    let mut m = match value {
        Json::Object(m) => m,
        _ => {
            return Err(owned("Homebridge accessory service is not an object"));
        },
    };
    let ghost orig = view_object(m);
    let a1: [&str; 2] = ["uniqueID", "id"];
    let a2: [&str; 2] = ["displayName", "name"];
    let a3: [&str; 1] = ["accessoryDisplayName"];
    let a4: [&str; 1] = ["serviceTypeName"];
    let a5: [&str; 1] = ["humanType"];
    assert(a1@.map_values(|a: &str| a@) =~= seq!["uniqueID"@, "id"@]);
    assert(a2@.map_values(|a: &str| a@) =~= seq!["displayName"@, "name"@]);
    assert(a3@.map_values(|a: &str| a@) =~= seq!["accessoryDisplayName"@]);
    assert(a4@.map_values(|a: &str| a@) =~= seq!["serviceTypeName"@]);
    assert(a5@.map_values(|a: &str| a@) =~= seq!["humanType"@]);
    copy_alias(&mut m, "uniqueId", a1.as_slice());
    copy_alias(&mut m, "serviceName", a2.as_slice());
    copy_alias(&mut m, "accessoryName", a3.as_slice());
    copy_alias(&mut m, "humanType", a4.as_slice());
    copy_alias(&mut m, "serviceType", a5.as_slice());
    if !has_member(&m, "uniqueId") {
        match member(&m, "uuid") {
            Some(v) => {
                let value = v.duplicate();
                put_member(&mut m, owned("uniqueId"), value);
            },
            None => {},
        }
    }
    let mut info: Vec<(String, Json)> = match object_copy(&m, "accessoryInformation") {
        Some(o) => o,
        None => {
            let e: Vec<(String, Json)> = Vec::new();
            assert(view_object(e) =~= Seq::<(Seq<char>, JsonView)>::empty());
            e
        },
    };
    let n1: [&str; 2] = ["accessoryName", "name"];
    let n2: [&str; 1] = ["manufacturer"];
    let n3: [&str; 1] = ["model"];
    let n4: [&str; 2] = ["serialNumber", "serial_number"];
    let n5: [&str; 1] = ["firmwareRevision"];
    assert(n1@.map_values(|a: &str| a@) =~= seq!["accessoryName"@, "name"@]);
    assert(n2@.map_values(|a: &str| a@) =~= seq!["manufacturer"@]);
    assert(n3@.map_values(|a: &str| a@) =~= seq!["model"@]);
    assert(n4@.map_values(|a: &str| a@) =~= seq!["serialNumber"@, "serial_number"@]);
    assert(n5@.map_values(|a: &str| a@) =~= seq!["firmwareRevision"@]);
    fill_info(&mut info, &m, "Name", n1.as_slice());
    fill_info(&mut info, &m, "Manufacturer", n2.as_slice());
    fill_info(&mut info, &m, "Model", n3.as_slice());
    fill_info(&mut info, &m, "Serial Number", n4.as_slice());
    fill_info(&mut info, &m, "Firmware Revision", n5.as_slice());
    assert(view_object(m) == service_aliases(orig));
    assert(view_object(info) == accessory_information_of(service_aliases(orig)));
    put_member(&mut m, owned("accessoryInformation"), Json::Object(info));
    let ghost m2v = view_object(m);
    assert(m2v == put(
        service_aliases(orig),
        "accessoryInformation"@,
        JsonView::Object(accessory_information_of(service_aliases(orig))),
    ));
    let raw: Vec<Json> = if has_member(&m, "serviceCharacteristics") {
        array_copy(&m, "serviceCharacteristics")
    } else if has_member(&m, "characteristics") {
        array_copy(&m, "characteristics")
    } else {
        match object_copy(&m, "values") {
            Some(values) => characteristics_from_values(&values, &m),
            None => {
                let e: Vec<Json> = Vec::new();
                assert(view_array(e) =~= Seq::<JsonView>::empty());
                e
            },
        }
    };
    let ghost rv = view_array(raw);
    assert(rv == raw_characteristics(m2v));
    proof {
        lemma_view_array(raw);
    }
    let mut out: Vec<Json> = Vec::new();
    let n = raw.len();
    let mut k: usize = 0;
    while k < n
        invariant
            k <= n == raw@.len(),
            rv.len() == n,
            forall|x: int| 0 <= x < n ==> #[trigger] rv[x] == view_json(raw@[x]),
            out@.len() == k,
            view_object(m) == m2v,
            rv == raw_characteristics(m2v),
            m2v == put(
                service_aliases(orig),
                "accessoryInformation"@,
                JsonView::Object(accessory_information_of(service_aliases(orig))),
            ),
            view_json(value) == JsonView::Object(orig),
            forall|x: int| 0 <= x < k ==> #[trigger] rv[x] is Object,
            forall|x: int| 0 <= x < k ==> view_json(#[trigger] out@[x]) == normalised_characteristics(rv)[x],
        decreases n - k,
    {
        let item = raw[k].duplicate();
        match normalise_characteristic_value(item) {
            Ok(j) => {
                out.push(j);
            },
            Err(e) => {
                proof {
                    assert(!(rv[k as int] is Object));
                    assert(!all_objects(rv));
                }
                return Err(e);
            },
        }
        k = k + 1;
    }
    proof {
        lemma_view_array(out);
        assert(view_array(out) =~= normalised_characteristics(rv));
        assert(all_objects(rv));
    }
    put_member(&mut m, owned("serviceCharacteristics"), Json::Array(out));
    Ok(Json::Object(m))
}

/// The list of services in an accessory response: the response itself, or
/// its `accessories` or else `services` member.
pub open spec fn accessory_list(v: JsonView) -> Result<Seq<JsonView>, Seq<char>> {
    match v {
        JsonView::Array(items) => Ok(items),
        JsonView::Object(o) => {
            let nested = if has_key(o, "accessories"@) {
                get(o, "accessories"@)
            } else {
                get(o, "services"@)
            };
            match nested {
                None => Err("Homebridge accessory response is not an array"@),
                Some(JsonView::Array(items)) => Ok(items),
                Some(_) => Err("Homebridge accessory collection is not an array"@),
            }
        },
        _ => Err("Homebridge accessory response is not an array"@),
    }
}

/// The services of an accessory response.
pub fn accessory_collection(value: Json) -> (r: Result<Vec<Json>, String>)
    ensures
        match accessory_list(view_json(value)) {
            Ok(items) => r matches Ok(v) && view_array(v) == items,
            Err(m) => r matches Err(e) && e@ == m,
        },
{
    match value {
        Json::Array(items) => Ok(items),
        Json::Object(o) => {
            let key = if has_member(&o, "accessories") {
                "accessories"
            } else {
                "services"
            };
            match member(&o, key) {
                None => Err(owned("Homebridge accessory response is not an array")),
                Some(nested) => match nested.duplicate() {
                    Json::Array(items) => Ok(items),
                    _ => Err(owned("Homebridge accessory collection is not an array")),
                },
            }
        },
        _ => Err(owned("Homebridge accessory response is not an array")),
    }
}

} // verus!
