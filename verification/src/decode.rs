//! Reading services and characteristics from their canonical JSON objects,
//! with the field names, defaults and type checks of the plugin's data
//! model, and the parsing of Homebridge accessory responses.
use vstd::prelude::*;
use crate::json::{Json, JsonNumber, JsonView, get, has_key, member, has_member, view_array, view_json, view_object, lemma_view_array};
use crate::models::{
    AccessoryService, AccessoryServiceView, Characteristic, CharacteristicView, HomebridgeInstance,
    HomebridgeInstanceView, normalised_accessory_name, normalised_service_name, normalised_service_type,
    normalised_unique_id,
};
use crate::normalise::{accessory_collection, accessory_list, normalise_service_value, normalised_service};
use crate::text::owned;

verus! {

/// A text field: missing is empty, a string is its text, anything else is
/// refused.
pub open spec fn text_field(f: Option<JsonView>) -> Option<Seq<char>> {
    match f {
        None => Some(Seq::empty()),
        Some(JsonView::String(s)) => Some(s),
        _ => None,
    }
}

/// A Boolean field: missing is false.
pub open spec fn flag_field(f: Option<JsonView>) -> Option<bool> {
    match f {
        None => Some(false),
        Some(JsonView::Bool(b)) => Some(b),
        _ => None,
    }
}

/// An optional unsigned integer: missing or null is none.
pub open spec fn index_field(f: Option<JsonView>) -> Option<Option<u64>> {
    match f {
        None => Some(None),
        Some(JsonView::Null) => Some(None),
        Some(JsonView::Number(JsonNumber::PosInt(u))) => Some(Some(u)),
        Some(JsonView::Number(JsonNumber::NegInt(i))) => if i >= 0 {
            Some(Some(i as u64))
        } else {
            None
        },
        _ => None,
    }
}

/// An optional number: missing or null is none.
pub open spec fn number_field(f: Option<JsonView>) -> Option<Option<JsonNumber>> {
    match f {
        None => Some(None),
        Some(JsonView::Null) => Some(None),
        Some(JsonView::Number(n)) => Some(Some(n)),
        _ => None,
    }
}

/// A list field: missing is empty.
pub open spec fn list_field(f: Option<JsonView>) -> Option<Seq<JsonView>> {
    match f {
        None => Some(Seq::empty()),
        Some(JsonView::Array(a)) => Some(a),
        _ => None,
    }
}

/// A free JSON field: missing is null.
pub open spec fn any_field(f: Option<JsonView>) -> JsonView {
    match f {
        Some(v) => v,
        None => JsonView::Null,
    }
}

/// The text of a string value.
pub open spec fn text_value(v: JsonView) -> Option<Seq<char>> {
    match v {
        JsonView::String(s) => Some(s),
        _ => None,
    }
}

/// The characteristic an object describes; `type` may also be spelled
/// `characteristicType`, but not both.
pub open spec fn decode_characteristic(m: Seq<(Seq<char>, JsonView)>) -> Option<CharacteristicView> {
    let t = if has_key(m, "type"@) && has_key(m, "characteristicType"@) {
        None
    } else if has_key(m, "type"@) {
        text_field(get(m, "type"@))
    } else {
        text_field(get(m, "characteristicType"@))
    };
    let uuid = text_field(get(m, "uuid"@));
    let description = text_field(get(m, "description"@));
    let format = text_field(get(m, "format"@));
    let min_value = number_field(get(m, "minValue"@));
    let max_value = number_field(get(m, "maxValue"@));
    let min_step = number_field(get(m, "minStep"@));
    let can_read = flag_field(get(m, "canRead"@));
    let can_write = flag_field(get(m, "canWrite"@));
    let valid_values = list_field(get(m, "validValues"@));
    if t is Some && uuid is Some && description is Some && format is Some && min_value is Some
        && max_value is Some && min_step is Some && can_read is Some && can_write is Some
        && valid_values is Some {
        Some(
            CharacteristicView {
                characteristic_type: t->0,
                uuid: uuid->0,
                description: description->0,
                value: any_field(get(m, "value"@)),
                format: format->0,
                min_value: min_value->0,
                max_value: max_value->0,
                min_step: min_step->0,
                can_read: can_read->0,
                can_write: can_write->0,
                valid_values: valid_values->0,
            },
        )
    } else {
        None
    }
}

/// The instance a field describes: an object with a name and a user name,
/// or a list of at most those two texts.
pub open spec fn decode_instance(f: Option<JsonView>) -> Option<HomebridgeInstanceView> {
    match f {
        None => Some(HomebridgeInstanceView { name: Seq::empty(), username: Seq::empty() }),
        Some(JsonView::Object(o)) => {
            let name = text_field(get(o, "name"@));
            let username = text_field(get(o, "username"@));
            if name is Some && username is Some {
                Some(HomebridgeInstanceView { name: name->0, username: username->0 })
            } else {
                None
            }
        },
        Some(JsonView::Array(a)) => {
            let name = if a.len() > 0 {
                text_value(a[0])
            } else {
                Some(Seq::empty())
            };
            let username = if a.len() > 1 {
                text_value(a[1])
            } else {
                Some(Seq::empty())
            };
            if a.len() <= 2 && name is Some && username is Some {
                Some(HomebridgeInstanceView { name: name->0, username: username->0 })
            } else {
                None
            }
        },
        _ => None,
    }
}

/// The characteristics a list describes, when every item is an object that
/// describes one.
pub open spec fn decode_characteristics(items: Seq<JsonView>) -> Option<Seq<CharacteristicView>> {
    if forall|i: int| 0 <= i < items.len() ==> (#[trigger] items[i] matches JsonView::Object(m) && decode_characteristic(m) is Some) {
        Some(items.map_values(|v: JsonView| decode_characteristic(v->Object_0)->0))
    } else {
        None
    }
}

/// The service an object describes.
pub open spec fn decode_service(m: Seq<(Seq<char>, JsonView)>) -> Option<AccessoryServiceView> {
    let aid = index_field(get(m, "aid"@));
    let iid = index_field(get(m, "iid"@));
    let uuid = text_field(get(m, "uuid"@));
    let raw_type = text_field(get(m, "type"@));
    let human_type = text_field(get(m, "humanType"@));
    let service_name = text_field(get(m, "serviceName"@));
    let service_type = text_field(get(m, "serviceType"@));
    let unique_id = text_field(get(m, "uniqueId"@));
    let accessory_name = text_field(get(m, "accessoryName"@));
    let list = list_field(get(m, "serviceCharacteristics"@));
    let characteristics = match list {
        Some(items) => decode_characteristics(items),
        None => None,
    };
    let instance = decode_instance(get(m, "instance"@));
    if aid is Some && iid is Some && uuid is Some && raw_type is Some && human_type is Some
        && service_name is Some && service_type is Some && unique_id is Some && accessory_name is Some
        && characteristics is Some && instance is Some {
        Some(
            AccessoryServiceView {
                aid: aid->0,
                iid: iid->0,
                uuid: uuid->0,
                raw_type: raw_type->0,
                human_type: human_type->0,
                service_name: service_name->0,
                service_type: service_type->0,
                unique_id: unique_id->0,
                accessory_name: accessory_name->0,
                accessory_information: any_field(get(m, "accessoryInformation"@)),
                service_characteristics: characteristics->0,
                instance: instance->0,
            },
        )
    } else {
        None
    }
}

fn read_text(m: &Vec<(String, Json)>, key: &str) -> (r: Option<String>)
    ensures
        match text_field(get(view_object(*m), key@)) {
            Some(t) => r matches Some(s) && s@ == t,
            None => r is None,
        },
{
    match member(m, key) {
        None => Some(String::new()),
        Some(Json::String(s)) => Some(s.clone()),
        Some(_) => None,
    }
}

fn read_flag(m: &Vec<(String, Json)>, key: &str) -> (r: Option<bool>)
    ensures
        r == flag_field(get(view_object(*m), key@)),
{
    match member(m, key) {
        None => Some(false),
        Some(Json::Bool(b)) => Some(*b),
        Some(_) => None,
    }
}

fn read_index(m: &Vec<(String, Json)>, key: &str) -> (r: Option<Option<u64>>)
    ensures
        r == index_field(get(view_object(*m), key@)),
{
    match member(m, key) {
        None => Some(None),
        Some(Json::Null) => Some(None),
        Some(Json::Number(JsonNumber::PosInt(u))) => Some(Some(*u)),
        Some(Json::Number(JsonNumber::NegInt(i))) => if *i >= 0 {
            Some(Some(*i as u64))
        } else {
            None
        },
        Some(_) => None,
    }
}

fn read_number(m: &Vec<(String, Json)>, key: &str) -> (r: Option<Option<JsonNumber>>)
    ensures
        r == number_field(get(view_object(*m), key@)),
{
    match member(m, key) {
        None => Some(None),
        Some(Json::Null) => Some(None),
        Some(Json::Number(n)) => Some(Some(*n)),
        Some(_) => None,
    }
}

fn read_any(m: &Vec<(String, Json)>, key: &str) -> (r: Json)
    ensures
        view_json(r) == any_field(get(view_object(*m), key@)),
{
    match member(m, key) {
        Some(v) => v.duplicate(),
        None => Json::Null,
    }
}

fn read_list(m: &Vec<(String, Json)>, key: &str) -> (r: Option<Vec<Json>>)
    ensures
        match list_field(get(view_object(*m), key@)) {
            Some(items) => r matches Some(v) && view_array(v) == items,
            None => r is None,
        },
{
    match member(m, key) {
        None => {
            let e: Vec<Json> = Vec::new();
            assert(view_array(e) =~= Seq::<JsonView>::empty());
            Some(e)
        },
        Some(v) => match v.duplicate() {
            Json::Array(a) => Some(a),
            _ => None,
        },
    }
}

/// The characteristic a canonical object describes.
pub fn characteristic_from_json(m: &Vec<(String, Json)>) -> (r: Option<Characteristic>)
    ensures
        match decode_characteristic(view_object(*m)) {
            Some(c) => r matches Some(x) && x@ == c,
            None => r is None,
        },
{
    let t = if has_member(m, "type") && has_member(m, "characteristicType") {
        None
    } else if has_member(m, "type") {
        read_text(m, "type")
    } else {
        read_text(m, "characteristicType")
    };
    let uuid = read_text(m, "uuid");
    let description = read_text(m, "description");
    let format = read_text(m, "format");
    let min_value = read_number(m, "minValue");
    let max_value = read_number(m, "maxValue");
    let min_step = read_number(m, "minStep");
    let can_read = read_flag(m, "canRead");
    let can_write = read_flag(m, "canWrite");
    let valid_values = read_list(m, "validValues");
    match (t, uuid, description, format, min_value, max_value, min_step, can_read, can_write, valid_values) {
        (
            Some(t),
            Some(uuid),
            Some(description),
            Some(format),
            Some(min_value),
            Some(max_value),
            Some(min_step),
            Some(can_read),
            Some(can_write),
            Some(valid_values),
        ) => {
            proof {
                lemma_view_array(valid_values);
                assert(valid_values@.map_values(|j: Json| view_json(j)) =~= view_array(valid_values));
            }
            Some(
                Characteristic {
                    characteristic_type: t,
                    uuid,
                    description,
                    value: read_any(m, "value"),
                    format,
                    min_value,
                    max_value,
                    min_step,
                    can_read,
                    can_write,
                    valid_values,
                },
            )
        },
        _ => None,
    }
}

fn text_item(v: &Json) -> (r: Option<String>)
    ensures
        match text_value(view_json(*v)) {
            Some(t) => r matches Some(s) && s@ == t,
            None => r is None,
        },
{
    match v {
        Json::String(s) => Some(s.clone()),
        _ => None,
    }
}

fn instance_from_json(m: &Vec<(String, Json)>) -> (r: Option<HomebridgeInstance>)
    ensures
        match decode_instance(get(view_object(*m), "instance"@)) {
            Some(i) => r matches Some(x) && x@ == i,
            None => r is None,
        },
{
    match member(m, "instance") {
        None => Some(HomebridgeInstance { name: String::new(), username: String::new() }),
        Some(Json::Object(o)) => {
            match (read_text(o, "name"), read_text(o, "username")) {
                (Some(name), Some(username)) => Some(HomebridgeInstance { name, username }),
                _ => None,
            }
        },
        Some(Json::Array(a)) => {
            proof {
                lemma_view_array(*a);
            }
            if a.len() > 2 {
                return None;
            }
            let name = if a.len() > 0 {
                text_item(&a[0])
            } else {
                Some(String::new())
            };
            let username = if a.len() > 1 {
                text_item(&a[1])
            } else {
                Some(String::new())
            };
            match (name, username) {
                (Some(name), Some(username)) => Some(HomebridgeInstance { name, username }),
                _ => None,
            }
        },
        Some(_) => None,
    }
}

/// The characteristics a list of canonical objects describes.
fn characteristics_from_json(items: &Vec<Json>) -> (r: Option<Vec<Characteristic>>)
    ensures
        match decode_characteristics(view_array(*items)) {
            Some(cs) => r matches Some(v) && v@.map_values(|c: Characteristic| c@) == cs,
            None => r is None,
        },
{
    proof {
        lemma_view_array(*items);
    }
    let ghost iv = view_array(*items);
    let mut out: Vec<Characteristic> = Vec::new();
    let mut i: usize = 0;
    while i < items.len()
        invariant
            i <= items@.len(),
            iv == view_array(*items),
            iv.len() == items@.len(),
            forall|k: int| 0 <= k < items@.len() ==> #[trigger] iv[k] == view_json(items@[k]),
            out@.len() == i,
            forall|k: int| 0 <= k < i ==> (#[trigger] iv[k] matches JsonView::Object(m) && decode_characteristic(m) is Some),
            forall|k: int| 0 <= k < i ==> (#[trigger] out@[k])@ == decode_characteristic(iv[k]->Object_0)->0,
        decreases items.len() - i,
    {
        match &items[i] {
            Json::Object(m) => match characteristic_from_json(m) {
                Some(c) => {
                    out.push(c);
                },
                None => {
                    proof {
                        assert(iv[i as int] == JsonView::Object(view_object(*m)));
                        assert(!(iv[i as int] matches JsonView::Object(mm) && decode_characteristic(mm) is Some));
                    }
                    return None;
                },
            },
            _ => {
                proof {
                    assert(!(iv[i as int] is Object));
                    assert(!(iv[i as int] matches JsonView::Object(mm) && decode_characteristic(mm) is Some));
                }
                return None;
            },
        }
        i = i + 1;
    }
    proof {
        assert(out@.map_values(|c: Characteristic| c@) =~= iv.map_values(
            |v: JsonView| decode_characteristic(v->Object_0)->0,
        ));
    }
    Some(out)
}

/// The service a canonical object describes.
pub fn service_from_json(m: &Vec<(String, Json)>) -> (r: Option<AccessoryService>)
    ensures
        match decode_service(view_object(*m)) {
            Some(s) => r matches Some(x) && x@ == s,
            None => r is None,
        },
{
    let aid = read_index(m, "aid");
    let iid = read_index(m, "iid");
    let uuid = read_text(m, "uuid");
    let raw_type = read_text(m, "type");
    let human_type = read_text(m, "humanType");
    let service_name = read_text(m, "serviceName");
    let service_type = read_text(m, "serviceType");
    let unique_id = read_text(m, "uniqueId");
    let accessory_name = read_text(m, "accessoryName");
    let characteristics = match read_list(m, "serviceCharacteristics") {
        Some(items) => characteristics_from_json(&items),
        None => None,
    };
    let instance = instance_from_json(m);
    match (aid, iid, uuid, raw_type, human_type, service_name, service_type, unique_id, accessory_name, characteristics, instance) {
        (
            Some(aid),
            Some(iid),
            Some(uuid),
            Some(raw_type),
            Some(human_type),
            Some(service_name),
            Some(service_type),
            Some(unique_id),
            Some(accessory_name),
            Some(service_characteristics),
            Some(instance),
        ) => Some(
            AccessoryService {
                aid,
                iid,
                uuid,
                raw_type,
                human_type,
                service_name,
                service_type,
                unique_id,
                accessory_name,
                accessory_information: read_any(m, "accessoryInformation"),
                service_characteristics,
                instance,
            },
        ),
        _ => None,
    }
}

/// A decoded service with its empty names and identifiers filled.
pub open spec fn normalised_view(s: AccessoryServiceView) -> AccessoryServiceView {
    AccessoryServiceView {
        service_type: normalised_service_type(s),
        service_name: normalised_service_name(s),
        accessory_name: normalised_accessory_name(s),
        unique_id: normalised_unique_id(s),
        ..s
    }
}

/// The service a Homebridge service object describes, or why it cannot be
/// read.
pub open spec fn parsed_service(v: JsonView) -> Result<AccessoryServiceView, Seq<char>> {
    match v {
        JsonView::Object(m) => match normalised_service(m) {
            Some(n) => match decode_service(n) {
                Some(s) => Ok(normalised_view(s)),
                None => Err("Homebridge returned an unsupported accessory service structure"@),
            },
            None => Err("Homebridge characteristic is not an object"@),
        },
        _ => Err("Homebridge accessory service is not an object"@),
    }
}

/// Reads one service from Homebridge's JSON.
pub fn parse_accessory_service(value: Json) -> (r: Result<AccessoryService, String>)
    ensures
        match parsed_service(view_json(value)) {
            Ok(s) => r matches Ok(x) && x@ == s,
            Err(e) => r matches Err(m) && m@ == e,
        },
{
    let normalised = match normalise_service_value(value) {
        Ok(j) => j,
        Err(e) => {
            return Err(e);
        },
    };
    match &normalised {
        Json::Object(m) => match service_from_json(m) {
            Some(service) => Ok(service.normalise()),
            None => Err(owned("Homebridge returned an unsupported accessory service structure")),
        },
        _ => Err(owned("Homebridge returned an unsupported accessory service structure")),
    }
}

/// The services of a list, or the first reason one cannot be read.
pub open spec fn parse_all(items: Seq<JsonView>) -> Result<Seq<AccessoryServiceView>, Seq<char>>
    decreases items.len(),
{
    if items.len() == 0 {
        Ok(Seq::empty())
    } else {
        match parsed_service(items[0]) {
            Err(e) => Err(e),
            Ok(s) => match parse_all(items.drop_first()) {
                Ok(rest) => Ok(seq![s] + rest),
                Err(e) => Err(e),
            },
        }
    }
}

/// The services of a Homebridge accessory response, or why it cannot be
/// read.
pub open spec fn parsed_services(v: JsonView) -> Result<Seq<AccessoryServiceView>, Seq<char>> {
    match accessory_list(v) {
        Err(e) => Err(e),
        Ok(items) => parse_all(items),
    }
}

/// `done` followed by the outcome `rest`.
pub open spec fn after(done: Seq<AccessoryServiceView>, rest: Result<Seq<AccessoryServiceView>, Seq<char>>) -> Result<Seq<AccessoryServiceView>, Seq<char>> {
    match rest {
        Ok(r) => Ok(done + r),
        Err(e) => Err(e),
    }
}

/// Reads the services of a Homebridge accessory response: a list, or an
/// object holding the list under `accessories` or `services`.
pub fn parse_accessory_services(value: Json) -> (r: Result<Vec<AccessoryService>, String>)
    ensures
        match parsed_services(view_json(value)) {
            Ok(s) => r matches Ok(v) && v@.map_values(|x: AccessoryService| x@) == s,
            Err(e) => r matches Err(m) && m@ == e,
        },
{
    let items = match accessory_collection(value) {
        Ok(items) => items,
        Err(e) => {
            return Err(e);
        },
    };
    let ghost iv = view_array(items);
    proof {
        lemma_view_array(items);
        assert(iv.skip(0) =~= iv);
        assert(Seq::<AccessoryServiceView>::empty() + parse_all(iv)->Ok_0 =~= parse_all(iv)->Ok_0);
    }
    let mut out: Vec<AccessoryService> = Vec::new();
    let mut i: usize = 0;
    while i < items.len()
        invariant
            i <= items@.len(),
            iv == view_array(items),
            accessory_list(view_json(value)) == Ok::<Seq<JsonView>, Seq<char>>(iv),
            iv.len() == items@.len(),
            forall|k: int| 0 <= k < items@.len() ==> #[trigger] iv[k] == view_json(items@[k]),
            parse_all(iv) == after(out@.map_values(|x: AccessoryService| x@), parse_all(iv.skip(i as int))),
        decreases items.len() - i,
    {
        let ghost done = out@.map_values(|x: AccessoryService| x@);
        let ghost rest = iv.skip(i as int);
        assert(rest[0] == iv[i as int]);
        assert(rest.drop_first() =~= iv.skip(i + 1));
        match parse_accessory_service(items[i].duplicate()) {
            Ok(s) => {
                out.push(s);
                proof {
                    let nd = out@.map_values(|x: AccessoryService| x@);
                    assert(nd =~= done.push(s@));
                    match parse_all(iv.skip(i + 1)) {
                        Ok(r) => {
                            assert(done + (seq![s@] + r) =~= nd + r);
                        },
                        Err(e) => {},
                    }
                }
            },
            Err(e) => {
                assert(parse_all(rest) == Err::<Seq<AccessoryServiceView>, Seq<char>>(e@));
                return Err(e);
            },
        }
        i = i + 1;
    }
    proof {
        assert(iv.skip(items@.len() as int) =~= Seq::<JsonView>::empty());
        let d = out@.map_values(|x: AccessoryService| x@);
        assert(d + Seq::<AccessoryServiceView>::empty() =~= d);
    }
    Ok(out)
}

} // verus!
