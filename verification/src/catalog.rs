//! Building the device catalogue from Homebridge's services and room
//! layout: services sorted by accessory and service name, placed in their
//! rooms, with device details, the number of distinct devices and the rooms.
use vstd::prelude::*;
use crate::json::JsonView;
use crate::models::{
    AccessoryService, AccessoryServiceView, AuthenticationStatus, Catalog, CatalogService,
    CatalogServiceView, CatalogView, DeviceMetadata, DeviceMetadataView, RoomLayout, first_string_of,
    opt_text, room_view, duplicate_opt_text,
};
use crate::order::{key_before, positions, sort_positions, sorted_positions, text_rank};
use crate::text::{blank, chars_of, concat, is_blank, lower, owned, same_text, to_lower};

verus! {

/// A room as the catalogue reads it: its name and, per placed service, the
/// service's unique ID and custom name.
pub type RoomPlacements = (Seq<char>, Seq<(Seq<char>, Option<Seq<char>>)>);

/// The custom name under which the last placement of `id` in a room's list
/// is recorded, if `id` is placed there.
pub open spec fn placement_in_room(services: Seq<(Seq<char>, Option<Seq<char>>)>, id: Seq<char>) -> Option<Option<Seq<char>>>
    decreases services.len(),
{
    if services.len() == 0 {
        None
    } else if services.last().0 == id {
        Some(services.last().1)
    } else {
        placement_in_room(services.drop_last(), id)
    }
}

/// The room and custom name of service `id`: its last placement in the
/// layout, since later placements override earlier ones.
pub open spec fn placement(rooms: Seq<RoomPlacements>, id: Seq<char>) -> Option<(Seq<char>, Option<Seq<char>>)>
    decreases rooms.len(),
{
    if rooms.len() == 0 {
        None
    } else {
        match placement_in_room(rooms.last().1, id) {
            Some(c) => Some((rooms.last().0, c)),
            None => placement(rooms.drop_last(), id),
        }
    }
}

/// The device details read from accessory information.
pub open spec fn metadata_of(info: JsonView) -> DeviceMetadataView {
    DeviceMetadataView {
        manufacturer: first_string_of(info, seq!["Manufacturer"@, "manufacturer"@]),
        model: first_string_of(info, seq!["Model"@, "model"@]),
        serial_number: first_string_of(
            info,
            seq!["Serial Number"@, "SerialNumber"@, "serialNumber"@, "serial_number"@],
        ),
        firmware_revision: first_string_of(
            info,
            seq!["Firmware Revision"@, "FirmwareRevision"@, "firmwareRevision"@],
        ),
    }
}

/// How a service is listed in the catalogue: in its room, or `Unassigned`.
pub open spec fn catalog_entry(s: AccessoryServiceView, rooms: Seq<RoomPlacements>) -> CatalogServiceView {
    let p = placement(rooms, s.unique_id);
    CatalogServiceView {
        room_name: match p {
            Some(x) => x.0,
            None => "Unassigned"@,
        },
        custom_name: match p {
            Some(x) => x.1,
            None => None,
        },
        device_metadata: metadata_of(s.accessory_information),
        service: s,
    }
}

/// The bridge a service belongs to: its Homebridge user name, or the
/// instance name when that is blank.
pub open spec fn bridge_of(s: AccessoryServiceView) -> Seq<char> {
    if blank(s.instance.username) {
        s.instance.name
    } else {
        s.instance.username
    }
}

/// The text that identifies a device: its bridge and its accessory name,
/// separated by the unit separator.
pub open spec fn device_key(s: AccessoryServiceView) -> Seq<char> {
    bridge_of(s) + seq!['\u{1f}'] + s.accessory_name
}

/// The distinct devices among `services`.
pub open spec fn device_keys(services: Seq<AccessoryServiceView>) -> Set<Seq<char>> {
    Set::new(|k: Seq<char>| exists|i: int| 0 <= i < services.len() && device_key(services[i]) == k)
}

/// The first sort key of each service: its accessory name in lower case.
pub open spec fn accessory_keys(services: Seq<AccessoryServiceView>) -> Seq<Seq<char>> {
    services.map_values(|s: AccessoryServiceView| lower(s.accessory_name))
}

/// The second sort key of each service: its service name in lower case.
pub open spec fn service_keys(services: Seq<AccessoryServiceView>) -> Seq<Seq<char>> {
    services.map_values(|s: AccessoryServiceView| lower(s.service_name))
}

/// The rooms of a catalogue: every room that holds a listed service, once,
/// ordered by name in lower case.
pub open spec fn rooms_ok(rooms: Seq<Seq<char>>, services: Seq<CatalogServiceView>) -> bool {
    &&& rooms.no_duplicates()
    &&& rooms.to_set() == Set::new(
        |r: Seq<char>| exists|k: int| 0 <= k < services.len() && services[k].room_name == r,
    )
    &&& forall|a: int, b: int| 0 <= a < b < rooms.len() ==> text_rank(lower(rooms[a]), lower(rooms[b])) <= 0
}

fn room_placement(room: &RoomLayout, id: &str) -> (r: Option<Option<String>>)
    ensures
        match placement_in_room(room_view(*room).1, id@) {
            Some(c) => r matches Some(x) && opt_text(x) == c,
            None => r is None,
        },
{
    let ghost svcs = room_view(*room).1;
    let mut j: usize = room.services.len();
    assert(svcs.take(j as int) =~= svcs);
    while j > 0
        invariant
            j <= room.services@.len(),
            svcs == room_view(*room).1,
            svcs.len() == room.services@.len(),
            placement_in_room(svcs, id@) == placement_in_room(svcs.take(j as int), id@),
        decreases j,
    {
        let ghost t = svcs.take(j as int);
        assert(t.last() == svcs[j - 1]);
        assert(t.drop_last() =~= svcs.take(j - 1));
        if same_text(room.services[j - 1].unique_id.as_str(), id) {
            return Some(duplicate_opt_text(&room.services[j - 1].custom_name));
        }
        j = j - 1;
    }
    None
}

/// The room and custom name of service `id` in the layout.
pub fn find_placement(layout: &Vec<RoomLayout>, id: &str) -> (r: Option<(String, Option<String>)>)
    ensures
        match placement(layout@.map_values(|r: RoomLayout| room_view(r)), id@) {
            Some(p) => r matches Some(x) && x.0@ == p.0 && opt_text(x.1) == p.1,
            None => r is None,
        },
{
    let ghost rooms = layout@.map_values(|r: RoomLayout| room_view(r));
    let mut j: usize = layout.len();
    assert(rooms.take(j as int) =~= rooms);
    while j > 0
        invariant
            j <= layout@.len(),
            rooms == layout@.map_values(|r: RoomLayout| room_view(r)),
            placement(rooms, id@) == placement(rooms.take(j as int), id@),
        decreases j,
    {
        let ghost t = rooms.take(j as int);
        assert(t.last() == rooms[j - 1]);
        assert(t.drop_last() =~= rooms.take(j - 1));
        match room_placement(&layout[j - 1], id) {
            Some(custom) => {
                return Some((layout[j - 1].name.clone(), custom));
            },
            None => {},
        }
        j = j - 1;
    }
    None
}

/// The device key of a service.
fn device_key_of(s: &AccessoryService) -> (r: String)
    ensures
        r@ == device_key(s@),
{
    let bridge = if is_blank(s.instance.username.as_str()) {
        &s.instance.name
    } else {
        &s.instance.username
    };
    let head = concat(bridge.as_str(), "\u{1f}");
    assert("\u{1f}"@ =~= seq!['\u{1f}']) by {
        reveal_strlit("\u{1f}");
    }
    concat(head.as_str(), s.accessory_name.as_str())
}

/// The number of distinct devices among `services`.
pub fn count_devices(services: &Vec<AccessoryService>) -> (n: usize)
    ensures
        n == device_keys(services@.map_values(|s: AccessoryService| s@)).len(),
{
    let ghost input = services@.map_values(|s: AccessoryService| s@);
    let mut keys: Vec<String> = Vec::new();
    let mut i: usize = 0;
    while i < services.len()
        invariant
            i <= services@.len(),
            input == services@.map_values(|s: AccessoryService| s@),
            keys@.map_values(|k: String| k@).no_duplicates(),
            keys@.map_values(|k: String| k@).to_set() == Set::new(
                |k: Seq<char>| exists|j: int| 0 <= j < i && device_key(input[j]) == k,
            ),
            keys@.len() <= i,
        decreases services.len() - i,
    {
        let key = device_key_of(&services[i]);
        let ghost kv = keys@.map_values(|k: String| k@);
        let mut seen = false;
        let mut j: usize = 0;
        while j < keys.len()
            invariant
                j <= keys@.len(),
                kv == keys@.map_values(|k: String| k@),
                seen == exists|a: int| 0 <= a < j && kv[a] == key@,
            decreases keys.len() - j,
        {
            assert(kv[j as int] == keys@[j as int]@);
            if same_text(keys[j].as_str(), key.as_str()) {
                seen = true;
            }
            j = j + 1;
        }
        proof {
            assert(device_key(input[i as int]) == key@);
        }
        if !seen {
            keys.push(key);
        }
        proof {
            let nv = keys@.map_values(|k: String| k@);
            assert(nv.no_duplicates()) by {
                if !seen {
                    assert(nv =~= kv.push(key@));
                    assert forall|a: int, b: int| 0 <= a < nv.len() && 0 <= b < nv.len() && a != b implies nv[a] != nv[b] by {
                        if a < kv.len() && b < kv.len() {
                            assert(nv[a] == kv[a] && nv[b] == kv[b]);
                        } else if a < kv.len() {
                            assert(nv[a] == kv[a]);
                        } else {
                            assert(nv[b] == kv[b]);
                        }
                    }
                } else {
                    assert(nv =~= kv);
                }
            }
            assert forall|k: Seq<char>| #[trigger] nv.to_set().contains(k) == (exists|j: int|
                0 <= j < i + 1 && device_key(input[j]) == k) by {
                if nv.to_set().contains(k) {
                    let a = choose|a: int| 0 <= a < nv.len() && nv[a] == k;
                    if a < kv.len() {
                        assert(kv[a] == k);
                        assert(kv.to_set().contains(k));
                    }
                }
                if exists|j: int| 0 <= j < i + 1 && device_key(input[j]) == k {
                    let j = choose|j: int| 0 <= j < i + 1 && device_key(input[j]) == k;
                    if j < i {
                        assert(kv.to_set().contains(k));
                        let a = choose|a: int| 0 <= a < kv.len() && kv[a] == k;
                        assert(nv[a] == k);
                    } else if seen {
                        let a = choose|a: int| 0 <= a < kv.len() && kv[a] == key@;
                        assert(nv[a] == k);
                    } else {
                        assert(nv[kv.len() as int] == k);
                    }
                }
            }
            assert(nv.to_set() =~= Set::new(
                |k: Seq<char>| exists|j: int| 0 <= j < i + 1 && device_key(input[j]) == k,
            ));
        }
        i = i + 1;
    }
    proof {
        let kv = keys@.map_values(|k: String| k@);
        kv.unique_seq_to_set();
        assert(kv.to_set() =~= device_keys(input));
    }
    keys.len()
}

/// The distinct pairs of bridge and accessory name among `services`.
pub open spec fn accessories_of(services: Seq<AccessoryServiceView>) -> Set<(Seq<char>, Seq<char>)> {
    Set::new(
        |p: (Seq<char>, Seq<char>)|
            exists|i: int| 0 <= i < services.len() && p == (bridge_of(services[i]), services[i].accessory_name),
    )
}

/// Two texts joined by the unit separator give back both parts, when the
/// first holds no unit separator.
proof fn lemma_separated_parts(b1: Seq<char>, a1: Seq<char>, b2: Seq<char>, a2: Seq<char>)
    requires
        !b1.contains('\u{1f}'),
        !b2.contains('\u{1f}'),
        b1 + seq!['\u{1f}'] + a1 == b2 + seq!['\u{1f}'] + a2,
    ensures
        b1 == b2,
        a1 == a2,
{
    let k = b1 + seq!['\u{1f}'] + a1;
    let k2 = b2 + seq!['\u{1f}'] + a2;
    if b1.len() < b2.len() {
        assert(k[b1.len() as int] == '\u{1f}');
        assert(k2[b1.len() as int] == b2[b1.len() as int]);
        assert(b2.contains('\u{1f}'));
    } else if b2.len() < b1.len() {
        assert(k2[b2.len() as int] == '\u{1f}');
        assert(k[b2.len() as int] == b1[b2.len() as int]);
        assert(b1.contains('\u{1f}'));
    }
    assert(b1 =~= k.subrange(0, b1.len() as int));
    assert(b2 =~= k2.subrange(0, b2.len() as int));
    assert(a1 =~= k.subrange(b1.len() as int + 1, k.len() as int));
    assert(a2 =~= k2.subrange(b2.len() as int + 1, k2.len() as int));
}

/// The devices are the accessories: the number of distinct device keys
/// among `services` is the number of distinct (bridge, accessory name)
/// pairs. Services of one accessory on one bridge count once, whatever their
/// service names; services with different accessory names or bridges count
/// apart. Left out: bridges whose name holds the unit separator, where two
/// keys could meet.
pub proof fn law_devices_are_accessories(services: Seq<AccessoryServiceView>)
    requires
        forall|i: int| 0 <= i < services.len() ==> !(#[trigger] bridge_of(services[i])).contains('\u{1f}'),
    ensures
        device_keys(services).finite(),
        accessories_of(services).finite(),
        device_keys(services).len() == accessories_of(services).len(),
{
    let x = accessories_of(services);
    let f = |p: (Seq<char>, Seq<char>)| p.0 + seq!['\u{1f}'] + p.1;
    let pairs = services.map_values(|s: AccessoryServiceView| (bridge_of(s), s.accessory_name));
    assert(x =~= pairs.to_set()) by {
        assert forall|p: (Seq<char>, Seq<char>)| x.contains(p) implies pairs.to_set().contains(p) by {
            let i = choose|i: int| 0 <= i < services.len() && p == (bridge_of(services[i]), services[i].accessory_name);
            assert(pairs[i] == p);
        }
        assert forall|p: (Seq<char>, Seq<char>)| pairs.to_set().contains(p) implies x.contains(p) by {
            let i = choose|i: int| 0 <= i < pairs.len() && pairs[i] == p;
            assert(p == (bridge_of(services[i]), services[i].accessory_name));
        }
    }
    vstd::seq_lib::seq_to_set_is_finite(pairs);
    assert(vstd::relations::injective_on(f, x)) by {
        assert forall|p1: (Seq<char>, Seq<char>), p2: (Seq<char>, Seq<char>)|
            x.contains(p1) && x.contains(p2) && #[trigger] f(p1) == #[trigger] f(p2) implies p1 == p2 by {
            let i = choose|i: int| 0 <= i < services.len() && p1 == (bridge_of(services[i]), services[i].accessory_name);
            let j = choose|j: int| 0 <= j < services.len() && p2 == (bridge_of(services[j]), services[j].accessory_name);
            lemma_separated_parts(p1.0, p1.1, p2.0, p2.1);
        }
    }
    assert(x.map(f) =~= device_keys(services)) by {
        assert forall|k: Seq<char>| x.map(f).contains(k) implies device_keys(services).contains(k) by {
            let p = choose|p: (Seq<char>, Seq<char>)| x.contains(p) && f(p) == k;
            let i = choose|i: int| 0 <= i < services.len() && p == (bridge_of(services[i]), services[i].accessory_name);
            assert(device_key(services[i]) == k);
        }
        assert forall|k: Seq<char>| device_keys(services).contains(k) implies x.map(f).contains(k) by {
            let i = choose|i: int| 0 <= i < services.len() && device_key(services[i]) == k;
            let p = (bridge_of(services[i]), services[i].accessory_name);
            assert(x.contains(p));
            assert(f(p) == k);
        }
    }
    vstd::set_lib::lemma_map_size(x, device_keys(services), f);
}

/// Two services make one device exactly when they share bridge and
/// accessory name, whatever their service names; otherwise two.
pub proof fn law_two_services_devices(a: AccessoryServiceView, b: AccessoryServiceView)
    requires
        !bridge_of(a).contains('\u{1f}'),
        !bridge_of(b).contains('\u{1f}'),
    ensures
        device_keys(seq![a, b]).len() == (if bridge_of(a) == bridge_of(b) && a.accessory_name == b.accessory_name {
            1int
        } else {
            2int
        }),
{
    let sv = seq![a, b];
    assert(sv[0] == a && sv[1] == b);
    law_devices_are_accessories(sv);
    let pa = (bridge_of(a), a.accessory_name);
    let pb = (bridge_of(b), b.accessory_name);
    if pa == pb {
        assert(accessories_of(sv) =~= set![pa]);
    } else {
        assert(accessories_of(sv) =~= set![pa, pb]);
        assert(set![pa].len() == 1);
        assert(!set![pa].contains(pb));
    }
}

/// The distinct room names of the listed services, ordered by name in
/// lower case.
pub fn catalog_rooms(services: &Vec<CatalogService>) -> (rooms: Vec<String>)
    ensures
        rooms_ok(rooms@.map_values(|r: String| r@), services@.map_values(|s: CatalogService| s@)),
{
    let ghost sv = services@.map_values(|s: CatalogService| s@);
    let mut names: Vec<String> = Vec::new();
    let mut i: usize = 0;
    while i < services.len()
        invariant
            i <= services@.len(),
            sv == services@.map_values(|s: CatalogService| s@),
            names@.map_values(|k: String| k@).no_duplicates(),
            names@.map_values(|k: String| k@).to_set() == Set::new(
                |r: Seq<char>| exists|j: int| 0 <= j < i && sv[j].room_name == r,
            ),
        decreases services.len() - i,
    {
        let ghost kv = names@.map_values(|k: String| k@);
        let name = &services[i].room_name;
        let mut seen = false;
        let mut j: usize = 0;
        while j < names.len()
            invariant
                j <= names@.len(),
                kv == names@.map_values(|k: String| k@),
                seen == exists|a: int| 0 <= a < j && kv[a] == name@,
            decreases names.len() - j,
        {
            assert(kv[j as int] == names@[j as int]@);
            if same_text(names[j].as_str(), name.as_str()) {
                seen = true;
            }
            j = j + 1;
        }
        assert(sv[i as int].room_name == name@);
        if !seen {
            names.push(name.clone());
        }
        proof {
            let nv = names@.map_values(|k: String| k@);
            assert(nv.no_duplicates()) by {
                if !seen {
                    assert(nv =~= kv.push(name@));
                    assert forall|a: int, b: int| 0 <= a < nv.len() && 0 <= b < nv.len() && a != b implies nv[a] != nv[b] by {
                        if a < kv.len() && b < kv.len() {
                            assert(nv[a] == kv[a] && nv[b] == kv[b]);
                        } else if a < kv.len() {
                            assert(nv[a] == kv[a]);
                        } else {
                            assert(nv[b] == kv[b]);
                        }
                    }
                } else {
                    assert(nv =~= kv);
                }
            }
            assert forall|r: Seq<char>| #[trigger] nv.to_set().contains(r) == (exists|j: int|
                0 <= j < i + 1 && sv[j].room_name == r) by {
                if nv.to_set().contains(r) {
                    let a = choose|a: int| 0 <= a < nv.len() && nv[a] == r;
                    if a < kv.len() {
                        assert(kv[a] == r);
                        assert(kv.to_set().contains(r));
                    }
                }
                if exists|j: int| 0 <= j < i + 1 && sv[j].room_name == r {
                    let j = choose|j: int| 0 <= j < i + 1 && sv[j].room_name == r;
                    if j < i {
                        assert(kv.to_set().contains(r));
                        let a = choose|a: int| 0 <= a < kv.len() && kv[a] == r;
                        assert(nv[a] == r);
                    } else if seen {
                        let a = choose|a: int| 0 <= a < kv.len() && kv[a] == name@;
                        assert(nv[a] == r);
                    } else {
                        assert(nv[kv.len() as int] == r);
                    }
                }
            }
            assert(nv.to_set() =~= Set::new(
                |r: Seq<char>| exists|j: int| 0 <= j < i + 1 && sv[j].room_name == r,
            ));
        }
        i = i + 1;
    }
    let ghost nv = names@.map_values(|k: String| k@);
    let mut k1: Vec<Vec<char>> = Vec::new();
    let mut k2: Vec<Vec<char>> = Vec::new();
    let mut a: usize = 0;
    while a < names.len()
        invariant
            a <= names@.len(),
            nv == names@.map_values(|k: String| k@),
            k1@.len() == a,
            k2@.len() == a,
            forall|x: int| 0 <= x < a ==> (#[trigger] k1@[x])@ == lower(nv[x]),
            forall|x: int| 0 <= x < a ==> (#[trigger] k2@[x])@.len() == 0,
        decreases names.len() - a,
    {
        let l = to_lower(names[a].as_str());
        k1.push(chars_of(l.as_str()));
        k2.push(Vec::new());
        a = a + 1;
    }
    let order = sort_positions(&k1, &k2);
    let ghost s1 = k1@.map_values(|v: Vec<char>| v@);
    let ghost s2 = k2@.map_values(|v: Vec<char>| v@);
    let ghost ord = positions(order@);
    proof {
        crate::order::lemma_sorted_positions_cover(ord, s1, s2, names@.len() as int);
    }
    let mut rooms: Vec<String> = Vec::new();
    let mut b: usize = 0;
    while b < order.len()
        invariant
            b <= order@.len() == names@.len(),
            ord == positions(order@),
            sorted_positions(ord, s1, s2, names@.len() as int),
            rooms@.len() == b,
            forall|x: int| 0 <= x < b ==> (#[trigger] rooms@[x])@ == nv[ord[x]],
            nv == names@.map_values(|k: String| k@),
        decreases order.len() - b,
    {
        assert(ord[b as int] == order@[b as int] as int);
        rooms.push(names[order[b]].clone());
        b = b + 1;
    }
    proof {
        let rv = rooms@.map_values(|r: String| r@);
        assert forall|x: int, y: int| 0 <= x < rv.len() && 0 <= y < rv.len() && x != y implies rv[x] != rv[y] by {
            assert(rv[x] == nv[ord[x]] && rv[y] == nv[ord[y]]);
            assert(ord[x] != ord[y]);
        }
        assert forall|r: Seq<char>| #[trigger] rv.to_set().contains(r) == nv.to_set().contains(r) by {
            if rv.to_set().contains(r) {
                let x = choose|x: int| 0 <= x < rv.len() && rv[x] == r;
                assert(rv[x] == nv[ord[x]]);
            }
            if nv.to_set().contains(r) {
                let x = choose|x: int| 0 <= x < nv.len() && nv[x] == r;
                assert(ord.contains(x));
                let y = choose|y: int| 0 <= y < ord.len() && ord[y] == x;
                assert(rv[y] == r);
            }
        }
        assert(rv.to_set() =~= nv.to_set());
        assert forall|x: int, y: int| 0 <= x < y < rv.len() implies text_rank(lower(rv[x]), lower(rv[y])) <= 0 by {
            assert(key_before(s1, s2, ord[x], ord[y]));
            assert(s1[ord[x]] == lower(nv[ord[x]]));
            assert(s1[ord[y]] == lower(nv[ord[y]]));
            assert(rv[x] == nv[ord[x]] && rv[y] == nv[ord[y]]);
        }
        assert(sv.len() == services@.len());
        assert(Set::new(|r: Seq<char>| exists|j: int| 0 <= j < services@.len() && sv[j].room_name == r)
            =~= Set::new(|r: Seq<char>| exists|k: int| 0 <= k < sv.len() && sv[k].room_name == r));
    }
    rooms
}

/// The catalogue of `services` as Homebridge listed them, placed in the
/// rooms of `layout`: services sorted by accessory name and then service
/// name, in lower case, keeping Homebridge's order between equal names.
pub fn build_catalog(
    services: Vec<AccessoryService>,
    layout: &Vec<RoomLayout>,
    authentication: String,
    authentication_status: AuthenticationStatus,
    refreshed_at_epoch_ms: u64,
) -> (c: Catalog)
    ensures
        ({
            let input = services@.map_values(|s: AccessoryService| s@);
            let rooms = layout@.map_values(|r: RoomLayout| room_view(r));
            &&& c@.service_count == input.len()
            &&& c@.services.len() == input.len()
            &&& exists|order: Seq<int>|
                #![trigger sorted_positions(order, accessory_keys(input), service_keys(input), input.len() as int)]
                order.len() == input.len() && sorted_positions(
                    order,
                    accessory_keys(input),
                    service_keys(input),
                    input.len() as int,
                ) && forall|k: int|
                    0 <= k < input.len() ==> #[trigger] c@.services[k] == catalog_entry(input[order[k]], rooms)
            &&& c@.device_count == device_keys(input).len()
            &&& rooms_ok(c@.rooms, c@.services)
            &&& c@.authentication == authentication@
            &&& c@.authentication_status == authentication_status@
            &&& c@.refreshed_at_epoch_ms == refreshed_at_epoch_ms
            &&& c@.cache_age_seconds == 0
            &&& !c@.cached
            &&& !c@.stale
            &&& c@.warning is None
        }),
{
    let ghost input = services@.map_values(|s: AccessoryService| s@);
    let ghost rooms = layout@.map_values(|r: RoomLayout| room_view(r));
    let n = services.len();
    let mut k1: Vec<Vec<char>> = Vec::new();
    let mut k2: Vec<Vec<char>> = Vec::new();
    let mut a: usize = 0;
    while a < n
        invariant
            a <= n == services@.len(),
            input == services@.map_values(|s: AccessoryService| s@),
            k1@.len() == a,
            k2@.len() == a,
            forall|x: int| 0 <= x < a ==> (#[trigger] k1@[x])@ == lower(input[x].accessory_name),
            forall|x: int| 0 <= x < a ==> (#[trigger] k2@[x])@ == lower(input[x].service_name),
        decreases n - a,
    {
        let l1 = to_lower(services[a].accessory_name.as_str());
        let l2 = to_lower(services[a].service_name.as_str());
        k1.push(chars_of(l1.as_str()));
        k2.push(chars_of(l2.as_str()));
        a = a + 1;
    }
    let order = sort_positions(&k1, &k2);
    let ghost ord = positions(order@);
    proof {
        assert(k1@.map_values(|v: Vec<char>| v@) =~= accessory_keys(input));
        assert(k2@.map_values(|v: Vec<char>| v@) =~= service_keys(input));
    }
    let mut entries: Vec<CatalogService> = Vec::new();
    let mut b: usize = 0;
    while b < n
        invariant
            b <= n == order@.len() == services@.len(),
            input == services@.map_values(|s: AccessoryService| s@),
            rooms == layout@.map_values(|r: RoomLayout| room_view(r)),
            ord == positions(order@),
            sorted_positions(ord, accessory_keys(input), service_keys(input), n as int),
            entries@.len() == b,
            forall|x: int| 0 <= x < b ==> (#[trigger] entries@[x])@ == catalog_entry(input[ord[x]], rooms),
        decreases n - b,
    {
        assert(ord[b as int] == order@[b as int] as int);
        let svc = &services[order[b]];
        let placed = find_placement(layout, svc.unique_id.as_str());
        let (room_name, custom_name) = match placed {
            Some(p) => p,
            None => (owned("Unassigned"), None),
        };
        let device_metadata = DeviceMetadata::from_accessory_information(&svc.accessory_information);
        entries.push(CatalogService { room_name, custom_name, device_metadata, service: svc.duplicate() });
        b = b + 1;
    }
    let device_count = count_devices(&services);
    let room_list = catalog_rooms(&entries);
    let c = Catalog {
        authentication,
        authentication_status,
        device_count,
        service_count: n,
        rooms: room_list,
        services: entries,
        refreshed_at_epoch_ms,
        cache_age_seconds: 0,
        cached: false,
        stale: false,
        warning: None,
    };
    proof {
        assert(c@.services.len() == n);
        assert forall|k: int| 0 <= k < input.len() implies #[trigger] c@.services[k] == catalog_entry(input[ord[k]], rooms) by {
            assert(c@.services[k] == entries@[k]@);
        }
        assert(ord.len() == input.len());
    }
    c
}

} // verus!
