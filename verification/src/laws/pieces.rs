//! What the building blocks do: lists, maps, numbers and the order of keys.

use vstd::prelude::*;
use vstd::utf8::encode_utf8;

use crate::content;
use crate::entries;
use crate::entries::Entry;
use crate::install;
use crate::objects::pod::{
    Container, ContainerModel, ContainerPort, ContainerPortModel, EnvVar, EnvVarModel, EnvVarSourceModel, Volume,
    VolumeModel, VolumeMount, VolumeMountModel,
};
use crate::objects::storage::ResourceRequirementsModel;
use crate::order;
use crate::text;

verus! {

/// The number that a text of decimal digits stands for.
pub open spec fn number(digits: Seq<char>) -> nat
    decreases digits.len(),
{
    if digits.len() == 0 {
        0
    } else {
        10 * number(digits.drop_last()) + (digits.last() as nat - '0' as nat) as nat
    }
}

/// A number that is written reads back as it was, with digits only and no zero in front.
pub proof fn lemma_numbers_read_back(n: nat)
    ensures
        number(text::decimal(n)) == n,
        text::decimal(n).len() > 0,
        forall|i: int| 0 <= i < text::decimal(n).len() ==> '0' <= #[trigger] text::decimal(n)[i] <= '9',
        n > 0 ==> text::decimal(n)[0] != '0',
    decreases n,
{
    reveal_with_fuel(number, 2);
    if n < 10 {
        assert(text::decimal(n) =~= seq![text::digit(n)]);
        assert(text::decimal(n).drop_last() =~= Seq::empty());
    } else {
        lemma_numbers_read_back(n / 10);
        assert(text::decimal(n).drop_last() =~= text::decimal(n / 10));
        assert(text::decimal(n)[0] == text::decimal(n / 10)[0]);
    }
}

/// Of two byte strings, the one comes first that is a beginning of the other, or that has the lower byte
/// where they first differ.
pub proof fn lemma_order_of_bytes(a: Seq<u8>, b: Seq<u8>)
    ensures
        order::bytes_before(a, b) <==> exists|n: int| #[trigger]
            alike(a, b, n) && n < b.len() && (n == a.len() || (n < a.len() && a[n] < b[n])),
    decreases b.len(),
{
    if a.len() > 0 && b.len() > 0 && a[0] == b[0] {
        let x = a.drop_first();
        let y = b.drop_first();
        lemma_order_of_bytes(x, y);
        if order::bytes_before(a, b) {
            let n = choose|n: int| #[trigger]
                alike(x, y, n) && n < y.len() && (n == x.len() || (n < x.len() && x[n] < y[n]));
            assert(alike(a, b, n + 1)) by {
                assert forall|i: int| 0 <= i < n + 1 implies #[trigger] a[i] == b[i] by {
                    if i > 0 {
                        assert(x[i - 1] == y[i - 1]);
                    }
                }
            }
        }
        if exists|n: int| #[trigger]
            alike(a, b, n) && n < b.len() && (n == a.len() || (n < a.len() && a[n] < b[n])) {
            let n = choose|n: int| #[trigger]
                alike(a, b, n) && n < b.len() && (n == a.len() || (n < a.len() && a[n] < b[n]));
            assert(n > 0);
            assert(alike(x, y, n - 1)) by {
                assert forall|i: int| 0 <= i < n - 1 implies #[trigger] x[i] == y[i] by {
                    assert(a[i + 1] == b[i + 1]);
                }
            }
        }
    } else {
        if order::bytes_before(a, b) {
            assert(alike(a, b, 0));
        }
        if b.len() > 0 && a.len() > 0 {
            assert forall|n: int| #[trigger] alike(a, b, n) implies n <= 0 by {
                if n > 0 {
                    assert(a[0] == b[0]);
                }
            }
        }
    }
}

/// The byte strings begin alike, up to a place.
pub open spec fn alike(a: Seq<u8>, b: Seq<u8>, n: int) -> bool {
    &&& 0 <= n <= a.len()
    &&& n <= b.len()
    &&& forall|i: int| 0 <= i < n ==> #[trigger] a[i] == b[i]
}

/// Texts are ordered by their UTF-8 bytes.
pub proof fn lemma_order_of_texts(a: Seq<char>, b: Seq<char>)
    ensures
        order::text_before(a, b) <==> exists|n: int| #[trigger]
            alike(encode_utf8(a), encode_utf8(b), n) && n < encode_utf8(b).len() && (n == encode_utf8(a).len() || (n
                < encode_utf8(a).len() && encode_utf8(a)[n] < encode_utf8(b)[n])),
{
    lemma_order_of_bytes(encode_utf8(a), encode_utf8(b));
}

/// The values of a map are walked in the ascending order of its keys, each once.
pub proof fn lemma_values_in_key_order<V>(map: Map<Seq<char>, V>, keys: Seq<Seq<char>>)
    requires
        forall|k: Seq<char>| #[trigger] map.contains_key(k) <==> keys.contains(k),
        forall|i: int, j: int| 0 <= i < j < keys.len() ==> order::text_before(#[trigger] keys[i], #[trigger] keys[j]),
    ensures
        content::values(map).len() == keys.len(),
        forall|i: int| 0 <= i < keys.len() ==> #[trigger] content::values(map)[i] == map[keys[i]],
{
    assert forall|k: Seq<char>| #[trigger] map.dom().contains(k) <==> keys.contains(k) by {
        assert(map.contains_key(k) <==> keys.contains(k));
    }
    order::lemma_in_order(keys, map.dom());
}

/// Of a map that is empty or missing nothing is hashed; of one with a single value, that value; and a value
/// under a key behind all others is hashed behind them.
pub proof fn lemma_hashed_of_secrets(map: Map<Seq<char>, Seq<u8>>, key: Seq<char>, value: Seq<u8>)
    requires
        map.dom().finite(),
        forall|k: Seq<char>| #[trigger] map.contains_key(k) ==> order::text_before(k, key),
    ensures
        content::byte_content(None) == Seq::<u8>::empty(),
        content::byte_content(Some(Map::<Seq<char>, Seq<u8>>::empty())) == Seq::<u8>::empty(),
        content::byte_content(Some(map.insert(key, value))) == content::byte_content(Some(map)) + value,
{
    let none = Map::<Seq<char>, Seq<u8>>::empty();
    lemma_values_in_key_order(none, Seq::empty());
    assert(content::values(none) =~= Seq::empty());
    lemma_one_value_more(map, key, value);
    let x = content::values(map);
    x.lemma_flatten_push(value);
}

/// Texts are hashed like their UTF-8 bytes.
pub proof fn lemma_hashed_of_texts(map: Map<Seq<char>, Seq<char>>, key: Seq<char>, value: Seq<char>)
    requires
        map.dom().finite(),
        forall|k: Seq<char>| #[trigger] map.contains_key(k) ==> order::text_before(k, key),
    ensures
        content::text_content(None) == Seq::<u8>::empty(),
        content::text_content(Some(Map::<Seq<char>, Seq<char>>::empty())) == Seq::<u8>::empty(),
        content::text_content(Some(map.insert(key, value))) == content::text_content(Some(map)) + encode_utf8(value),
{
    let none = Map::<Seq<char>, Seq<char>>::empty();
    let encode = |text: Seq<char>| encode_utf8(text);
    lemma_values_in_key_order(none, Seq::empty());
    assert(content::values(none).map_values(encode) =~= Seq::empty());
    lemma_one_value_more(map, key, value);
    let x = content::values(map).map_values(encode);
    assert(content::values(map).push(value).map_values(encode) =~= x.push(encode_utf8(value)));
    x.lemma_flatten_push(encode_utf8(value));
}

proof fn lemma_one_value_more<V>(map: Map<Seq<char>, V>, key: Seq<char>, value: V)
    requires
        map.dom().finite(),
        forall|k: Seq<char>| #[trigger] map.contains_key(k) ==> order::text_before(k, key),
    ensures
        content::values(map.insert(key, value)) == content::values(map).push(value),
{
    let keys = order::in_order(map.dom());
    order::lemma_finite_in_order(map.dom());
    order::lemma_text_irreflexive(key);
    lemma_one_key_more(map, key, value);
    let after = map.insert(key, value);
    assert forall|i: int| 0 <= i < keys.len() implies after[#[trigger] keys[i]] == map[keys[i]] by {
        assert(keys.contains(keys[i]));
        assert(map.dom().contains(keys[i]));
        assert(map.contains_key(keys[i]));
    }
    assert(content::values(after) =~= content::values(map).push(value));
}

/// A selector asks for every label as key, equals sign and value; a label behind all others comes after a comma.
pub proof fn lemma_selector(labels: Map<Seq<char>, Seq<char>>, key: Seq<char>, value: Seq<char>)
    requires
        labels.dom().finite(),
        forall|k: Seq<char>| #[trigger] labels.contains_key(k) ==> order::text_before(k, key),
    ensures
        content::selector_text(Map::<Seq<char>, Seq<char>>::empty()) == Seq::<char>::empty(),
        labels == Map::<Seq<char>, Seq<char>>::empty() ==> content::selector_text(labels.insert(key, value)) == key
            + "="@ + value,
        labels != Map::<Seq<char>, Seq<char>>::empty() ==> content::selector_text(labels.insert(key, value))
            == content::selector_text(labels) + ","@ + (key + "="@ + value),
{
    let none = Map::<Seq<char>, Seq<char>>::empty();
    let after = labels.insert(key, value);
    order::lemma_in_order(Seq::empty(), none.dom());
    let keys = order::in_order(labels.dom());
    order::lemma_finite_in_order(labels.dom());
    lemma_one_key_more(labels, key, value);
    let part = |k: Seq<char>| k + "="@ + labels[k];
    let part_after = |k: Seq<char>| k + "="@ + after[k];
    let parts = keys.map_values(part);
    let parts_after = keys.push(key).map_values(part_after);
    assert(none.dom() =~= Set::empty());
    assert(order::in_order(none.dom()).map_values(|k: Seq<char>| k + "="@ + none[k]).len() == 0);
    assert forall|i: int| 0 <= i < keys.len() implies #[trigger] parts_after[i] == parts[i] by {
        assert(keys.contains(keys[i]));
        assert(labels.dom().contains(keys[i]));
        order::lemma_text_irreflexive(key);
    }
    assert(parts_after.drop_last() =~= parts);
    if keys.len() == 0 {
        assert(labels =~= none) by {
            assert forall|k: Seq<char>| !labels.contains_key(k) by {
                assert(labels.dom().contains(k) <==> keys.contains(k));
            }
        }
    } else {
        assert(keys.contains(keys[0]));
        assert(labels.dom().contains(keys[0]));
    }
}

proof fn lemma_one_key_more<V>(map: Map<Seq<char>, V>, key: Seq<char>, value: V)
    requires
        map.dom().finite(),
        forall|k: Seq<char>| #[trigger] map.contains_key(k) ==> order::text_before(k, key),
    ensures
        order::in_order(map.insert(key, value).dom()) == order::in_order(map.dom()).push(key),
{
    let keys = order::in_order(map.dom());
    order::lemma_finite_in_order(map.dom());
    let more = keys.push(key);
    let after = map.insert(key, value);
    assert forall|k: Seq<char>| #[trigger] after.dom().contains(k) <==> more.contains(k) by {
        assert(map.dom().contains(k) <==> keys.contains(k));
        if keys.contains(k) {
            assert(more[keys.index_of(k)] == k);
        }
        assert(more[keys.len() as int] == key);
        if more.contains(k) && k != key {
            assert(keys[more.index_of(k)] == k);
        }
    }
    assert forall|i: int, j: int| 0 <= i < j < more.len() implies order::text_before(
        #[trigger] more[i],
        #[trigger] more[j],
    ) by {
        assert(more[i] == keys[i]);
        if j < keys.len() {
            assert(more[j] == keys[j]);
        } else {
            assert(keys.contains(keys[i]));
            assert(map.dom().contains(keys[i]));
            assert(map.contains_key(keys[i]));
        }
    }
    order::lemma_in_order(more, after.dom());
}

/// Entries go by their names, whatever else they hold.
pub proof fn lemma_goes_by(
    container: ContainerModel,
    volume: VolumeModel,
    mount: VolumeMountModel,
    variable: EnvVarModel,
    port: ContainerPortModel,
    name: Seq<char>,
)
    ensures
        Container::goes_by(container, name) <==> container.name == name,
        Volume::goes_by(volume, name) <==> volume.name == name,
        VolumeMount::goes_by(mount, name) <==> mount.name == name,
        EnvVar::goes_by(variable, name) <==> variable.name == name,
        ContainerPort::goes_by(port, name) <==> port.name == Some(name),
{
}

/// A new entry has a name, and nothing else.
pub proof fn lemma_new_entries(name: Seq<char>)
    ensures
        ({
            let new = Container::blank_entry(name);
            &&& new.name == name
            &&& new.image is None
            &&& new.image_pull_policy is None
            &&& new.command is None
            &&& new.args is None
            &&& new.working_dir is None
            &&& new.env is None
            &&& new.ports is None
            &&& new.volume_mounts is None
            &&& new.readiness_probe is None
            &&& new.liveness_probe is None
            &&& new.rest is None
        }),
        ({
            let new = Volume::blank_entry(name);
            &&& new.name == name
            &&& new.config_map is None
            &&& new.persistent_volume_claim is None
            &&& new.empty_dir is None
            &&& new.rest is None
        }),
        ({
            let new = VolumeMount::blank_entry(name);
            &&& new.name == name
            &&& new.mount_path.len() == 0
            &&& new.read_only is None
            &&& new.mount_propagation is None
            &&& new.sub_path is None
            &&& new.sub_path_expr is None
        }),
        ({
            let new = EnvVar::blank_entry(name);
            &&& new.name == name
            &&& new.value is None
            &&& new.value_from is None
        }),
        ({
            let new = ContainerPort::blank_entry(name);
            &&& new.name == Some(name)
            &&& new.container_port == 0
            &&& new.protocol is None
            &&& new.host_ip is None
            &&& new.host_port is None
        }),
{
}

/// A change is made in one place: to the first entry of that name, or to a new one at the end. Every other entry
/// stays as it is, and where it is.
pub proof fn lemma_change_in_one_place<T: Entry>(
    list: Seq<T::V>,
    name: Seq<char>,
    change: spec_fn(T::V) -> T::V,
    at: int,
)
    requires
        0 <= at <= list.len(),
        forall|i: int| 0 <= i < at ==> !T::goes_by(#[trigger] list[i], name),
        at < list.len() ==> T::goes_by(list[at], name),
    ensures
        ({
            let after = entries::applied::<T>(list, name, change);
            &&& at < list.len() ==> after.len() == list.len() && after[at] == change(list[at])
            &&& at == list.len() ==> after.len() == list.len() + 1 && after[at] == change(T::blank_entry(name))
            &&& forall|i: int| 0 <= i < list.len() && i != at ==> #[trigger] after[i] == list[i]
        }),
{
    entries::lemma_position_is::<T>(list, name, at);
}

/// What is found by a name is the first entry of that name.
pub proof fn lemma_first_is_found<T: Entry>(list: Seq<T::V>, name: Seq<char>, at: int)
    requires
        0 <= at <= list.len(),
        forall|i: int| 0 <= i < at ==> !T::goes_by(#[trigger] list[i], name),
        at < list.len() ==> T::goes_by(list[at], name),
    ensures
        entries::holds::<T>(list, name) <==> at < list.len(),
        at < list.len() ==> entries::entry::<T>(list, name) == list[at],
{
    entries::lemma_position_is::<T>(list, name, at);
}

/// Dropping a name drops every entry of that name and keeps every other one, in order: of a single entry, and of one
/// list after another.
pub proof fn lemma_drop<T: Entry>(a: Seq<T::V>, b: Seq<T::V>, e: T::V, name: Seq<char>)
    ensures
        entries::dropped::<T>(seq![e], name) == if T::goes_by(e, name) {
            Seq::<T::V>::empty()
        } else {
            seq![e]
        },
        entries::dropped::<T>(a + b, name) == entries::dropped::<T>(a, name) + entries::dropped::<T>(b, name),
        entries::dropped::<T>(Seq::<T::V>::empty(), name) == Seq::<T::V>::empty(),
{
    reveal(Seq::filter);
    let keep = |x: T::V| !T::goes_by(x, name);
    let one = seq![e];
    assert(one.drop_last() =~= Seq::<T::V>::empty());
    assert(Seq::<T::V>::empty().filter(keep) =~= Seq::<T::V>::empty());
    assert(entries::dropped::<T>(one, name) =~= if T::goes_by(e, name) {
        Seq::<T::V>::empty()
    } else {
        seq![e]
    });
    Seq::filter_distributes_over_add(a, b, keep);
}

/// Where there is no list, none comes of dropping an entry.
pub proof fn lemma_drop_from_list<T: Entry>(list: Option<Seq<T::V>>, name: Seq<char>)
    ensures
        list is None ==> install::without::<T>(list, name) is None,
        list is Some ==> install::without::<T>(list, name) == Some(entries::dropped::<T>(list->0, name)),
{
}

/// A port that is set has that number and protocol, and keeps the rest; ports by other names stay as they are.
pub proof fn lemma_port(
    ports: Option<Seq<ContainerPortModel>>,
    name: Seq<char>,
    number: i32,
    protocol: Seq<char>,
    other: Seq<char>,
)
    requires
        other != name,
    ensures
        ({
            let after = install::with_port(ports, name, number, protocol)->0;
            let port = entries::entry::<ContainerPort>(after, name);
            let was_there = ports is Some && entries::holds::<ContainerPort>(ports->0, name);
            let before = entries::entry::<ContainerPort>(ports->0, name);
            let other_there = ports is Some && entries::holds::<ContainerPort>(ports->0, other);
            &&& install::with_port(ports, name, number, protocol) is Some
            &&& entries::holds::<ContainerPort>(after, name)
            &&& port.name == Some(name)
            &&& port.container_port == number
            &&& port.protocol == Some(protocol)
            &&& was_there ==> port.host_ip == before.host_ip && port.host_port == before.host_port
            &&& !was_there ==> port.host_ip is None && port.host_port is None
            &&& ports is None ==> after.len() == 1
            &&& entries::holds::<ContainerPort>(after, other) <==> other_there
            &&& other_there ==> entries::entry::<ContainerPort>(after, other) == entries::entry::<ContainerPort>(
                ports->0,
                other,
            )
        }),
{
    let set = |p: ContainerPortModel| install::port_set(p, number, protocol);
    let start = install::or_empty(ports);
    entries::lemma_position::<ContainerPort>(start, name);
    entries::lemma_applied::<ContainerPort>(start, name, set);
    entries::lemma_applied_other::<ContainerPort>(start, name, set, other);
    entries::lemma_position::<ContainerPort>(start, other);
}

/// A volume that is mounted is mounted whole at that path; mounts of other volumes stay as they are.
pub proof fn lemma_mount(
    mounts: Option<Seq<VolumeMountModel>>,
    name: Seq<char>,
    path: Seq<char>,
    read_only: bool,
    other: Seq<char>,
)
    requires
        other != name,
    ensures
        ({
            let after = install::with_mount(mounts, name, path, read_only)->0;
            let mount = entries::entry::<VolumeMount>(after, name);
            let other_there = mounts is Some && entries::holds::<VolumeMount>(mounts->0, other);
            &&& install::with_mount(mounts, name, path, read_only) is Some
            &&& entries::holds::<VolumeMount>(after, name)
            &&& mount.name == name
            &&& mount.mount_path == path
            &&& mount.read_only == Some(read_only)
            &&& mount.mount_propagation is None
            &&& mount.sub_path is None
            &&& mount.sub_path_expr is None
            &&& mounts is None ==> after.len() == 1
            &&& entries::holds::<VolumeMount>(after, other) <==> other_there
            &&& other_there ==> entries::entry::<VolumeMount>(after, other) == entries::entry::<VolumeMount>(
                mounts->0,
                other,
            )
        }),
{
    let set = |m: VolumeMountModel| install::mount_set(m, path, read_only);
    let start = install::or_empty(mounts);
    entries::lemma_position::<VolumeMount>(start, name);
    entries::lemma_applied::<VolumeMount>(start, name, set);
    entries::lemma_applied_other::<VolumeMount>(start, name, set, other);
    entries::lemma_position::<VolumeMount>(start, other);
}

/// A volume that is filled from a config map, a claim or nothing says so, and keeps what else it says; other volumes
/// stay as they are.
pub proof fn lemma_volume(
    volumes: Option<Seq<VolumeModel>>,
    name: Seq<char>,
    source: Seq<char>,
    mode: Option<i32>,
    other: Seq<char>,
)
    requires
        other != name,
    ensures
        ({
            let a = install::with_config_map(volumes, name, source, mode)->0;
            let b = install::with_claim(volumes, name, source)->0;
            let c = install::with_empty_dir(volumes, name)->0;
            let x = entries::entry::<Volume>(a, name);
            let y = entries::entry::<Volume>(b, name);
            let z = entries::entry::<Volume>(c, name);
            let was_there = volumes is Some && entries::holds::<Volume>(volumes->0, name);
            let before = if was_there {
                entries::entry::<Volume>(volumes->0, name)
            } else {
                Volume::blank_entry(name)
            };
            let other_there = volumes is Some && entries::holds::<Volume>(volumes->0, other);
            &&& entries::holds::<Volume>(a, name)
            &&& x.name == name
            &&& x.config_map is Some
            &&& x.config_map->0.name == Some(source)
            &&& x.config_map->0.default_mode == mode
            &&& x.config_map->0.rest is None
            &&& x.persistent_volume_claim == before.persistent_volume_claim
            &&& x.empty_dir == before.empty_dir
            &&& x.rest == before.rest
            &&& entries::holds::<Volume>(b, name)
            &&& y.name == name
            &&& y.persistent_volume_claim is Some
            &&& y.persistent_volume_claim->0.claim_name == source
            &&& y.persistent_volume_claim->0.read_only is None
            &&& y.config_map == before.config_map
            &&& y.empty_dir == before.empty_dir
            &&& y.rest == before.rest
            &&& entries::holds::<Volume>(c, name)
            &&& z.name == name
            &&& z.empty_dir is Some
            &&& z.empty_dir->0.medium is None
            &&& z.empty_dir->0.size_limit is None
            &&& z.config_map == before.config_map
            &&& z.persistent_volume_claim == before.persistent_volume_claim
            &&& z.rest == before.rest
            &&& entries::holds::<Volume>(a, other) <==> other_there
            &&& entries::holds::<Volume>(b, other) <==> other_there
            &&& entries::holds::<Volume>(c, other) <==> other_there
            &&& other_there ==> entries::entry::<Volume>(a, other) == entries::entry::<Volume>(volumes->0, other)
            &&& other_there ==> entries::entry::<Volume>(b, other) == entries::entry::<Volume>(volumes->0, other)
            &&& other_there ==> entries::entry::<Volume>(c, other) == entries::entry::<Volume>(volumes->0, other)
        }),
{
    let map = |v: VolumeModel| install::from_config_map(v, source, mode);
    let claim = |v: VolumeModel| install::from_claim(v, source);
    let nothing = |v: VolumeModel| install::from_nothing(v);
    let start = install::or_empty(volumes);
    entries::lemma_position::<Volume>(start, name);
    entries::lemma_position::<Volume>(start, other);
    entries::lemma_applied::<Volume>(start, name, map);
    entries::lemma_applied::<Volume>(start, name, claim);
    entries::lemma_applied::<Volume>(start, name, nothing);
    entries::lemma_applied_other::<Volume>(start, name, map, other);
    entries::lemma_applied_other::<Volume>(start, name, claim, other);
    entries::lemma_applied_other::<Volume>(start, name, nothing, other);
}

/// A variable that is set has just the value, or the source of its value, that is asked for; other variables stay as
/// they are.
pub proof fn lemma_variable(env: Seq<EnvVarModel>, variable: EnvVarModel, other: Seq<char>)
    requires
        other != variable.name,
    ensures
        ({
            let after = install::with_env(env, variable);
            &&& entries::holds::<EnvVar>(after, variable.name)
            &&& entries::entry::<EnvVar>(after, variable.name).name == variable.name
            &&& entries::entry::<EnvVar>(after, variable.name).value == variable.value
            &&& entries::entry::<EnvVar>(after, variable.name).value_from == variable.value_from
            &&& entries::holds::<EnvVar>(after, other) <==> entries::holds::<EnvVar>(env, other)
            &&& entries::holds::<EnvVar>(env, other) ==> entries::entry::<EnvVar>(after, other) == entries::entry::<
                EnvVar,
            >(env, other)
        }),
{
    let set = |e: EnvVarModel| EnvVarModel { value: variable.value, value_from: variable.value_from, ..e };
    entries::lemma_position::<EnvVar>(env, variable.name);
    entries::lemma_applied::<EnvVar>(env, variable.name, set);
    entries::lemma_applied_other::<EnvVar>(env, variable.name, set, other);
}

/// The last of some variables to be set has its value, and so has each of them if none is set twice.
pub proof fn lemma_variables(env: Seq<EnvVarModel>, variables: Seq<EnvVarModel>, i: int)
    requires
        install::distinct(variables),
        0 <= i < variables.len(),
    ensures
        entries::holds::<EnvVar>(install::with_all(env, variables), variables[i].name),
        entries::entry::<EnvVar>(install::with_all(env, variables), variables[i].name).value == variables[i].value,
        entries::entry::<EnvVar>(install::with_all(env, variables), variables[i].name).value_from
            == variables[i].value_from,
    decreases variables.len(),
{
    let front = variables.drop_last();
    let last = variables.last();
    let before = install::with_all(env, front);
    let set = |e: EnvVarModel| EnvVarModel { value: last.value, value_from: last.value_from, ..e };
    if i == variables.len() - 1 {
        entries::lemma_applied::<EnvVar>(before, last.name, set);
    } else {
        assert(front[i] == variables[i]);
        lemma_variables(env, front, i);
        assert(variables[i].name != variables[variables.len() - 1].name);
        entries::lemma_applied_other::<EnvVar>(before, last.name, set, variables[i].name);
    }
}

/// Setting some variables leaves those by other names as they are.
pub proof fn lemma_other_variables(env: Seq<EnvVarModel>, variables: Seq<EnvVarModel>, other: Seq<char>)
    requires
        forall|i: int| 0 <= i < variables.len() ==> (#[trigger] variables[i]).name != other,
    ensures
        entries::holds::<EnvVar>(install::with_all(env, variables), other) <==> entries::holds::<EnvVar>(env, other),
        entries::holds::<EnvVar>(env, other) ==> entries::entry::<EnvVar>(install::with_all(env, variables), other)
            == entries::entry::<EnvVar>(env, other),
    decreases variables.len(),
{
    if variables.len() > 0 {
        let front = variables.drop_last();
        let last = variables.last();
        assert(variables[variables.len() - 1].name != other);
        assert forall|i: int| 0 <= i < front.len() implies (#[trigger] front[i]).name != other by {
            assert(front[i] == variables[i]);
        }
        lemma_other_variables(env, front, other);
        let before = install::with_all(env, front);
        let set = |e: EnvVarModel| EnvVarModel { value: last.value, value_from: last.value_from, ..e };
        entries::lemma_applied_other::<EnvVar>(before, last.name, set, other);
    }
}

/// The three sorts of variables: with a value, with one from a secret, and with one from the pod.
pub proof fn lemma_sorts_of_variables(name: Seq<char>, text: Seq<char>, key: Seq<char>)
    ensures
        install::env_value(name, text).name == name,
        install::env_value(name, text).value == Some(text),
        install::env_value(name, text).value_from is None,
        install::env_secret(name, text, key).name == name,
        install::env_secret(name, text, key).value is None,
        install::env_secret(name, text, key).value_from == Some(EnvVarSourceModel::SecretKey { name: text, key }),
        install::env_field(name, text).name == name,
        install::env_field(name, text).value is None,
        install::env_field(name, text).value_from == Some(EnvVarSourceModel::FieldPath { path: text }),
{
}

/// An amount that is asked for is set, one that is not is taken out, and amounts of other resources stay.
pub proof fn lemma_amounts(
    before: ResourceRequirementsModel,
    resource: Seq<char>,
    request: Option<Seq<char>>,
    limit: Option<Seq<char>>,
    other: Seq<char>,
)
    requires
        other != resource,
    ensures
        ({
            let after = install::resources_set(before, resource, request, limit);
            &&& after.requests is Some
            &&& after.limits is Some
            &&& after.requests->0.contains_key(resource) <==> request is Some
            &&& request is Some ==> after.requests->0[resource] == request->0
            &&& after.limits->0.contains_key(resource) <==> limit is Some
            &&& limit is Some ==> after.limits->0[resource] == limit->0
            &&& after.requests->0.contains_key(other) <==> before.requests is Some && before.requests->0.contains_key(
                other,
            )
            &&& before.requests is Some && before.requests->0.contains_key(other) ==> after.requests->0[other]
                == before.requests->0[other]
            &&& after.limits->0.contains_key(other) <==> before.limits is Some && before.limits->0.contains_key(other)
            &&& before.limits is Some && before.limits->0.contains_key(other) ==> after.limits->0[other]
                == before.limits->0[other]
        }),
{
}

/// A text is written under its key, and texts under other keys stay.
pub proof fn lemma_text(
    data: Option<Map<Seq<char>, Seq<char>>>,
    key: Seq<char>,
    value: Seq<char>,
    other: Seq<char>,
)
    requires
        other != key,
    ensures
        ({
            let after = install::with_text(data, key, value);
            &&& after is Some
            &&& after->0.contains_key(key)
            &&& after->0[key] == value
            &&& after->0.contains_key(other) <==> data is Some && data->0.contains_key(other)
            &&& data is Some && data->0.contains_key(other) ==> after->0[other] == data->0[other]
        }),
{
}

/// A text is filled in, in UTF-8, just where there is nothing under its key; what is under other keys stays.
pub proof fn lemma_initial(
    data: Option<Map<Seq<char>, Seq<u8>>>,
    key: Seq<char>,
    value: Seq<char>,
    other: Seq<char>,
)
    requires
        other != key,
    ensures
        ({
            let after = install::with_initial(data, key, value);
            let was_there = data is Some && data->0.contains_key(key);
            &&& after is Some
            &&& after->0.contains_key(key)
            &&& was_there ==> after->0[key] == data->0[key]
            &&& !was_there ==> after->0[key] == encode_utf8(value)
            &&& after->0.contains_key(other) <==> data is Some && data->0.contains_key(other)
            &&& data is Some && data->0.contains_key(other) ==> after->0[other] == data->0[other]
        }),
{
}

} // verus!
