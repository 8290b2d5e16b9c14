//! Changes to parts of objects: entries found by name, and the rest left as it is.

use vstd::prelude::*;
use vstd::utf8::encode_utf8;

use crate::entries;
use crate::entries::Entry;
use crate::objects::pod::{
    ConfigMapVolumeSource, ConfigMapVolumeSourceModel, Container, ContainerModel, ContainerPort,
    ContainerPortModel, EmptyDirVolumeSource, EmptyDirVolumeSourceModel, EnvVar, EnvVarModel,
    EnvVarSource, EnvVarSourceModel, PersistentVolumeClaimVolumeSource,
    PersistentVolumeClaimVolumeSourceModel, Volume, VolumeModel, VolumeMount, VolumeMountModel,
};
use crate::objects::storage::{ResourceRequirements, ResourceRequirementsModel};
use crate::order;
use crate::text_map::TextMap;

verus! {

impl Entry for Container {
    open spec fn goes_by(entry: ContainerModel, name: Seq<char>) -> bool {
        entry.name == name
    }

    open spec fn blank_entry(name: Seq<char>) -> ContainerModel {
        ContainerModel { name, ..ContainerModel::blank() }
    }

    proof fn lemma_blank_entry(name: Seq<char>) {
    }

    fn is_named(&self, name: &str) -> (r: bool) {
        order::is_same(self.name.as_str(), name)
    }

    fn named(name: &str) -> (r: Self) {
        let mut r = Container::default();
        r.name = name.to_string();
        r
    }
}

impl Entry for Volume {
    open spec fn goes_by(entry: VolumeModel, name: Seq<char>) -> bool {
        entry.name == name
    }

    open spec fn blank_entry(name: Seq<char>) -> VolumeModel {
        VolumeModel { name, ..VolumeModel::blank() }
    }

    proof fn lemma_blank_entry(name: Seq<char>) {
    }

    fn is_named(&self, name: &str) -> (r: bool) {
        order::is_same(self.name.as_str(), name)
    }

    fn named(name: &str) -> (r: Self) {
        let mut r = Volume::default();
        r.name = name.to_string();
        r
    }
}

impl Entry for VolumeMount {
    open spec fn goes_by(entry: VolumeMountModel, name: Seq<char>) -> bool {
        entry.name == name
    }

    open spec fn blank_entry(name: Seq<char>) -> VolumeMountModel {
        VolumeMountModel { name, ..VolumeMountModel::blank() }
    }

    proof fn lemma_blank_entry(name: Seq<char>) {
    }

    fn is_named(&self, name: &str) -> (r: bool) {
        order::is_same(self.name.as_str(), name)
    }

    fn named(name: &str) -> (r: Self) {
        let mut r = VolumeMount::default();
        r.name = name.to_string();
        r
    }
}

impl Entry for EnvVar {
    open spec fn goes_by(entry: EnvVarModel, name: Seq<char>) -> bool {
        entry.name == name
    }

    open spec fn blank_entry(name: Seq<char>) -> EnvVarModel {
        EnvVarModel { name, value: None, value_from: None }
    }

    proof fn lemma_blank_entry(name: Seq<char>) {
    }

    fn is_named(&self, name: &str) -> (r: bool) {
        order::is_same(self.name.as_str(), name)
    }

    fn named(name: &str) -> (r: Self) {
        EnvVar { name: name.to_string(), value: None, value_from: None }
    }
}

impl Entry for ContainerPort {
    open spec fn goes_by(entry: ContainerPortModel, name: Seq<char>) -> bool {
        entry.name == Some(name)
    }

    open spec fn blank_entry(name: Seq<char>) -> ContainerPortModel {
        ContainerPortModel { name: Some(name), ..ContainerPortModel::blank() }
    }

    proof fn lemma_blank_entry(name: Seq<char>) {
    }

    fn is_named(&self, name: &str) -> (r: bool) {
        match &self.name {
            Some(own) => order::is_same(own.as_str(), name),
            None => false,
        }
    }

    fn named(name: &str) -> (r: Self) {
        let mut r = ContainerPort::default();
        r.name = Some(name.to_string());
        r
    }
}

/// The list, or an empty one where there is none.
pub open spec fn or_empty<V>(list: Option<Seq<V>>) -> Seq<V> {
    match list {
        Some(list) => list,
        None => Seq::empty(),
    }
}

/// The map, or an empty one where there is none.
pub open spec fn or_nothing<V>(map: Option<Map<Seq<char>, V>>) -> Map<Seq<char>, V> {
    match map {
        Some(map) => map,
        None => Map::empty(),
    }
}

/// Takes the list out, or a new one where there is none.
pub fn take_list<T: DeepView>(list: &mut Option<Vec<T>>) -> (r: Vec<T>)
    ensures
        r.deep_view() == or_empty(old(list).deep_view()),
        *final(list) is None,
{
    match list.take() {
        Some(list) => list,
        None => {
            let r: Vec<T> = Vec::new();
            assert(r.deep_view() =~= Seq::empty());
            r
        },
    }
}

/// Takes the map out, or a new one where there is none.
pub fn take_map<V: DeepView>(map: &mut Option<TextMap<V>>) -> (r: TextMap<V>)
    ensures
        r.deep_view() == or_nothing(old(map).deep_view()),
        *final(map) is None,
{
    match map.take() {
        Some(map) => map,
        None => TextMap::new(),
    }
}

/// The port with a number and protocol.
pub open spec fn port_set(port: ContainerPortModel, number: i32, protocol: Seq<char>) -> ContainerPortModel {
    ContainerPortModel { container_port: number, protocol: Some(protocol), ..port }
}

/// The ports with the one of that name set.
pub open spec fn with_port(
    ports: Option<Seq<ContainerPortModel>>,
    name: Seq<char>,
    number: i32,
    protocol: Seq<char>,
) -> Option<Seq<ContainerPortModel>> {
    Some(
        entries::applied::<ContainerPort>(
            or_empty(ports),
            name,
            |p: ContainerPortModel| port_set(p, number, protocol),
        ),
    )
}

/// Sets the port of that name.
pub fn add_port(ports: &mut Option<Vec<ContainerPort>>, name: &str, number: i32, protocol: &str)
    ensures
        final(ports).deep_view() == with_port(old(ports).deep_view(), name@, number, protocol@),
{
    let mut list = take_list(ports);
    let ghost start = list.deep_view();
    let at = entries::find_or_add(&mut list, name);
    let ghost before = list.deep_view();
    let port = &mut list[at];
    port.container_port = number;
    port.protocol = Some(protocol.to_string());
    assert(list.deep_view() =~= before.update(at as int, port_set(before[at as int], number, protocol@)));
    assert(list.deep_view() =~= with_port(Some(start), name@, number, protocol@)->0);
    *ports = Some(list);
}

/// The mount at a path, without the finer points.
pub open spec fn mount_set(mount: VolumeMountModel, path: Seq<char>, read_only: bool) -> VolumeMountModel {
    VolumeMountModel {
        mount_path: path,
        read_only: Some(read_only),
        mount_propagation: None,
        sub_path: None,
        sub_path_expr: None,
        ..mount
    }
}

/// The mounts with the one of that volume set.
pub open spec fn with_mount(
    mounts: Option<Seq<VolumeMountModel>>,
    name: Seq<char>,
    path: Seq<char>,
    read_only: bool,
) -> Option<Seq<VolumeMountModel>> {
    Some(
        entries::applied::<VolumeMount>(
            or_empty(mounts),
            name,
            |m: VolumeMountModel| mount_set(m, path, read_only),
        ),
    )
}

/// Mounts the volume of that name at a path.
pub fn add_mount(mounts: &mut Option<Vec<VolumeMount>>, name: &str, path: &str, read_only: bool)
    ensures
        final(mounts).deep_view() == with_mount(old(mounts).deep_view(), name@, path@, read_only),
{
    let mut list = take_list(mounts);
    let ghost start = list.deep_view();
    let at = entries::find_or_add(&mut list, name);
    let ghost before = list.deep_view();
    let mount = &mut list[at];
    mount.mount_path = path.to_string();
    mount.read_only = Some(read_only);
    mount.mount_propagation = None;
    mount.sub_path = None;
    mount.sub_path_expr = None;
    assert(list.deep_view() =~= before.update(at as int, mount_set(before[at as int], path@, read_only)));
    assert(list.deep_view() =~= with_mount(Some(start), name@, path@, read_only)->0);
    *mounts = Some(list);
}

/// The list, where there is one, without the entries of that name.
pub open spec fn without<T: Entry>(list: Option<Seq<T::V>>, name: Seq<char>) -> Option<Seq<T::V>> {
    match list {
        Some(list) => Some(entries::dropped::<T>(list, name)),
        None => None,
    }
}

/// Drops the entries of that name, where there is a list.
pub fn drop_entry<T: Entry>(list: &mut Option<Vec<T>>, name: &str)
    ensures
        final(list).deep_view() == without::<T>(old(list).deep_view(), name@),
{
    match list.take() {
        Some(all) => {
            *list = Some(entries::drop_named(all, name));
        },
        None => {
            *list = None;
        },
    }
}

/// The volume, filled from a config map.
pub open spec fn from_config_map(volume: VolumeModel, name: Seq<char>, mode: Option<i32>) -> VolumeModel {
    VolumeModel {
        config_map: Some(
            ConfigMapVolumeSourceModel {
                name: Some(name),
                default_mode: mode,
                rest: None,
            },
        ),
        ..volume
    }
}

/// The volume, filled from a claim.
pub open spec fn from_claim(volume: VolumeModel, claim: Seq<char>) -> VolumeModel {
    VolumeModel {
        persistent_volume_claim: Some(
            PersistentVolumeClaimVolumeSourceModel { claim_name: claim, read_only: None },
        ),
        ..volume
    }
}

/// The volume as an empty directory.
pub open spec fn from_nothing(volume: VolumeModel) -> VolumeModel {
    VolumeModel { empty_dir: Some(EmptyDirVolumeSourceModel { medium: None, size_limit: None }), ..volume }
}

/// The volumes with the one of that name filled from a config map.
pub open spec fn with_config_map(
    volumes: Option<Seq<VolumeModel>>,
    name: Seq<char>,
    config_map: Seq<char>,
    mode: Option<i32>,
) -> Option<Seq<VolumeModel>> {
    Some(
        entries::applied::<Volume>(or_empty(volumes), name, |v: VolumeModel| from_config_map(v, config_map, mode)),
    )
}

/// The volumes with the one of that name filled from a claim.
pub open spec fn with_claim(
    volumes: Option<Seq<VolumeModel>>,
    name: Seq<char>,
    claim: Seq<char>,
) -> Option<Seq<VolumeModel>> {
    Some(entries::applied::<Volume>(or_empty(volumes), name, |v: VolumeModel| from_claim(v, claim)))
}

/// The volumes with the one of that name an empty directory.
pub open spec fn with_empty_dir(volumes: Option<Seq<VolumeModel>>, name: Seq<char>) -> Option<Seq<VolumeModel>> {
    Some(entries::applied::<Volume>(or_empty(volumes), name, |v: VolumeModel| from_nothing(v)))
}

/// Fills the volume of that name from a config map.
pub fn add_config_map(volumes: &mut Option<Vec<Volume>>, name: &str, config_map: &str, mode: Option<i32>)
    ensures
        final(volumes).deep_view() == with_config_map(old(volumes).deep_view(), name@, config_map@, mode),
{
    let mut list = take_list(volumes);
    let ghost start = list.deep_view();
    let at = entries::find_or_add(&mut list, name);
    let ghost before = list.deep_view();
    let volume = &mut list[at];
    volume.config_map =
    Some(ConfigMapVolumeSource { name: Some(config_map.to_string()), default_mode: mode, rest: None });
    assert(list.deep_view() =~= before.update(at as int, from_config_map(before[at as int], config_map@, mode)));
    assert(list.deep_view() =~= with_config_map(Some(start), name@, config_map@, mode)->0);
    *volumes = Some(list);
}

/// Fills the volume of that name from a claim.
pub fn add_claim(volumes: &mut Option<Vec<Volume>>, name: &str, claim: &str)
    ensures
        final(volumes).deep_view() == with_claim(old(volumes).deep_view(), name@, claim@),
{
    let mut list = take_list(volumes);
    let ghost start = list.deep_view();
    let at = entries::find_or_add(&mut list, name);
    let ghost before = list.deep_view();
    let volume = &mut list[at];
    volume.persistent_volume_claim =
    Some(PersistentVolumeClaimVolumeSource { claim_name: claim.to_string(), read_only: None });
    assert(list.deep_view() =~= before.update(at as int, from_claim(before[at as int], claim@)));
    assert(list.deep_view() =~= with_claim(Some(start), name@, claim@)->0);
    *volumes = Some(list);
}

/// Makes the volume of that name an empty directory.
pub fn add_empty_dir(volumes: &mut Option<Vec<Volume>>, name: &str)
    ensures
        final(volumes).deep_view() == with_empty_dir(old(volumes).deep_view(), name@),
{
    let mut list = take_list(volumes);
    let ghost start = list.deep_view();
    let at = entries::find_or_add(&mut list, name);
    let ghost before = list.deep_view();
    let volume = &mut list[at];
    volume.empty_dir = Some(EmptyDirVolumeSource { medium: None, size_limit: None });
    assert(list.deep_view() =~= before.update(at as int, from_nothing(before[at as int])));
    assert(list.deep_view() =~= with_empty_dir(Some(start), name@)->0);
    *volumes = Some(list);
}

/// An environment variable with a value of its own.
pub open spec fn env_value(name: Seq<char>, value: Seq<char>) -> EnvVarModel {
    EnvVarModel { name, value: Some(value), value_from: None }
}

/// An environment variable that takes its value from a field of a secret.
pub open spec fn env_secret(name: Seq<char>, secret: Seq<char>, key: Seq<char>) -> EnvVarModel {
    EnvVarModel { name, value: None, value_from: Some(EnvVarSourceModel::SecretKey { name: secret, key }) }
}

/// An environment variable that takes its value from a field of its pod.
pub open spec fn env_field(name: Seq<char>, path: Seq<char>) -> EnvVarModel {
    EnvVarModel { name, value: None, value_from: Some(EnvVarSourceModel::FieldPath { path }) }
}

/// The environment with a variable set: the first of that name, else a new one at the end.
pub open spec fn with_env(env: Seq<EnvVarModel>, variable: EnvVarModel) -> Seq<EnvVarModel> {
    entries::applied::<EnvVar>(
        env,
        variable.name,
        |e: EnvVarModel| EnvVarModel { value: variable.value, value_from: variable.value_from, ..e },
    )
}

/// The environment with all of the variables set, one after the other.
pub open spec fn with_all(env: Seq<EnvVarModel>, variables: Seq<EnvVarModel>) -> Seq<EnvVarModel>
    decreases variables.len(),
{
    if variables.len() == 0 {
        env
    } else {
        with_env(with_all(env, variables.drop_last()), variables.last())
    }
}

/// No variable is set twice.
pub open spec fn distinct(env: Seq<EnvVarModel>) -> bool {
    forall|i: int, j: int| 0 <= i < j < env.len() ==> (#[trigger] env[i]).name != (#[trigger] env[j]).name
}

/// The environment after the first few of the variables, and after one more.
pub proof fn lemma_with_next(env: Seq<EnvVarModel>, variables: Seq<EnvVarModel>, k: int)
    requires
        0 <= k < variables.len(),
    ensures
        with_all(env, variables.take(0)) == env,
        with_all(env, variables.take(k + 1)) == with_env(with_all(env, variables.take(k)), variables[k]),
        k + 1 == variables.len() ==> with_all(env, variables.take(k + 1)) == with_all(env, variables),
{
    assert(variables.take(k + 1).drop_last() =~= variables.take(k));
    assert(variables.take(variables.len() as int) =~= variables);
}

/// Setting some variables after others is setting all of them.
pub proof fn lemma_with_more(env: Seq<EnvVarModel>, variables: Seq<EnvVarModel>, more: Seq<EnvVarModel>)
    ensures
        with_all(with_all(env, variables), more) == with_all(env, variables + more),
    decreases more.len(),
{
    if more.len() == 0 {
        assert(variables + more =~= variables);
    } else {
        lemma_with_more(env, variables, more.drop_last());
        assert((variables + more).drop_last() =~= variables + more.drop_last());
    }
}

/// Variables of which none is set twice make up an environment, as they are.
pub proof fn lemma_from_nothing(variables: Seq<EnvVarModel>)
    requires
        distinct(variables),
    ensures
        with_all(Seq::empty(), variables) == variables,
    decreases variables.len(),
{
    if variables.len() == 0 {
        assert(variables =~= Seq::empty());
    } else {
        let front = variables.drop_last();
        let last = variables.last();
        lemma_from_nothing(front);
        assert forall|i: int| 0 <= i < front.len() implies !EnvVar::goes_by(#[trigger] front[i], last.name) by {
            assert(front[i] == variables[i]);
        }
        entries::lemma_position_is::<EnvVar>(front, last.name, front.len() as int);
        assert(with_env(front, last) =~= variables);
    }
}

fn set_env(env: &mut Vec<EnvVar>, name: &str, value: Option<String>, value_from: Option<EnvVarSource>)
    ensures
        final(env).deep_view() == with_env(
            old(env).deep_view(),
            EnvVarModel { name: name@, value: value.deep_view(), value_from: value_from.deep_view() },
        ),
{
    let ghost start = env.deep_view();
    let ghost set = EnvVarModel { name: name@, value: value.deep_view(), value_from: value_from.deep_view() };
    let at = entries::find_or_add(env, name);
    let ghost before = env.deep_view();
    let variable = &mut env[at];
    variable.value = value;
    variable.value_from = value_from;
    assert(env.deep_view() =~= before.update(
        at as int,
        EnvVarModel { value: set.value, value_from: set.value_from, ..before[at as int] },
    ));
    assert(env.deep_view() =~= with_env(start, set));
}

/// Sets a variable to a value of its own.
pub fn add_env(env: &mut Vec<EnvVar>, name: &str, value: &str)
    ensures
        final(env).deep_view() == with_env(old(env).deep_view(), env_value(name@, value@)),
{
    set_env(env, name, Some(value.to_string()), None);
}

/// Has a variable take its value from a field of a secret.
pub fn add_env_from_secret(env: &mut Vec<EnvVar>, name: &str, secret: &str, key: &str)
    ensures
        final(env).deep_view() == with_env(old(env).deep_view(), env_secret(name@, secret@, key@)),
{
    set_env(env, name, None, Some(EnvVarSource::SecretKey { name: secret.to_string(), key: key.to_string() }));
}

/// Has a variable take its value from a field of its pod.
pub fn add_env_from_field_path(env: &mut Vec<EnvVar>, name: &str, path: &str)
    ensures
        final(env).deep_view() == with_env(old(env).deep_view(), env_field(name@, path@)),
{
    set_env(env, name, None, Some(EnvVarSource::FieldPath { path: path.to_string() }));
}

/// The amounts with the one of a resource set, or taken out.
pub open spec fn with_amount(
    amounts: Option<Map<Seq<char>, Seq<char>>>,
    resource: Seq<char>,
    amount: Option<Seq<char>>,
) -> Option<Map<Seq<char>, Seq<char>>> {
    match amount {
        Some(amount) => Some(or_nothing(amounts).insert(resource, amount)),
        None => Some(or_nothing(amounts).remove(resource)),
    }
}

fn set_amount(amounts: &mut Option<TextMap<String>>, resource: &str, amount: Option<&str>)
    ensures
        final(amounts).deep_view() == with_amount(
            old(amounts).deep_view(),
            resource@,
            match amount {
                Some(amount) => Some(amount@),
                None => None,
            },
        ),
{
    let mut map = take_map(amounts);
    match amount {
        Some(amount) => map.insert(resource.to_string(), amount.to_string()),
        None => map.remove(resource),
    }
    *amounts = Some(map);
}

/// The requirements with request and limit of a resource set.
pub open spec fn resources_set(
    resources: ResourceRequirementsModel,
    resource: Seq<char>,
    request: Option<Seq<char>>,
    limit: Option<Seq<char>>,
) -> ResourceRequirementsModel {
    ResourceRequirementsModel {
        requests: with_amount(resources.requests, resource, request),
        limits: with_amount(resources.limits, resource, limit),
    }
}

/// Sets request and limit of a resource.
pub fn set_resources(
    resources: &mut ResourceRequirements,
    resource: &str,
    request: Option<&str>,
    limit: Option<&str>,
)
    ensures
        final(resources).deep_view() == resources_set(
            old(resources).deep_view(),
            resource@,
            match request {
                Some(request) => Some(request@),
                None => None,
            },
            match limit {
                Some(limit) => Some(limit@),
                None => None,
            },
        ),
{
    set_amount(&mut resources.requests, resource, request);
    set_amount(&mut resources.limits, resource, limit);
}

/// The texts with the one of a key written.
pub open spec fn with_text(
    data: Option<Map<Seq<char>, Seq<char>>>,
    key: Seq<char>,
    value: Seq<char>,
) -> Option<Map<Seq<char>, Seq<char>>> {
    Some(or_nothing(data).insert(key, value))
}

/// Writes a text under a key.
pub fn append_string(data: &mut Option<TextMap<String>>, key: &str, value: &str)
    ensures
        final(data).deep_view() == with_text(old(data).deep_view(), key@, value@),
{
    let mut map = take_map(data);
    map.insert(key.to_string(), value.to_string());
    *data = Some(map);
}

/// The data with a text under a key that has nothing yet.
pub open spec fn with_initial(
    data: Option<Map<Seq<char>, Seq<u8>>>,
    key: Seq<char>,
    value: Seq<char>,
) -> Option<Map<Seq<char>, Seq<u8>>> {
    let map = or_nothing(data);
    Some(
        if map.contains_key(key) {
            map
        } else {
            map.insert(key, encode_utf8(value))
        },
    )
}

/// Writes a text under a key that has nothing yet.
pub fn init_string(data: &mut Option<TextMap<Vec<u8>>>, key: &str, value: &str)
    ensures
        final(data).deep_view() == with_initial(old(data).deep_view(), key@, value@),
{
    let mut map = take_map(data);
    assert(map.deep_view().contains_key(key@) == map@.contains_key(key@));
    if map.get(key).is_none() {
        let bytes = value.as_bytes_vec();
        assert(bytes.deep_view() =~= bytes@);
        map.insert(key.to_string(), bytes);
    }
    *data = Some(map);
}

} // verus!
