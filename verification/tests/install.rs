use hawkbit_operator::install::{
    add_claim, add_config_map, add_empty_dir, add_env, add_env_from_field_path, add_env_from_secret, add_mount,
    add_port, append_string, drop_entry, init_string, set_resources,
};
use hawkbit_operator::objects::pod::{ContainerPort, EnvVar, EnvVarSource, Volume, VolumeMount};
use hawkbit_operator::objects::storage::ResourceRequirements;
use hawkbit_operator::text_map::TextMap;

#[test]
fn a_port_is_added_or_changed_in_place() {
    let mut ports: Option<Vec<ContainerPort>> = None;
    add_port(&mut ports, "http", 80, "UDP");
    add_port(&mut ports, "other", 81, "TCP");
    if let Some(ports) = &mut ports {
        ports[0].host_port = Some(7);
        ports.insert(0, ContainerPort::default());
    }
    add_port(&mut ports, "http", 8080, "TCP");
    let ports = ports.unwrap();
    assert_eq!(ports.len(), 3);
    assert_eq!(ports[0].name, None);
    assert_eq!(ports[1].name, Some("http".to_string()));
    assert_eq!(ports[1].container_port, 8080);
    assert_eq!(ports[1].protocol, Some("TCP".to_string()));
    assert_eq!(ports[1].host_port, Some(7));
    assert_eq!(ports[2].container_port, 81);
}

#[test]
fn a_mount_loses_its_finer_points() {
    let mut mounts = Some(vec![VolumeMount {
        name: "config".to_string(),
        mount_path: "/old".to_string(),
        sub_path: Some("x".to_string()),
        sub_path_expr: Some("y".to_string()),
        mount_propagation: Some("None".to_string()),
        ..VolumeMount::default()
    }]);
    add_mount(&mut mounts, "config", "/new", true);
    add_mount(&mut mounts, "storage", "/data", false);
    let mounts = mounts.unwrap();
    assert_eq!(mounts.len(), 2);
    assert_eq!(
        mounts[0],
        VolumeMount {
            name: "config".to_string(),
            mount_path: "/new".to_string(),
            read_only: Some(true),
            ..VolumeMount::default()
        }
    );
    assert_eq!(mounts[1].read_only, Some(false));
}

#[test]
fn entries_are_dropped_by_name() {
    let mut none: Option<Vec<VolumeMount>> = None;
    drop_entry(&mut none, "a");
    assert_eq!(none, None);
    let mut mounts: Option<Vec<VolumeMount>> = None;
    add_mount(&mut mounts, "a", "/a", true);
    add_mount(&mut mounts, "b", "/b", true);
    if let Some(mounts) = &mut mounts {
        mounts.push(VolumeMount { name: "a".to_string(), ..VolumeMount::default() });
    }
    drop_entry(&mut mounts, "a");
    let mounts = mounts.unwrap();
    assert_eq!(mounts.len(), 1);
    assert_eq!(mounts[0].name, "b");
}

#[test]
fn volumes_are_filled() {
    let mut volumes: Option<Vec<Volume>> = None;
    add_config_map(&mut volumes, "config", "cm", Some(420));
    add_claim(&mut volumes, "storage", "claim");
    add_empty_dir(&mut volumes, "scratch");
    add_claim(&mut volumes, "config", "both");
    let volumes = volumes.unwrap();
    assert_eq!(volumes.len(), 3);
    let config = volumes[0].config_map.as_ref().unwrap();
    assert_eq!(config.name, Some("cm".to_string()));
    assert_eq!(config.default_mode, Some(420));
    assert_eq!(volumes[0].persistent_volume_claim.as_ref().unwrap().claim_name, "both");
    assert_eq!(volumes[1].persistent_volume_claim.as_ref().unwrap().claim_name, "claim");
    assert_eq!(volumes[1].persistent_volume_claim.as_ref().unwrap().read_only, None);
    assert!(volumes[2].empty_dir.is_some());
    assert!(volumes[2].config_map.is_none());
}

#[test]
fn variables_are_added() {
    let mut env: Vec<EnvVar> = vec![];
    add_env(&mut env, "A", "1");
    add_env_from_secret(&mut env, "B", "secret", "key");
    add_env_from_field_path(&mut env, "C", "status.podIP");
    assert_eq!(env[0], EnvVar { name: "A".to_string(), value: Some("1".to_string()), value_from: None });
    assert_eq!(
        env[1].value_from,
        Some(EnvVarSource::SecretKey { name: "secret".to_string(), key: "key".to_string() })
    );
    assert_eq!(env[1].value, None);
    assert_eq!(env[2].value_from, Some(EnvVarSource::FieldPath { path: "status.podIP".to_string() }));
}

#[test]
fn a_variable_that_is_there_is_changed_in_place() {
    let mut env: Vec<EnvVar> = vec![];
    add_env(&mut env, "A", "1");
    add_env(&mut env, "B", "2");
    add_env_from_secret(&mut env, "A", "secret", "key");
    add_env_from_field_path(&mut env, "B", "metadata.name");
    add_env(&mut env, "B", "3");
    assert_eq!(env.len(), 2);
    assert_eq!(env[0].name, "A");
    assert_eq!(env[0].value, None);
    assert_eq!(
        env[0].value_from,
        Some(EnvVarSource::SecretKey { name: "secret".to_string(), key: "key".to_string() })
    );
    assert_eq!(env[1], EnvVar { name: "B".to_string(), value: Some("3".to_string()), value_from: None });
}

#[test]
fn amounts_are_set_and_taken_out() {
    let mut resources = ResourceRequirements::default();
    set_resources(&mut resources, "cpu", Some("1"), Some("2"));
    set_resources(&mut resources, "storage", Some("1Gi"), None);
    let requests = resources.requests.as_ref().unwrap();
    assert_eq!(requests.get("cpu"), Some(&"1".to_string()));
    assert_eq!(requests.get("storage"), Some(&"1Gi".to_string()));
    let limits = resources.limits.as_ref().unwrap();
    assert_eq!(limits.get("cpu"), Some(&"2".to_string()));
    assert_eq!(limits.get("storage"), None);
    set_resources(&mut resources, "cpu", None, None);
    assert_eq!(resources.requests.unwrap().get("cpu"), None);
    assert_eq!(resources.limits.unwrap().get("cpu"), None);
}

#[test]
fn texts_are_written_over() {
    let mut data: Option<TextMap<String>> = None;
    append_string(&mut data, "a", "1");
    append_string(&mut data, "a", "2");
    append_string(&mut data, "b", "3");
    let data = data.unwrap();
    assert_eq!(data.get("a"), Some(&"2".to_string()));
    assert_eq!(data.get("b"), Some(&"3".to_string()));
}

#[test]
fn initial_values_do_not_overwrite() {
    let mut data: Option<TextMap<Vec<u8>>> = None;
    init_string(&mut data, "a", "\u{e9}");
    init_string(&mut data, "a", "other");
    assert_eq!(data.as_ref().unwrap().get("a"), Some(&vec![0xc3, 0xa9]));
    let mut empty = TextMap::new();
    empty.insert("a".to_string(), vec![]);
    let mut data = Some(empty);
    init_string(&mut data, "a", "x");
    assert_eq!(data.unwrap().get("a"), Some(&vec![]));
}
