use containerd_mcp::container::{
    container_config_with_token, container_metadata_with_token, default_container_config,
    default_container_metadata, default_image_spec, merge_container_config,
    parse_container_config, parse_container_config_from_map, parse_container_metadata,
    parse_image_spec, parse_key_values, resolve_container_config, strict_container_config,
    strict_image_spec,
};
use containerd_mcp::json::{Json, JsonNumber};

fn value(text: &str) -> serde_json::Value {
    serde_json::from_str(text).unwrap()
}

fn text(value: &str) -> Json {
    Json::Str(value.to_string())
}

fn num(value: u64) -> Json {
    Json::Number(JsonNumber::PosInt(value))
}

fn object(members: Vec<(&str, Json)>) -> Json {
    Json::Object(members.into_iter().map(|(k, v)| (k.to_string(), v)).collect())
}

fn array(items: Vec<Json>) -> Json {
    Json::Array(items)
}

fn strings(items: &[&str]) -> Vec<String> {
    items.iter().map(|s| s.to_string()).collect()
}

fn is_generated_name(name: &str) -> bool {
    name.len() == 18
        && name.starts_with("container-")
        && name[10..].chars().all(|c| c.is_ascii_digit() || ('a'..='f').contains(&c))
}

fn full_container_array(stdin: bool) -> Json {
    array(vec![
        object(vec![("name", text("app")), ("attempt", num(1))]),
        object(vec![
            ("image", text("redis:7")),
            ("annotations", object(vec![("k", text("v"))])),
            ("runtime_handler", text("runc")),
            ("user_specified_image", text("redis")),
        ]),
        array(vec![text("redis-server")]),
        array(vec![text("--port"), text("6379")]),
        text("/data"),
        array(vec![object(vec![("key", text("A")), ("value", text("1"))])]),
        array(vec![object(vec![("container_path", text("/data"))])]),
        array(vec![object(vec![("host_path", text("/dev/null"))])]),
        object(vec![("app", text("redis"))]),
        object(vec![("note", text("x"))]),
        text("redis/0.log"),
        Json::Bool(stdin),
        Json::Bool(false),
        Json::Bool(true),
        object(vec![("resources", Json::Null)]),
        object(vec![("resources", Json::Null)]),
        array(vec![object(vec![("name", text("vendor.com/gpu=0"))])]),
    ])
}

#[test]
fn default_container_has_documented_values() {
    let config = default_container_config();
    let metadata = config.metadata.unwrap();
    assert!(is_generated_name(&metadata.name));
    assert_eq!(metadata.attempt, 0);
    let image = config.image.unwrap();
    assert_eq!(image.image, "nginx:latest");
    assert!(image.annotations.is_empty());
    assert_eq!(image.runtime_handler, "");
    assert_eq!(image.user_specified_image, "");
    assert!(config.command.is_empty());
    assert!(config.args.is_empty());
    assert_eq!(config.working_dir, "/");
    assert!(config.envs.is_empty());
    assert!(config.mounts.is_empty());
    assert!(config.devices.is_empty());
    assert!(config.labels.is_empty());
    assert!(config.annotations.is_empty());
    assert_eq!(config.log_path, "container.log");
    assert!(!config.stdin);
    assert!(!config.stdin_once);
    assert!(!config.tty);
    assert!(config.linux.is_none());
    assert!(config.windows.is_none());
    assert!(config.cdi_devices.is_empty());
}

#[test]
fn container_name_takes_eight_characters_of_the_token() {
    let metadata = container_metadata_with_token("0123456789abcdef");
    assert_eq!(metadata.name, "container-01234567");
    assert_eq!(container_metadata_with_token("abc").name, "container-abc");
    assert_eq!(container_metadata_with_token("").name, "container-");
    assert_eq!(container_metadata_with_token("12345678").name, "container-12345678");
}

#[test]
fn default_container_metadata_draws_fresh_names() {
    let first = default_container_metadata();
    let second = default_container_metadata();
    assert!(is_generated_name(&first.name));
    assert_ne!(first.name, second.name);
}

#[test]
fn container_end_to_end_with_image_object() {
    let config = parse_container_config(value("{\"image\":{\"image\":\"busybox:latest\"}}"));
    assert_eq!(config.image.unwrap().image, "busybox:latest");
    assert_eq!(config.working_dir, "/");
    assert_eq!(config.command, Vec::<String>::new());
    assert!(!config.stdin);
}

#[test]
fn container_end_to_end_with_image_string() {
    let config = parse_container_config(value("{\"image\":\"nginx:1.21\"}"));
    let image = config.image.unwrap();
    assert_eq!(image.image, "nginx:1.21");
    assert!(image.annotations.is_empty());
    assert_eq!(image.runtime_handler, "");
    assert_eq!(image.user_specified_image, "");
}

#[test]
fn image_object_falls_back_to_default_subfields() {
    let image = parse_image_spec(&object(vec![
        ("runtime_handler", text("kata")),
        ("annotations", object(vec![("a", text("b"))])),
    ]));
    assert_eq!(image.image, "nginx:latest");
    assert_eq!(image.runtime_handler, "kata");
    assert_eq!(image.annotations.get("a").unwrap(), "b");
    assert_eq!(default_image_spec().image, "nginx:latest");
}

#[test]
fn image_of_wrong_shape_is_ignored() {
    let config = parse_container_config(value("{\"image\":3}"));
    assert_eq!(config.image.unwrap().image, "nginx:latest");
}

#[test]
fn container_lists_are_replaced_not_merged() {
    let mut config = container_config_with_token("00000000");
    config.command = strings(&["old"]);
    config.args = strings(&["kept"]);
    let doc = object(vec![
        ("command", array(vec![text("sh"), text("-c")])),
        ("args", array(vec![text("x"), num(1)])),
        ("envs", array(vec![object(vec![("key", text("A")), ("value", text("1"))])])),
        ("mounts", array(vec![object(vec![("container_path", text("/data"))])])),
        ("devices", array(vec![text("not a descriptor")])),
        ("cdi_devices", array(vec![object(vec![("name", text("gpu"))])])),
    ]);
    parse_container_config_from_map(&mut config, &doc);
    assert_eq!(config.command, strings(&["sh", "-c"]));
    assert_eq!(config.args, strings(&["kept"]));
    assert_eq!(config.envs.len(), 1);
    assert_eq!(config.envs[0].key, "A");
    assert_eq!(config.envs[0].value, "1");
    assert_eq!(config.mounts.len(), 1);
    assert!(config.devices.is_empty());
    assert_eq!(config.cdi_devices.len(), 1);
}

#[test]
fn container_empty_list_in_input_replaces_the_list() {
    let mut config = container_config_with_token("00000000");
    config.command = strings(&["old"]);
    parse_container_config_from_map(&mut config, &object(vec![("command", array(vec![]))]));
    assert!(config.command.is_empty());
}

#[test]
fn container_scalars_and_flags_overwrite_when_well_typed() {
    let config = parse_container_config(value(
        "{\"working_dir\":\"/app\",\"log_path\":\"app/0.log\",\"stdin\":true,\"stdin_once\":\"true\",\"tty\":true}",
    ));
    assert_eq!(config.working_dir, "/app");
    assert_eq!(config.log_path, "app/0.log");
    assert!(config.stdin);
    assert!(!config.stdin_once);
    assert!(config.tty);
}

#[test]
fn container_labels_are_united_with_input_winning() {
    let mut config = container_config_with_token("00000000");
    config.labels.insert("a".to_string(), "1".to_string());
    config.labels.insert("b".to_string(), "2".to_string());
    let doc = object(vec![("labels", object(vec![("b", text("3")), ("c", text("4"))]))]);
    parse_container_config_from_map(&mut config, &doc);
    assert_eq!(config.labels.len(), 3);
    assert_eq!(config.labels.get("a").unwrap(), "1");
    assert_eq!(config.labels.get("b").unwrap(), "3");
    assert_eq!(config.labels.get("c").unwrap(), "4");
}

#[test]
fn container_metadata_name_in_input_is_kept() {
    let config = resolve_container_config(
        &object(vec![("metadata", object(vec![("name", text("my-container"))]))]),
        "aaaaaaaa-0000",
        "bbbbbbbb-0000",
    );
    let metadata = config.metadata.unwrap();
    assert_eq!(metadata.name, "my-container");
    assert_eq!(metadata.attempt, 0);
    let config = resolve_container_config(
        &object(vec![("metadata", object(vec![("attempt", num(2))]))]),
        "aaaaaaaa-0000",
        "bbbbbbbb-0000",
    );
    let metadata = config.metadata.unwrap();
    assert_eq!(metadata.name, "container-bbbbbbbb");
    assert_eq!(metadata.attempt, 2);
    let config = resolve_container_config(&object(vec![]), "aaaaaaaa-0000", "bbbbbbbb-0000");
    assert_eq!(config.metadata.unwrap().name, "container-aaaaaaaa");
}

#[test]
fn two_container_resolutions_get_different_names() {
    let first = parse_container_config(value("{}")).metadata.unwrap().name;
    let second = parse_container_config(value("{}")).metadata.unwrap().name;
    assert!(is_generated_name(&first));
    assert_ne!(first, second);
    let third = parse_container_metadata(&object(vec![])).name;
    assert!(is_generated_name(&third));
}

#[test]
fn key_values_need_key_and_value() {
    let good = array(vec![object(vec![("key", text("A")), ("value", text("1"))])]);
    let pairs = parse_key_values(&good).unwrap();
    assert_eq!(pairs.len(), 1);
    assert_eq!(pairs[0].key, "A");
    let bad = array(vec![object(vec![("key", text("A"))])]);
    assert!(parse_key_values(&bad).is_none());
    let positional = array(vec![array(vec![text("A"), text("1")])]);
    assert_eq!(parse_key_values(&positional).unwrap()[0].value, "1");
}

#[test]
fn strict_image_needs_every_field() {
    assert!(strict_image_spec(&object(vec![("image", text("a"))])).is_none());
    let full = object(vec![
        ("image", text("a")),
        ("annotations", object(vec![])),
        ("runtime_handler", text("")),
        ("user_specified_image", text("")),
    ]);
    assert_eq!(strict_image_spec(&full).unwrap().image, "a");
}

#[test]
fn full_container_record_resolves_to_itself() {
    let config = resolve_container_config(&full_container_array(true), "aaaaaaaa", "bbbbbbbb");
    let metadata = config.metadata.unwrap();
    assert_eq!(metadata.name, "app");
    assert_eq!(metadata.attempt, 1);
    let image = config.image.unwrap();
    assert_eq!(image.image, "redis:7");
    assert_eq!(image.annotations.get("k").unwrap(), "v");
    assert_eq!(image.runtime_handler, "runc");
    assert_eq!(image.user_specified_image, "redis");
    assert_eq!(config.command, strings(&["redis-server"]));
    assert_eq!(config.args, strings(&["--port", "6379"]));
    assert_eq!(config.working_dir, "/data");
    assert_eq!(config.envs.len(), 1);
    assert_eq!(config.envs[0].key, "A");
    assert_eq!(config.envs[0].value, "1");
    assert_eq!(config.mounts.len(), 1);
    assert_eq!(config.devices.len(), 1);
    assert_eq!(config.labels.get("app").unwrap(), "redis");
    assert_eq!(config.annotations.get("note").unwrap(), "x");
    assert_eq!(config.log_path, "redis/0.log");
    assert!(config.stdin);
    assert!(!config.stdin_once);
    assert!(config.tty);
    assert!(config.linux.is_some());
    assert!(config.windows.is_some());
    assert_eq!(config.cdi_devices.len(), 1);
}

#[test]
fn whole_container_record_always_takes_the_flags() {
    let mut target = container_config_with_token("aaaaaaaa");
    target.stdin = true;
    target.tty = true;
    target.command = strings(&["keep"]);
    let source = container_config_with_token("bbbbbbbb");
    merge_container_config(&mut target, source);
    assert!(!target.stdin);
    assert!(!target.tty);
    assert_eq!(target.command, strings(&["keep"]));
    assert_eq!(target.metadata.unwrap().name, "container-bbbbbbbb");
}

#[test]
fn unreadable_container_description_gives_the_default() {
    for doc in [text("{}"), Json::Null, array(vec![]), num(1)] {
        let config = resolve_container_config(&doc, "aaaaaaaa", "bbbbbbbb");
        let expected = container_config_with_token("aaaaaaaa");
        assert_eq!(format!("{:?}", config), format!("{:?}", expected));
    }
}

#[test]
fn strict_container_config_rejects_a_wrong_member() {
    assert!(strict_container_config(&full_container_array(false)).is_some());
    let mut items = match full_container_array(false) {
        Json::Array(items) => items,
        _ => unreachable!(),
    };
    items[11] = text("yes");
    assert!(strict_container_config(&Json::Array(items)).is_none());
}

#[test]
fn omitted_container_fields_keep_their_defaults() {
    let empty = resolve_container_config(&object(vec![]), "aaaaaaaa", "bbbbbbbb");
    let expected = container_config_with_token("aaaaaaaa");
    assert_eq!(format!("{:?}", empty), format!("{:?}", expected));
    let one = resolve_container_config(
        &object(vec![("working_dir", text("/srv"))]),
        "aaaaaaaa",
        "bbbbbbbb",
    );
    let mut expected = container_config_with_token("aaaaaaaa");
    expected.working_dir = "/srv".to_string();
    assert_eq!(format!("{:?}", one), format!("{:?}", expected));
}

#[test]
fn container_metadata_attempt_beyond_32_bits_keeps_the_default() {
    let metadata = parse_container_metadata(&object(vec![
        ("name", text("c")),
        ("attempt", num(4294967297)),
    ]));
    assert_eq!(metadata.name, "c");
    assert_eq!(metadata.attempt, 0);
    let metadata = parse_container_metadata(&object(vec![
        ("name", text("c")),
        ("attempt", num(4294967295)),
    ]));
    assert_eq!(metadata.attempt, 4294967295);
    let config =
        parse_container_config(value("{\"metadata\":{\"name\":\"c\",\"attempt\":4294967297}}"));
    let metadata = config.metadata.unwrap();
    assert_eq!(metadata.name, "c");
    assert_eq!(metadata.attempt, 0);
}
