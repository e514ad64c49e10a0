use containerd_mcp::json::{Json, JsonNumber};
use containerd_mcp::pod::{
    default_pod_config, default_pod_metadata, merge_pod_config, parse_dns_config,
    parse_pod_config, parse_pod_config_from_map, parse_pod_metadata, parse_port_mappings,
    pod_config_with_uid, resolve_pod_config, strict_pod_config, strict_pod_metadata,
    PortMapping,
};

fn parsed(text: &str) -> serde_json::Value {
    serde_json::from_str(text).unwrap()
}

fn s(text: &str) -> Json {
    Json::Str(text.to_string())
}

fn n(value: u64) -> Json {
    Json::Number(JsonNumber::PosInt(value))
}

fn obj(members: Vec<(&str, Json)>) -> Json {
    Json::Object(members.into_iter().map(|(k, v)| (k.to_string(), v)).collect())
}

fn arr(items: Vec<Json>) -> Json {
    Json::Array(items)
}

fn is_uuid(text: &str) -> bool {
    text.len() == 36
        && text.chars().enumerate().all(|(i, c)| {
            if i == 8 || i == 13 || i == 18 || i == 23 {
                c == '-'
            } else {
                c.is_ascii_digit() || ('a'..='f').contains(&c)
            }
        })
}

fn full_pod_array() -> Json {
    arr(vec![
        obj(vec![("name", s("web")), ("uid", s("u-1")), ("namespace", s("prod")), ("attempt", n(2))]),
        s("web-host"),
        s("/logs"),
        obj(vec![
            ("servers", arr(vec![s("1.1.1.1")])),
            ("searches", arr(vec![s("svc.local")])),
            ("options", arr(vec![s("ndots:2")])),
        ]),
        arr(vec![obj(vec![("protocol", n(0)), ("container_port", n(80)), ("host_port", n(8080))])]),
        obj(vec![("app", s("web"))]),
        obj(vec![("note", s("x"))]),
        obj(vec![("cgroup_parent", s("/pods"))]),
        obj(vec![("security_context", Json::Null)]),
    ])
}

#[test]
fn default_pod_has_documented_values() {
    let config = default_pod_config();
    let metadata = config.metadata.unwrap();
    assert_eq!(metadata.name, "default-pod");
    assert_eq!(metadata.namespace, "default");
    assert_eq!(metadata.attempt, 0);
    assert!(is_uuid(&metadata.uid));
    assert_eq!(config.hostname, "default-hostname");
    assert_eq!(config.log_directory, "/var/log/pods");
    assert!(config.dns_config.is_none());
    assert!(config.port_mappings.is_empty());
    assert!(config.labels.is_empty());
    assert!(config.annotations.is_empty());
    assert!(config.linux.is_none());
    assert!(config.windows.is_none());
}

#[test]
fn default_pod_metadata_draws_fresh_identifiers() {
    let first = default_pod_metadata();
    let second = default_pod_metadata();
    assert!(is_uuid(&first.uid));
    assert!(is_uuid(&second.uid));
    assert_ne!(first.uid, second.uid);
}

#[test]
fn pod_end_to_end_with_name_only() {
    let config = parse_pod_config(parsed("{\"metadata\":{\"name\":\"my-pod\"}}"));
    let metadata = config.metadata.unwrap();
    assert_eq!(metadata.name, "my-pod");
    assert_eq!(metadata.namespace, "default");
    assert_eq!(metadata.attempt, 0);
    assert!(!metadata.uid.is_empty());
    assert!(is_uuid(&metadata.uid));
    assert_eq!(config.hostname, "default-hostname");
    assert_eq!(config.log_directory, "/var/log/pods");
}

#[test]
fn two_pod_resolutions_get_different_identifiers() {
    let first = parse_pod_config(parsed("{}")).metadata.unwrap().uid;
    let second = parse_pod_config(parsed("{}")).metadata.unwrap().uid;
    assert_ne!(first, second);
    let input = || parsed("{\"metadata\":{\"name\":\"my-pod\"}}");
    let third = parse_pod_config(input()).metadata.unwrap().uid;
    let fourth = parse_pod_config(input()).metadata.unwrap().uid;
    assert_ne!(third, fourth);
}

#[test]
fn pod_identifier_in_input_is_kept() {
    let config = parse_pod_config(parsed("{\"metadata\":{\"uid\":\"fixed\",\"attempt\":3}}"));
    let metadata = config.metadata.unwrap();
    assert_eq!(metadata.uid, "fixed");
    assert_eq!(metadata.attempt, 3);
    assert_eq!(metadata.name, "default-pod");
}

#[test]
fn pod_metadata_uses_the_identifier_drawn_for_it() {
    let doc = obj(vec![("metadata", obj(vec![("name", s("a"))]))]);
    let config = resolve_pod_config(&doc, "base".to_string(), "meta".to_string());
    assert_eq!(config.metadata.unwrap().uid, "meta");
    let config = resolve_pod_config(&obj(vec![]), "base".to_string(), "meta".to_string());
    assert_eq!(config.metadata.unwrap().uid, "base");
    let doc = obj(vec![("metadata", s("not a map"))]);
    let config = resolve_pod_config(&doc, "base".to_string(), "meta".to_string());
    assert_eq!(config.metadata.unwrap().uid, "base");
}

#[test]
fn pod_scalars_overwrite_only_when_well_typed() {
    let config = parse_pod_config(parsed("{\"hostname\":\"h1\",\"log_directory\":5}"));
    assert_eq!(config.hostname, "h1");
    assert_eq!(config.log_directory, "/var/log/pods");
}

#[test]
fn pod_labels_are_united_with_input_winning() {
    let mut config = pod_config_with_uid("u".to_string());
    config.labels.insert("tier".to_string(), "old".to_string());
    config.labels.insert("kept".to_string(), "yes".to_string());
    let doc = obj(vec![("labels", obj(vec![("tier", s("new")), ("app", s("web"))]))]);
    parse_pod_config_from_map(&mut config, &doc);
    assert_eq!(config.labels.len(), 3);
    assert_eq!(config.labels.get("tier").unwrap(), "new");
    assert_eq!(config.labels.get("kept").unwrap(), "yes");
    assert_eq!(config.labels.get("app").unwrap(), "web");
}

#[test]
fn pod_labels_of_wrong_shape_are_ignored() {
    let config = parse_pod_config(parsed("{\"labels\":{\"tier\":1},\"annotations\":\"x\"}"));
    assert!(config.labels.is_empty());
    assert!(config.annotations.is_empty());
}

#[test]
fn pod_port_mappings_replace_the_list() {
    let mut config = pod_config_with_uid("u".to_string());
    config.port_mappings.push(PortMapping { protocol: 1, container_port: 1, host_port: 1 });
    let doc = obj(vec![(
        "port_mappings",
        arr(vec![
            obj(vec![("protocol", n(0)), ("container_port", n(80)), ("host_port", n(8080))]),
            obj(vec![
                ("protocol", n(1)),
                ("container_port", n(53)),
                ("host_port", Json::Number(JsonNumber::NegInt(-1))),
            ]),
        ]),
    )]);
    parse_pod_config_from_map(&mut config, &doc);
    assert_eq!(
        config.port_mappings,
        vec![
            PortMapping { protocol: 0, container_port: 80, host_port: 8080 },
            PortMapping { protocol: 1, container_port: 53, host_port: -1 },
        ]
    );
}

#[test]
fn port_mappings_reject_out_of_range_and_missing_fields() {
    let too_large =
        arr(vec![obj(vec![("protocol", n(0)), ("container_port", n(2147483648)), ("host_port", n(1))])]);
    assert_eq!(parse_port_mappings(&too_large), None);
    let missing = arr(vec![obj(vec![("protocol", n(0)), ("container_port", n(80))])]);
    assert_eq!(parse_port_mappings(&missing), None);
    let largest =
        arr(vec![obj(vec![("protocol", n(0)), ("container_port", n(2147483647)), ("host_port", n(1))])]);
    assert_eq!(
        parse_port_mappings(&largest),
        Some(vec![PortMapping { protocol: 0, container_port: 2147483647, host_port: 1 }])
    );
    assert_eq!(parse_port_mappings(&obj(vec![])), None);
    assert_eq!(parse_port_mappings(&arr(vec![])), Some(vec![]));
}

#[test]
fn malformed_dns_config_leaves_the_rest_alone() {
    let doc = obj(vec![
        ("hostname", s("h1")),
        ("dns_config", obj(vec![("servers", n(3)), ("searches", arr(vec![])), ("options", arr(vec![]))])),
        ("labels", obj(vec![("a", s("b"))])),
    ]);
    let config = resolve_pod_config(&doc, "u".to_string(), "m".to_string());
    assert!(config.dns_config.is_none());
    assert_eq!(config.hostname, "h1");
    assert_eq!(config.labels.get("a").unwrap(), "b");
    let without = obj(vec![("hostname", s("h1")), ("labels", obj(vec![("a", s("b"))]))]);
    let other = resolve_pod_config(&without, "u".to_string(), "m".to_string());
    assert_eq!(format!("{:?}", config), format!("{:?}", other));
}

#[test]
fn dns_config_needs_all_three_lists() {
    let good = obj(vec![
        ("servers", arr(vec![s("8.8.8.8")])),
        ("searches", arr(vec![])),
        ("options", arr(vec![s("ndots:1")])),
    ]);
    let dns = parse_dns_config(&good).unwrap();
    assert_eq!(dns.servers, vec!["8.8.8.8".to_string()]);
    assert!(dns.searches.is_empty());
    assert_eq!(dns.options, vec!["ndots:1".to_string()]);
    let partial = obj(vec![("servers", arr(vec![s("8.8.8.8")]))]);
    assert!(parse_dns_config(&partial).is_none());
    assert!(parse_dns_config(&Json::Null).is_none());
    let positional = arr(vec![arr(vec![s("1.1.1.1")]), arr(vec![]), arr(vec![])]);
    assert_eq!(parse_dns_config(&positional).unwrap().servers, vec!["1.1.1.1".to_string()]);
    let short = arr(vec![arr(vec![]), arr(vec![])]);
    assert!(parse_dns_config(&short).is_none());
}

#[test]
fn pod_dns_config_is_replaced_when_it_reads() {
    let config = parse_pod_config(parsed(
        "{\"dns_config\":{\"servers\":[\"8.8.8.8\"],\"searches\":[],\"options\":[]}}",
    ));
    assert_eq!(config.dns_config.unwrap().servers, vec!["8.8.8.8".to_string()]);
}

#[test]
fn pod_platform_sections_are_taken_as_objects() {
    let config =
        parse_pod_config(parsed("{\"linux\":{\"cgroup_parent\":\"/p\"},\"windows\":\"no\"}"));
    let linux = config.linux.unwrap();
    assert_eq!(linux.get("cgroup_parent").and_then(|v| v.as_str()), Some("/p"));
    assert!(config.windows.is_none());
}

#[test]
fn pod_metadata_attempt_beyond_32_bits_keeps_the_default() {
    let metadata =
        parse_pod_metadata(&obj(vec![("name", s("p")), ("attempt", n(4294967297))]));
    assert_eq!(metadata.name, "p");
    assert_eq!(metadata.attempt, 0);
    let metadata = parse_pod_metadata(&obj(vec![("attempt", n(4294967296))]));
    assert_eq!(metadata.attempt, 0);
    let metadata = parse_pod_metadata(&obj(vec![("attempt", n(4294967295))]));
    assert_eq!(metadata.attempt, 4294967295);
    let metadata =
        parse_pod_metadata(&obj(vec![("attempt", Json::Number(JsonNumber::NegInt(-1)))]));
    assert_eq!(metadata.attempt, 0);
    let config = parse_pod_config(parsed("{\"metadata\":{\"attempt\":4294967297}}"));
    assert_eq!(config.metadata.unwrap().attempt, 0);
}

#[test]
fn pod_description_as_a_json_string_gives_the_default() {
    let config = parse_pod_config(serde_json::Value::String("{\"hostname\":\"h\"}".to_string()));
    assert_eq!(config.hostname, "default-hostname");
    assert_eq!(config.metadata.unwrap().name, "default-pod");
}

#[test]
fn whole_pod_record_through_the_parser() {
    let config = parse_pod_config(parsed(
        "[{\"name\":\"web\",\"uid\":\"u-1\",\"namespace\":\"prod\",\"attempt\":2},\"web-host\",\"/logs\",null,[],{\"app\":\"web\"},{},null,null]",
    ));
    let metadata = config.metadata.unwrap();
    assert_eq!(metadata.uid, "u-1");
    assert_eq!(metadata.name, "web");
    assert_eq!(config.hostname, "web-host");
    assert_eq!(config.labels.get("app").unwrap(), "web");
    assert!(config.dns_config.is_none());
}

#[test]
fn strict_pod_metadata_needs_every_field() {
    let full = obj(vec![("name", s("a")), ("uid", s("b")), ("namespace", s("c")), ("attempt", n(1))]);
    let metadata = strict_pod_metadata(&full).unwrap();
    assert_eq!(metadata.name, "a");
    assert_eq!(metadata.uid, "b");
    assert_eq!(metadata.namespace, "c");
    assert_eq!(metadata.attempt, 1);
    let partial = obj(vec![("name", s("a"))]);
    assert!(strict_pod_metadata(&partial).is_none());
    let too_large =
        obj(vec![("name", s("a")), ("uid", s("b")), ("namespace", s("c")), ("attempt", n(4294967296))]);
    assert!(strict_pod_metadata(&too_large).is_none());
}

#[test]
fn full_pod_record_resolves_to_itself() {
    let config = resolve_pod_config(&full_pod_array(), "base".to_string(), "meta".to_string());
    let metadata = config.metadata.unwrap();
    assert_eq!(metadata.name, "web");
    assert_eq!(metadata.uid, "u-1");
    assert_eq!(metadata.namespace, "prod");
    assert_eq!(metadata.attempt, 2);
    assert_eq!(config.hostname, "web-host");
    assert_eq!(config.log_directory, "/logs");
    let dns = config.dns_config.unwrap();
    assert_eq!(dns.servers, vec!["1.1.1.1".to_string()]);
    assert_eq!(dns.searches, vec!["svc.local".to_string()]);
    assert_eq!(dns.options, vec!["ndots:2".to_string()]);
    assert_eq!(
        config.port_mappings,
        vec![PortMapping { protocol: 0, container_port: 80, host_port: 8080 }]
    );
    assert_eq!(config.labels.len(), 1);
    assert_eq!(config.labels.get("app").unwrap(), "web");
    assert_eq!(config.annotations.get("note").unwrap(), "x");
    assert!(config.linux.unwrap().get("cgroup_parent").is_some());
    assert!(config.windows.unwrap().get("security_context").is_some());
}

#[test]
fn whole_pod_record_keeps_defaults_for_empty_fields() {
    let doc = arr(vec![
        Json::Null,
        s(""),
        s("/logs"),
        Json::Null,
        arr(vec![]),
        obj(vec![]),
        obj(vec![]),
        Json::Null,
        Json::Null,
    ]);
    let config = resolve_pod_config(&doc, "base".to_string(), "meta".to_string());
    let metadata = config.metadata.unwrap();
    assert_eq!(metadata.uid, "base");
    assert_eq!(metadata.name, "default-pod");
    assert_eq!(config.hostname, "default-hostname");
    assert_eq!(config.log_directory, "/logs");
    assert!(config.dns_config.is_none());
    assert!(config.port_mappings.is_empty());
}

#[test]
fn unreadable_pod_description_gives_the_default() {
    for doc in [s("{\"hostname\":\"h\"}"), Json::Null, n(3), arr(vec![s("x")]), Json::Bool(true)] {
        let config = resolve_pod_config(&doc, "base".to_string(), "meta".to_string());
        let expected = pod_config_with_uid("base".to_string());
        assert_eq!(format!("{:?}", config), format!("{:?}", expected));
    }
}

#[test]
fn strict_pod_config_reads_objects_with_all_required_members() {
    let doc = obj(vec![
        ("hostname", s("h")),
        ("log_directory", s("/l")),
        ("port_mappings", arr(vec![])),
        ("labels", obj(vec![])),
        ("annotations", obj(vec![])),
    ]);
    let config = strict_pod_config(&doc).unwrap();
    assert!(config.metadata.is_none());
    assert_eq!(config.hostname, "h");
    let missing = obj(vec![("hostname", s("h"))]);
    assert!(strict_pod_config(&missing).is_none());
}

#[test]
fn merge_pod_config_takes_non_empty_fields() {
    let mut target = pod_config_with_uid("t".to_string());
    target.labels.insert("old".to_string(), "1".to_string());
    let mut source = pod_config_with_uid("s".to_string());
    source.metadata = None;
    source.hostname = String::new();
    source.log_directory = "/other".to_string();
    source.labels.insert("new".to_string(), "2".to_string());
    merge_pod_config(&mut target, source);
    assert_eq!(target.metadata.unwrap().uid, "t");
    assert_eq!(target.hostname, "default-hostname");
    assert_eq!(target.log_directory, "/other");
    assert_eq!(target.labels.len(), 1);
    assert_eq!(target.labels.get("new").unwrap(), "2");
    assert!(target.labels.get("old").is_none());
}

#[test]
fn omitted_pod_fields_keep_their_defaults() {
    let empty = resolve_pod_config(&obj(vec![]), "base".to_string(), "meta".to_string());
    let expected = pod_config_with_uid("base".to_string());
    assert_eq!(format!("{:?}", empty), format!("{:?}", expected));
    let one = resolve_pod_config(
        &obj(vec![("hostname", s("h1"))]),
        "base".to_string(),
        "meta".to_string(),
    );
    let mut expected = pod_config_with_uid("base".to_string());
    expected.hostname = "h1".to_string();
    assert_eq!(format!("{:?}", one), format!("{:?}", expected));
}
