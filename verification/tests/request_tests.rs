use containerd_mcp::json::{Json, JsonNumber};
use containerd_mcp::json_text::{json_from_value, parse_json};
use containerd_mcp::request::{
    container_request_document, create_container_config, create_pod_config,
    pod_request_document, sandbox_config_from_text,
};

fn member<'a>(doc: &'a Json, key: &str) -> &'a Json {
    doc.get(key).unwrap()
}

#[test]
fn parse_json_reads_every_kind_of_value() {
    let doc = parse_json(
        "{\"s\":\"x\",\"t\":true,\"z\":null,\"p\":7,\"n\":-3,\"f\":1.5,\"a\":[1,\"two\"],\"o\":{\"k\":\"v\"}}",
    )
    .unwrap();
    assert!(doc.is_object());
    assert_eq!(member(&doc, "s").as_str(), Some("x"));
    assert_eq!(member(&doc, "t").as_bool(), Some(true));
    assert!(member(&doc, "z").is_null());
    assert_eq!(member(&doc, "p").as_u64(), Some(7));
    assert_eq!(member(&doc, "p").as_i32(), Some(7));
    assert_eq!(member(&doc, "n").as_u64(), None);
    assert_eq!(member(&doc, "n").as_i32(), Some(-3));
    match member(&doc, "n") {
        Json::Number(JsonNumber::NegInt(i)) => assert_eq!(*i, -3),
        _ => panic!("a negative integer was expected"),
    }
    match member(&doc, "f") {
        Json::Number(JsonNumber::Float(bits)) => assert_eq!(*bits, 1.5f64.to_bits()),
        _ => panic!("a floating-point number was expected"),
    }
    match member(&doc, "a") {
        Json::Array(items) => {
            assert_eq!(items.len(), 2);
            assert_eq!(items[0].as_u64(), Some(1));
            assert_eq!(items[1].as_str(), Some("two"));
        }
        _ => panic!("an array was expected"),
    }
    assert_eq!(member(&doc, "o").get("k").and_then(|v| v.as_str()), Some("v"));
}

#[test]
fn json_from_value_keeps_the_value() {
    let value: serde_json::Value =
        serde_json::from_str("{\"b\":[true,null,-2,2.5,\"s\"],\"a\":{\"x\":18446744073709551615}}")
            .unwrap();
    let doc = json_from_value(&value);
    match member(&doc, "b") {
        Json::Array(items) => {
            assert_eq!(items.len(), 5);
            assert_eq!(items[0].as_bool(), Some(true));
            assert!(items[1].is_null());
            assert_eq!(items[2].as_i32(), Some(-2));
            match &items[3] {
                Json::Number(JsonNumber::Float(bits)) => assert_eq!(*bits, 2.5f64.to_bits()),
                _ => panic!("a floating-point number was expected"),
            }
            assert_eq!(items[4].as_str(), Some("s"));
        }
        _ => panic!("an array was expected"),
    }
    assert_eq!(member(member(&doc, "a"), "x").as_u64(), Some(u64::MAX));
    assert!(json_from_value(&serde_json::Value::Null).is_null());
}

#[test]
fn parse_json_rejects_what_is_not_json() {
    assert!(parse_json("").is_none());
    assert!(parse_json("{").is_none());
    assert!(parse_json("{\"a\":1,}").is_none());
    assert!(parse_json("hostname").is_none());
    assert!(parse_json("{} x").is_none());
}

#[test]
fn parse_json_keeps_the_later_of_two_members() {
    let doc = parse_json("{\"a\":1,\"a\":2}").unwrap();
    assert_eq!(member(&doc, "a").as_u64(), Some(2));
    match doc {
        Json::Object(members) => assert_eq!(members.len(), 1),
        _ => panic!("an object was expected"),
    }
}

#[test]
fn parse_json_reads_scalars_at_top_level() {
    assert_eq!(parse_json("\"text\"").unwrap().as_str(), Some("text"));
    assert_eq!(parse_json(" 18446744073709551615 ").unwrap().as_u64(), Some(u64::MAX));
    assert!(parse_json("null").unwrap().is_null());
}

#[test]
fn pod_request_holds_parameters_and_options() {
    let options = parse_json("{\"log_directory\":\"/tmp/logs\"}").unwrap();
    let doc = pod_request_document("web", "prod", "uid-1", &options).unwrap();
    let metadata = member(&doc, "metadata");
    assert_eq!(member(metadata, "name").as_str(), Some("web"));
    assert_eq!(member(metadata, "namespace").as_str(), Some("prod"));
    assert_eq!(member(metadata, "uid").as_str(), Some("uid-1"));
    assert_eq!(member(metadata, "attempt").as_u64(), Some(0));
    assert_eq!(member(&doc, "hostname").as_str(), Some("web-prod"));
    assert_eq!(member(&doc, "log_directory").as_str(), Some("/tmp/logs"));
}

#[test]
fn pod_request_options_override_parameters() {
    let options = parse_json("{\"hostname\":\"custom\"}").unwrap();
    let doc = pod_request_document("web", "prod", "uid-1", &options).unwrap();
    assert_eq!(member(&doc, "hostname").as_str(), Some("custom"));
}

#[test]
fn pod_request_needs_an_object_of_options() {
    let options = parse_json("[1]").unwrap();
    assert!(pod_request_document("web", "prod", "uid-1", &options).is_none());
    assert!(create_pod_config("web", "prod", "uid-1", "[1]").is_none());
    assert!(create_pod_config("web", "prod", "uid-1", "not json").is_none());
}

#[test]
fn create_pod_config_resolves_parameters_and_options() {
    let config = create_pod_config(
        "web",
        "prod",
        "uid-1",
        "{\"labels\":{\"app\":\"web\"},\"dns_config\":{\"servers\":7}}",
    )
    .unwrap();
    let metadata = config.metadata.unwrap();
    assert_eq!(metadata.name, "web");
    assert_eq!(metadata.namespace, "prod");
    assert_eq!(metadata.uid, "uid-1");
    assert_eq!(metadata.attempt, 0);
    assert_eq!(config.hostname, "web-prod");
    assert_eq!(config.log_directory, "/var/log/pods");
    assert_eq!(config.labels.get("app").unwrap(), "web");
    assert!(config.dns_config.is_none());
}

#[test]
fn container_request_holds_parameters_and_options() {
    let options = parse_json("{\"command\":[\"sleep\",\"1\"]}").unwrap();
    let doc = container_request_document("app", "busybox", &options).unwrap();
    assert_eq!(member(member(&doc, "metadata"), "name").as_str(), Some("app"));
    assert_eq!(member(member(&doc, "image"), "image").as_str(), Some("busybox"));
    assert_eq!(member(&doc, "log_path").as_str(), Some("app/0.log"));
    assert!(doc.get("command").is_some());
    assert!(container_request_document("app", "busybox", &Json::Null).is_none());
}

#[test]
fn create_container_config_resolves_parameters_and_options() {
    let config =
        create_container_config("app", "busybox", "{\"command\":[\"sleep\",\"1\"],\"tty\":true}")
            .unwrap();
    assert_eq!(config.metadata.unwrap().name, "app");
    assert_eq!(config.image.unwrap().image, "busybox");
    assert_eq!(config.log_path, "app/0.log");
    assert_eq!(config.command, vec!["sleep".to_string(), "1".to_string()]);
    assert!(config.tty);
    assert_eq!(config.working_dir, "/");
    assert!(create_container_config("app", "busybox", "\"x\"").is_none());
}

#[test]
fn create_container_config_lets_options_name_the_image() {
    let config = create_container_config("app", "busybox", "{\"image\":\"alpine:3\"}").unwrap();
    let image = config.image.unwrap();
    assert_eq!(image.image, "alpine:3");
}

#[test]
fn sandbox_config_resolves_from_text() {
    let config =
        sandbox_config_from_text("{\"metadata\":{\"name\":\"p\",\"uid\":\"u\"},\"hostname\":\"h\"}")
            .unwrap();
    let metadata = config.metadata.unwrap();
    assert_eq!(metadata.name, "p");
    assert_eq!(metadata.uid, "u");
    assert_eq!(config.hostname, "h");
    assert!(sandbox_config_from_text("{").is_none());
    let fallback = sandbox_config_from_text("\"text\"").unwrap();
    assert_eq!(fallback.hostname, "default-hostname");
}
