//! Pod sandbox configuration: the record, its defaults, and its resolution
//! from a partial description.

use crate::extract::{
    extract_map, extract_string, extract_u32, extract_value, list_of, object_member, opt_view,
    parse_typed_section, parse_typed_string_map, section_of, string_map_of, string_member, texts,
    typed_member, u32_member, view_of,
};
use crate::ident::{fresh_identifier, is_uuid_text};
use crate::json::{Json, JsonV};
use crate::json_text::{json_from_value, value_document};
use crate::merge::{
    extend_if_some, or_else, replace_list_if_given, replace_map_if_given, replace_text_if_given,
    set_if_some, update_if_some,
};
use crate::record::{
    member_is_left_out, opt_opt_view, optional_member, read_optional_section, read_record_member,
    read_required_i32, read_required_string, read_required_string_list, read_required_string_map,
    read_required_u32, record_member, required_i32, required_member, required_string,
    required_string_list, required_string_map, required_u32,
};
use crate::string_map::StringMap;
use vstd::prelude::*;

verus! {

/// The identity of a pod sandbox.
#[derive(Debug, Clone)]
pub struct PodSandboxMetadata {
    pub name: String,
    pub uid: String,
    pub namespace: String,
    pub attempt: u32,
}

/// The mathematical value of a [`PodSandboxMetadata`].
pub ghost struct PodSandboxMetadataV {
    pub name: Seq<char>,
    pub uid: Seq<char>,
    pub namespace: Seq<char>,
    pub attempt: u32,
}

impl View for PodSandboxMetadata {
    type V = PodSandboxMetadataV;

    open spec fn view(&self) -> PodSandboxMetadataV {
        PodSandboxMetadataV {
            name: self.name@,
            uid: self.uid@,
            namespace: self.namespace@,
            attempt: self.attempt,
        }
    }
}

/// The name resolution settings of a pod sandbox.
#[derive(Debug, Clone)]
pub struct DnsConfig {
    pub servers: Vec<String>,
    pub searches: Vec<String>,
    pub options: Vec<String>,
}

/// The mathematical value of a [`DnsConfig`].
pub ghost struct DnsConfigV {
    pub servers: Seq<Seq<char>>,
    pub searches: Seq<Seq<char>>,
    pub options: Seq<Seq<char>>,
}

impl View for DnsConfig {
    type V = DnsConfigV;

    open spec fn view(&self) -> DnsConfigV {
        DnsConfigV {
            servers: texts(self.servers@),
            searches: texts(self.searches@),
            options: texts(self.options@),
        }
    }
}

/// A port of a container that is forwarded from the host.
#[derive(Debug, Clone, Copy, PartialEq, Eq, Structural)]
pub struct PortMapping {
    pub protocol: i32,
    pub container_port: i32,
    pub host_port: i32,
}

/// The configuration of a pod sandbox.
#[derive(Debug)]
pub struct PodSandboxConfig {
    pub metadata: Option<PodSandboxMetadata>,
    pub hostname: String,
    pub log_directory: String,
    pub dns_config: Option<DnsConfig>,
    pub port_mappings: Vec<PortMapping>,
    pub labels: StringMap,
    pub annotations: StringMap,
    /// The Linux section, kept as the JSON object that was given.
    pub linux: Option<Json>,
    /// The Windows section, kept as the JSON object that was given.
    pub windows: Option<Json>,
}

/// The mathematical value of a [`PodSandboxConfig`].
pub ghost struct PodSandboxConfigV {
    pub metadata: Option<PodSandboxMetadataV>,
    pub hostname: Seq<char>,
    pub log_directory: Seq<char>,
    pub dns_config: Option<DnsConfigV>,
    pub port_mappings: Seq<PortMapping>,
    pub labels: Map<Seq<char>, Seq<char>>,
    pub annotations: Map<Seq<char>, Seq<char>>,
    pub linux: Option<JsonV>,
    pub windows: Option<JsonV>,
}

impl View for PodSandboxConfig {
    type V = PodSandboxConfigV;

    open spec fn view(&self) -> PodSandboxConfigV {
        PodSandboxConfigV {
            metadata: opt_view(self.metadata),
            hostname: self.hostname@,
            log_directory: self.log_directory@,
            dns_config: opt_view(self.dns_config),
            port_mappings: self.port_mappings@,
            labels: self.labels@,
            annotations: self.annotations@,
            linux: opt_view(self.linux),
            windows: opt_view(self.windows),
        }
    }
}

/// The metadata of a pod sandbox of which nothing is given but its
/// identifier.
pub open spec fn default_pod_metadata_v(uid: Seq<char>) -> PodSandboxMetadataV {
    PodSandboxMetadataV { name: "default-pod"@, uid, namespace: "default"@, attempt: 0 }
}

/// The configuration of a pod sandbox of which nothing is given but its
/// identifier.
pub open spec fn default_pod_config_v(uid: Seq<char>) -> PodSandboxConfigV {
    PodSandboxConfigV {
        metadata: Some(default_pod_metadata_v(uid)),
        hostname: "default-hostname"@,
        log_directory: "/var/log/pods"@,
        dns_config: None,
        port_mappings: Seq::empty(),
        labels: Map::empty(),
        annotations: Map::empty(),
        linux: None,
        windows: None,
    }
}

/// The default metadata with the identifier `uid`.
pub fn pod_metadata_with_uid(uid: String) -> (r: PodSandboxMetadata)
    ensures
        r@ == default_pod_metadata_v(uid@),
{
    PodSandboxMetadata {
        name: "default-pod".to_string(),
        uid,
        namespace: "default".to_string(),
        attempt: 0,
    }
}

/// The default metadata, with a fresh identifier.
pub fn default_pod_metadata() -> (r: PodSandboxMetadata)
    ensures
        is_uuid_text(r.uid@),
        r@ == default_pod_metadata_v(r.uid@),
{
    pod_metadata_with_uid(fresh_identifier())
}

/// The default configuration with the identifier `uid`.
pub fn pod_config_with_uid(uid: String) -> (r: PodSandboxConfig)
    ensures
        r@ == default_pod_config_v(uid@),
{
    PodSandboxConfig {
        metadata: Some(pod_metadata_with_uid(uid)),
        hostname: "default-hostname".to_string(),
        log_directory: "/var/log/pods".to_string(),
        dns_config: None,
        port_mappings: Vec::new(),
        labels: StringMap::new(),
        annotations: StringMap::new(),
        linux: None,
        windows: None,
    }
}

/// The default configuration, with a fresh identifier.
pub fn default_pod_config() -> (r: PodSandboxConfig)
    ensures
        r.metadata is Some,
        is_uuid_text(r.metadata->Some_0.uid@),
        r@ == default_pod_config_v(r.metadata->Some_0.uid@),
{
    pod_config_with_uid(fresh_identifier())
}

/// The metadata that the members of `map` describe; what `map` leaves
/// out is taken from the default metadata with the identifier `uid`.
pub open spec fn pod_metadata_from_map(map: JsonV, uid: Seq<char>) -> PodSandboxMetadataV {
    let base = default_pod_metadata_v(uid);
    PodSandboxMetadataV {
        name: or_else(string_member(map, "name"@), base.name),
        uid: or_else(string_member(map, "uid"@), base.uid),
        namespace: or_else(string_member(map, "namespace"@), base.namespace),
        attempt: or_else(u32_member(map, "attempt"@), base.attempt),
    }
}

/// An attempt that is missing, or is no unsigned integer of 32 bits, leaves
/// the default attempt, which is zero; a number that does not fit is not
/// cut down to one that does.
pub proof fn lemma_misfit_pod_attempt_keeps_default(map: JsonV, uid: Seq<char>)
    requires
        map.field("attempt"@) matches Some(v) ==> v.as_u32() is None,
    ensures
        pod_metadata_from_map(map, uid).attempt == 0,
{
}

/// Reads metadata from `metadata_map`; `uid` is the identifier where the
/// map gives none.
pub fn parse_pod_metadata_with(metadata_map: &Json, uid: String) -> (r: PodSandboxMetadata)
    ensures
        r@ == pod_metadata_from_map(metadata_map@, uid@),
{
    let mut metadata = pod_metadata_with_uid(uid);
    if let Some(name) = extract_string(metadata_map, "name") {
        metadata.name = name;
    }
    if let Some(given) = extract_string(metadata_map, "uid") {
        metadata.uid = given;
    }
    if let Some(namespace) = extract_string(metadata_map, "namespace") {
        metadata.namespace = namespace;
    }
    if let Some(attempt) = extract_u32(metadata_map, "attempt") {
        metadata.attempt = attempt;
    }
    metadata
}

/// Reads metadata from `metadata_map`; where the map gives no identifier,
/// a fresh one is generated.
pub fn parse_pod_metadata(metadata_map: &Json) -> (r: PodSandboxMetadata)
    ensures
        exists|uid: Seq<char>|
            is_uuid_text(uid) && r@ == #[trigger] pod_metadata_from_map(metadata_map@, uid),
{
    let uid = fresh_identifier();
    parse_pod_metadata_with(metadata_map, uid)
}

/// The metadata that a document encodes in full.
pub open spec fn pod_metadata_of(j: JsonV) -> Option<PodSandboxMetadataV> {
    let name = required_string(record_member(j, 0, "name"@, 4));
    let uid = required_string(record_member(j, 1, "uid"@, 4));
    let namespace = required_string(record_member(j, 2, "namespace"@, 4));
    let attempt = required_u32(record_member(j, 3, "attempt"@, 4));
    if name is Some && uid is Some && namespace is Some && attempt is Some {
        Some(
            PodSandboxMetadataV {
                name: name->Some_0,
                uid: uid->Some_0,
                namespace: namespace->Some_0,
                attempt: attempt->Some_0,
            },
        )
    } else {
        None
    }
}

/// Reads a document that encodes metadata in full.
pub fn strict_pod_metadata(j: &Json) -> (r: Option<PodSandboxMetadata>)
    ensures
        opt_view(r) == pod_metadata_of(j@),
{
    let name = read_required_string(read_record_member(j, 0, "name", 4));
    let uid = read_required_string(read_record_member(j, 1, "uid", 4));
    let namespace = read_required_string(read_record_member(j, 2, "namespace", 4));
    let attempt = read_required_u32(read_record_member(j, 3, "attempt", 4));
    match (name, uid, namespace, attempt) {
        (Some(name), Some(uid), Some(namespace), Some(attempt)) => Some(
            PodSandboxMetadata { name, uid, namespace, attempt },
        ),
        _ => None,
    }
}

/// The name resolution settings that a document encodes in full.
pub open spec fn dns_config_of(j: JsonV) -> Option<DnsConfigV> {
    let servers = required_string_list(record_member(j, 0, "servers"@, 3));
    let searches = required_string_list(record_member(j, 1, "searches"@, 3));
    let options = required_string_list(record_member(j, 2, "options"@, 3));
    if servers is Some && searches is Some && options is Some {
        Some(
            DnsConfigV {
                servers: servers->Some_0,
                searches: searches->Some_0,
                options: options->Some_0,
            },
        )
    } else {
        None
    }
}

/// Reads a document that encodes name resolution settings in full.
pub fn parse_dns_config(j: &Json) -> (r: Option<DnsConfig>)
    ensures
        opt_view(r) == dns_config_of(j@),
{
    let servers = read_required_string_list(read_record_member(j, 0, "servers", 3));
    let searches = read_required_string_list(read_record_member(j, 1, "searches", 3));
    let options = read_required_string_list(read_record_member(j, 2, "options", 3));
    match (servers, searches, options) {
        (Some(servers), Some(searches), Some(options)) => Some(
            DnsConfig { servers, searches, options },
        ),
        _ => None,
    }
}

/// The port mapping that a document encodes in full.
pub open spec fn port_mapping_of(j: JsonV) -> Option<PortMapping> {
    let protocol = required_i32(record_member(j, 0, "protocol"@, 3));
    let container_port = required_i32(record_member(j, 1, "container_port"@, 3));
    let host_port = required_i32(record_member(j, 2, "host_port"@, 3));
    if protocol is Some && container_port is Some && host_port is Some {
        Some(
            PortMapping {
                protocol: protocol->Some_0,
                container_port: container_port->Some_0,
                host_port: host_port->Some_0,
            },
        )
    } else {
        None
    }
}

/// Reads a document that encodes a port mapping in full.
pub fn parse_port_mapping(j: &Json) -> (r: Option<PortMapping>)
    ensures
        r == port_mapping_of(j@),
{
    let protocol = read_required_i32(read_record_member(j, 0, "protocol", 3));
    let container_port = read_required_i32(read_record_member(j, 1, "container_port", 3));
    let host_port = read_required_i32(read_record_member(j, 2, "host_port", 3));
    match (protocol, container_port, host_port) {
        (Some(protocol), Some(container_port), Some(host_port)) => Some(
            PortMapping { protocol, container_port, host_port },
        ),
        _ => None,
    }
}

/// The list of port mappings that a document encodes.
pub open spec fn port_mappings_of(j: JsonV) -> Option<Seq<PortMapping>> {
    list_of(j, |x: JsonV| port_mapping_of(x))
}

/// Reads a document that encodes a list of port mappings.
pub fn parse_port_mappings(j: &Json) -> (r: Option<Vec<PortMapping>>)
    ensures
        match r {
            Some(v) => port_mappings_of(j@) == Some(v@),
            None => port_mappings_of(j@) is None,
        },
{
    match j {
        Json::Array(items) => {
            let ghost item = |x: JsonV| port_mapping_of(x);
            let mut out: Vec<PortMapping> = Vec::new();
            let mut i: usize = 0;
            while i < items.len()
                invariant
                    j@ == JsonV::Array(crate::json::items_view(items@)),
                    item == (|x: JsonV| port_mapping_of(x)),
                    i <= items.len(),
                    out.len() == i,
                    forall|k: int| 0 <= k < i ==> item(items@[k]@) == Some(#[trigger] out@[k]),
                decreases items.len() - i,
            {
                match parse_port_mapping(&items[i]) {
                    Some(mapping) => {
                        out.push(mapping);
                    },
                    None => {
                        assert(item(j@->Array_0[i as int]) is None);
                        return None;
                    },
                }
                i = i + 1;
            }
            proof {
                let views = j@->Array_0;
                assert forall|k: int| 0 <= k < views.len() implies (#[trigger] item(
                    views[k],
                )) is Some by {
                    assert(item(items@[k]@) == Some(out@[k]));
                }
                assert(out@ =~= Seq::new(views.len(), |k: int| item(views[k])->Some_0)) by {
                    assert forall|k: int| 0 <= k < views.len() implies out@[k] == item(
                        views[k],
                    )->Some_0 by {
                        assert(item(items@[k]@) == Some(out@[k]));
                    }
                }
            }
            Some(out)
        },
        _ => None,
    }
}

/// The configuration that results from `base` when the members of `map`
/// are applied to it. A member that is missing or of another shape leaves
/// its field as it is. Metadata is rebuilt from its member, with `uid`
/// where the member gives no identifier; scalars and lists are replaced;
/// labels and annotations are added to those of `base` and win over them.
pub open spec fn pod_config_from_map(
    base: PodSandboxConfigV,
    map: JsonV,
    uid: Seq<char>,
) -> PodSandboxConfigV {
    PodSandboxConfigV {
        metadata: match object_member(map, "metadata"@) {
            Some(m) => Some(pod_metadata_from_map(m, uid)),
            None => base.metadata,
        },
        hostname: or_else(string_member(map, "hostname"@), base.hostname),
        log_directory: or_else(string_member(map, "log_directory"@), base.log_directory),
        dns_config: match typed_member(map, "dns_config"@, |x: JsonV| dns_config_of(x)) {
            Some(d) => Some(d),
            None => base.dns_config,
        },
        port_mappings: or_else(
            typed_member(map, "port_mappings"@, |x: JsonV| port_mappings_of(x)),
            base.port_mappings,
        ),
        labels: match typed_member(map, "labels"@, |x: JsonV| string_map_of(x)) {
            Some(l) => base.labels.union_prefer_right(l),
            None => base.labels,
        },
        annotations: match typed_member(map, "annotations"@, |x: JsonV| string_map_of(x)) {
            Some(a) => base.annotations.union_prefer_right(a),
            None => base.annotations,
        },
        linux: match typed_member(map, "linux"@, |x: JsonV| section_of(x)) {
            Some(l) => Some(l),
            None => base.linux,
        },
        windows: match typed_member(map, "windows"@, |x: JsonV| section_of(x)) {
            Some(w) => Some(w),
            None => base.windows,
        },
    }
}

/// Reads the `metadata` member of `user_config`, where it is an object;
/// `uid` is the identifier where the member gives none.
pub fn parse_typed_pod_metadata(user_config: &Json, uid: String) -> (r: Option<PodSandboxMetadata>)
    ensures
        opt_view(r) == match object_member(user_config@, "metadata"@) {
            Some(m) => Some(pod_metadata_from_map(m, uid@)),
            None => None,
        },
{
    match extract_map(user_config, "metadata") {
        Some(metadata_map) => Some(parse_pod_metadata_with(metadata_map, uid)),
        None => None,
    }
}

/// Reads the member stored under `key` as name resolution settings.
pub fn parse_typed_dns_config(map: &Json, key: &str) -> (r: Option<DnsConfig>)
    ensures
        opt_view(r) == typed_member(map@, key@, |x: JsonV| dns_config_of(x)),
{
    match extract_value(map, key) {
        Some(v) => parse_dns_config(v),
        None => None,
    }
}

/// Reads the member stored under `key` as a list of port mappings.
pub fn parse_typed_port_mappings(map: &Json, key: &str) -> (r: Option<Vec<PortMapping>>)
    ensures
        match r {
            Some(v) => typed_member(map@, key@, |x: JsonV| port_mappings_of(x)) == Some(v@),
            None => typed_member(map@, key@, |x: JsonV| port_mappings_of(x)) is None,
        },
{
    match extract_value(map, key) {
        Some(v) => parse_port_mappings(v),
        None => None,
    }
}

/// Applies the members of `user_config` to `pod_config`; `uid` is the
/// identifier of rebuilt metadata that names none.
pub fn parse_pod_config_from_map_with(
    pod_config: &mut PodSandboxConfig,
    user_config: &Json,
    uid: String,
)
    ensures
        final(pod_config)@ == pod_config_from_map(old(pod_config)@, user_config@, uid@),
{
    set_if_some(&mut pod_config.metadata, parse_typed_pod_metadata(user_config, uid));
    update_if_some(&mut pod_config.hostname, extract_string(user_config, "hostname"));
    update_if_some(&mut pod_config.log_directory, extract_string(user_config, "log_directory"));
    set_if_some(&mut pod_config.dns_config, parse_typed_dns_config(user_config, "dns_config"));
    update_if_some(
        &mut pod_config.port_mappings,
        parse_typed_port_mappings(user_config, "port_mappings"),
    );
    set_if_some(&mut pod_config.linux, parse_typed_section(user_config, "linux"));
    set_if_some(&mut pod_config.windows, parse_typed_section(user_config, "windows"));
    extend_if_some(&mut pod_config.labels, parse_typed_string_map(user_config, "labels"));
    extend_if_some(
        &mut pod_config.annotations,
        parse_typed_string_map(user_config, "annotations"),
    );
}

/// Applies the members of `user_config` to `pod_config`; rebuilt metadata
/// that names no identifier gets a fresh one.
pub fn parse_pod_config_from_map(pod_config: &mut PodSandboxConfig, user_config: &Json)
    ensures
        exists|uid: Seq<char>|
            is_uuid_text(uid) && final(pod_config)@ == #[trigger] pod_config_from_map(
                old(pod_config)@,
                user_config@,
                uid,
            ),
{
    let uid = fresh_identifier();
    parse_pod_config_from_map_with(pod_config, user_config, uid)
}

/// The configuration that results from `target` when every field of
/// `source` that is not empty replaces the field of `target`.
pub open spec fn merge_pod(
    target: PodSandboxConfigV,
    source: PodSandboxConfigV,
) -> PodSandboxConfigV {
    PodSandboxConfigV {
        metadata: if source.metadata is Some {
            source.metadata
        } else {
            target.metadata
        },
        hostname: if source.hostname.len() > 0 {
            source.hostname
        } else {
            target.hostname
        },
        log_directory: if source.log_directory.len() > 0 {
            source.log_directory
        } else {
            target.log_directory
        },
        dns_config: if source.dns_config is Some {
            source.dns_config
        } else {
            target.dns_config
        },
        port_mappings: if source.port_mappings.len() > 0 {
            source.port_mappings
        } else {
            target.port_mappings
        },
        labels: if source.labels != Map::<Seq<char>, Seq<char>>::empty() {
            source.labels
        } else {
            target.labels
        },
        annotations: if source.annotations != Map::<Seq<char>, Seq<char>>::empty() {
            source.annotations
        } else {
            target.annotations
        },
        linux: if source.linux is Some {
            source.linux
        } else {
            target.linux
        },
        windows: if source.windows is Some {
            source.windows
        } else {
            target.windows
        },
    }
}

/// Replaces each field of `target` by the field of `source`, where that
/// is not empty.
pub fn merge_pod_config(target: &mut PodSandboxConfig, source: PodSandboxConfig)
    ensures
        final(target)@ == merge_pod(old(target)@, source@),
{
    set_if_some(&mut target.metadata, source.metadata);
    replace_text_if_given(&mut target.hostname, source.hostname);
    replace_text_if_given(&mut target.log_directory, source.log_directory);
    set_if_some(&mut target.dns_config, source.dns_config);
    replace_list_if_given(&mut target.port_mappings, source.port_mappings);
    replace_map_if_given(&mut target.labels, source.labels);
    replace_map_if_given(&mut target.annotations, source.annotations);
    set_if_some(&mut target.linux, source.linux);
    set_if_some(&mut target.windows, source.windows);
}

/// The configuration that a document encodes in full, as an object of its
/// fields by name or as an array of its nine fields in order: every field
/// but metadata, name resolution and the platform sections must be there.
/// A platform section is any object, and is taken as it is.
pub open spec fn pod_config_of(j: JsonV) -> Option<PodSandboxConfigV> {
    let metadata = optional_member(
        record_member(j, 0, "metadata"@, 9),
        |x: JsonV| pod_metadata_of(x),
    );
    let hostname = required_string(record_member(j, 1, "hostname"@, 9));
    let log_directory = required_string(record_member(j, 2, "log_directory"@, 9));
    let dns_config = optional_member(
        record_member(j, 3, "dns_config"@, 9),
        |x: JsonV| dns_config_of(x),
    );
    let port_mappings = required_member(
        record_member(j, 4, "port_mappings"@, 9),
        |x: JsonV| port_mappings_of(x),
    );
    let labels = required_string_map(record_member(j, 5, "labels"@, 9));
    let annotations = required_string_map(record_member(j, 6, "annotations"@, 9));
    let linux = optional_member(record_member(j, 7, "linux"@, 9), |x: JsonV| section_of(x));
    let windows = optional_member(record_member(j, 8, "windows"@, 9), |x: JsonV| section_of(x));
    if metadata is Some && hostname is Some && log_directory is Some && dns_config is Some
        && port_mappings is Some && labels is Some && annotations is Some && linux is Some
        && windows is Some {
        Some(
            PodSandboxConfigV {
                metadata: metadata->Some_0,
                hostname: hostname->Some_0,
                log_directory: log_directory->Some_0,
                dns_config: dns_config->Some_0,
                port_mappings: port_mappings->Some_0,
                labels: labels->Some_0,
                annotations: annotations->Some_0,
                linux: linux->Some_0,
                windows: windows->Some_0,
            },
        )
    } else {
        None
    }
}

fn read_optional_pod_metadata(member: Option<&Json>) -> (r: Option<Option<PodSandboxMetadata>>)
    ensures
        opt_opt_view(r) == optional_member(view_of(member), |x: JsonV| pod_metadata_of(x)),
{
    if member_is_left_out(member) {
        Some(None)
    } else {
        match strict_pod_metadata(member.unwrap()) {
            Some(metadata) => Some(Some(metadata)),
            None => None,
        }
    }
}

fn read_optional_dns_config(member: Option<&Json>) -> (r: Option<Option<DnsConfig>>)
    ensures
        opt_opt_view(r) == optional_member(view_of(member), |x: JsonV| dns_config_of(x)),
{
    if member_is_left_out(member) {
        Some(None)
    } else {
        match parse_dns_config(member.unwrap()) {
            Some(dns_config) => Some(Some(dns_config)),
            None => None,
        }
    }
}

fn read_required_port_mappings(member: Option<&Json>) -> (r: Option<Vec<PortMapping>>)
    ensures
        match r {
            Some(v) => required_member(view_of(member), |x: JsonV| port_mappings_of(x)) == Some(
                v@,
            ),
            None => required_member(view_of(member), |x: JsonV| port_mappings_of(x)) is None,
        },
{
    match member {
        Some(v) => parse_port_mappings(v),
        None => None,
    }
}

/// Reads a document that encodes a configuration in full.
pub fn strict_pod_config(j: &Json) -> (r: Option<PodSandboxConfig>)
    ensures
        opt_view(r) == pod_config_of(j@),
{
    let metadata = read_optional_pod_metadata(read_record_member(j, 0, "metadata", 9));
    let hostname = read_required_string(read_record_member(j, 1, "hostname", 9));
    let log_directory = read_required_string(read_record_member(j, 2, "log_directory", 9));
    let dns_config = read_optional_dns_config(read_record_member(j, 3, "dns_config", 9));
    let port_mappings = read_required_port_mappings(
        read_record_member(j, 4, "port_mappings", 9),
    );
    let labels = read_required_string_map(read_record_member(j, 5, "labels", 9));
    let annotations = read_required_string_map(read_record_member(j, 6, "annotations", 9));
    let linux = read_optional_section(read_record_member(j, 7, "linux", 9));
    let windows = read_optional_section(read_record_member(j, 8, "windows", 9));
    Some(
        PodSandboxConfig {
            metadata: metadata?,
            hostname: hostname?,
            log_directory: log_directory?,
            dns_config: dns_config?,
            port_mappings: port_mappings?,
            labels: labels?,
            annotations: annotations?,
            linux: linux?,
            windows: windows?,
        },
    )
}

/// The configuration that a description resolves to. An object is applied
/// member by member to the default configuration. Any other document is
/// read as a configuration in full, which only an array of the fields can
/// be, and its fields that are not empty replace those of the default
/// configuration. A document that is neither resolves to the default
/// configuration. `base_uid` is the identifier of
/// the default configuration, `metadata_uid` that of metadata rebuilt from
/// a member that names none.
pub open spec fn resolve_pod(
    config: JsonV,
    base_uid: Seq<char>,
    metadata_uid: Seq<char>,
) -> PodSandboxConfigV {
    let base = default_pod_config_v(base_uid);
    if config is Object {
        pod_config_from_map(base, config, metadata_uid)
    } else {
        match pod_config_of(config) {
            Some(direct) => merge_pod(base, direct),
            None => base,
        }
    }
}

/// Resolves a description of a pod sandbox with the given identifiers.
pub fn resolve_pod_config(config: &Json, base_uid: String, metadata_uid: String) -> (r:
    PodSandboxConfig)
    ensures
        r@ == resolve_pod(config@, base_uid@, metadata_uid@),
        r.metadata is Some,
{
    let mut pod_config = pod_config_with_uid(base_uid);
    if config.is_object() {
        parse_pod_config_from_map_with(&mut pod_config, config, metadata_uid);
    } else if let Some(direct_config) = strict_pod_config(config) {
        merge_pod_config(&mut pod_config, direct_config);
    }
    pod_config
}

/// Resolves a description of a pod sandbox into a complete configuration.
/// Identifiers that the description does not give are freshly generated.
pub fn parse_pod_config(config: serde_json::Value) -> (r: PodSandboxConfig)
    ensures
        r.metadata is Some,
        exists|base_uid: Seq<char>, metadata_uid: Seq<char>|
            is_uuid_text(base_uid) && is_uuid_text(metadata_uid) && r@ == #[trigger] resolve_pod(
                value_document(config),
                base_uid,
                metadata_uid,
            ),
{
    let document = json_from_value(&config);
    let base_uid = fresh_identifier();
    let metadata_uid = fresh_identifier();
    let resolved = resolve_pod_config(&document, base_uid, metadata_uid);
    assert(resolved@ == resolve_pod(value_document(config), base_uid@, metadata_uid@));
    resolved
}

/// A field whose member a description leaves out keeps its default value.
pub proof fn lemma_omitted_pod_members_keep_defaults(
    config: JsonV,
    base_uid: Seq<char>,
    metadata_uid: Seq<char>,
)
    requires
        config is Object,
    ensures
        config.field("metadata"@) is None ==> resolve_pod(config, base_uid, metadata_uid).metadata
            == default_pod_config_v(base_uid).metadata,
        config.field("hostname"@) is None ==> resolve_pod(config, base_uid, metadata_uid).hostname
            == default_pod_config_v(base_uid).hostname,
        config.field("log_directory"@) is None ==> resolve_pod(
            config,
            base_uid,
            metadata_uid,
        ).log_directory == default_pod_config_v(base_uid).log_directory,
        config.field("dns_config"@) is None ==> resolve_pod(
            config,
            base_uid,
            metadata_uid,
        ).dns_config == default_pod_config_v(base_uid).dns_config,
        config.field("port_mappings"@) is None ==> resolve_pod(
            config,
            base_uid,
            metadata_uid,
        ).port_mappings == default_pod_config_v(base_uid).port_mappings,
        config.field("labels"@) is None ==> resolve_pod(config, base_uid, metadata_uid).labels
            == default_pod_config_v(base_uid).labels,
        config.field("annotations"@) is None ==> resolve_pod(
            config,
            base_uid,
            metadata_uid,
        ).annotations == default_pod_config_v(base_uid).annotations,
        config.field("linux"@) is None ==> resolve_pod(config, base_uid, metadata_uid).linux
            == default_pod_config_v(base_uid).linux,
        config.field("windows"@) is None ==> resolve_pod(config, base_uid, metadata_uid).windows
            == default_pod_config_v(base_uid).windows,
{
}

/// A member that is there but of another shape is treated as one that is
/// left out: its field keeps its default value.
pub proof fn lemma_misshapen_pod_members_keep_defaults(
    config: JsonV,
    base_uid: Seq<char>,
    metadata_uid: Seq<char>,
)
    requires
        config is Object,
    ensures
        object_member(config, "metadata"@) is None ==> resolve_pod(
            config,
            base_uid,
            metadata_uid,
        ).metadata == default_pod_config_v(base_uid).metadata,
        string_member(config, "hostname"@) is None ==> resolve_pod(
            config,
            base_uid,
            metadata_uid,
        ).hostname == default_pod_config_v(base_uid).hostname,
        string_member(config, "log_directory"@) is None ==> resolve_pod(
            config,
            base_uid,
            metadata_uid,
        ).log_directory == default_pod_config_v(base_uid).log_directory,
        typed_member(config, "port_mappings"@, |x: JsonV| port_mappings_of(x)) is None
            ==> resolve_pod(config, base_uid, metadata_uid).port_mappings
            == default_pod_config_v(base_uid).port_mappings,
        typed_member(config, "labels"@, |x: JsonV| string_map_of(x)) is None ==> resolve_pod(
            config,
            base_uid,
            metadata_uid,
        ).labels == default_pod_config_v(base_uid).labels,
        typed_member(config, "annotations"@, |x: JsonV| string_map_of(x)) is None ==> resolve_pod(
            config,
            base_uid,
            metadata_uid,
        ).annotations == default_pod_config_v(base_uid).annotations,
        typed_member(config, "linux"@, |x: JsonV| section_of(x)) is None ==> resolve_pod(
            config,
            base_uid,
            metadata_uid,
        ).linux == default_pod_config_v(base_uid).linux,
        typed_member(config, "windows"@, |x: JsonV| section_of(x)) is None ==> resolve_pod(
            config,
            base_uid,
            metadata_uid,
        ).windows == default_pod_config_v(base_uid).windows,
{
}

/// Labels that a description gives are united with those that were
/// there: every given entry is in the result with the given value, and
/// every other entry that was there stays.
pub proof fn lemma_pod_labels_are_united(
    base: PodSandboxConfigV,
    map: JsonV,
    uid: Seq<char>,
    given: Map<Seq<char>, Seq<char>>,
)
    requires
        typed_member(map, "labels"@, |x: JsonV| string_map_of(x)) == Some(given),
    ensures
        ({
            let labels = pod_config_from_map(base, map, uid).labels;
            &&& labels == base.labels.union_prefer_right(given)
            &&& forall|k: Seq<char>| #[trigger]
                given.contains_key(k) ==> labels.contains_key(k) && labels[k] == given[k]
            &&& forall|k: Seq<char>|
                base.labels.contains_key(k) && !given.contains_key(k)
                    ==> #[trigger] labels.contains_key(k) && labels[k] == base.labels[k]
        }),
{
}

/// Annotations that a description gives are united with those that were
/// there, as labels are.
pub proof fn lemma_pod_annotations_are_united(
    base: PodSandboxConfigV,
    map: JsonV,
    uid: Seq<char>,
    given: Map<Seq<char>, Seq<char>>,
)
    requires
        typed_member(map, "annotations"@, |x: JsonV| string_map_of(x)) == Some(given),
    ensures
        ({
            let annotations = pod_config_from_map(base, map, uid).annotations;
            &&& annotations == base.annotations.union_prefer_right(given)
            &&& forall|k: Seq<char>| #[trigger]
                given.contains_key(k) ==> annotations.contains_key(k) && annotations[k]
                    == given[k]
            &&& forall|k: Seq<char>|
                base.annotations.contains_key(k) && !given.contains_key(k)
                    ==> #[trigger] annotations.contains_key(k) && annotations[k]
                    == base.annotations[k]
        }),
{
}

/// The labels of a resolved description that gives labels are the default
/// labels united with the given ones; as there are no default labels, they
/// are the given ones.
pub proof fn lemma_resolved_pod_labels(
    config: JsonV,
    base_uid: Seq<char>,
    metadata_uid: Seq<char>,
    given: Map<Seq<char>, Seq<char>>,
)
    requires
        typed_member(config, "labels"@, |x: JsonV| string_map_of(x)) == Some(given),
    ensures
        resolve_pod(config, base_uid, metadata_uid).labels == default_pod_config_v(
            base_uid,
        ).labels.union_prefer_right(given),
        resolve_pod(config, base_uid, metadata_uid).labels == given,
{
    assert(Map::<Seq<char>, Seq<char>>::empty().union_prefer_right(given) =~= given);
}

/// A list of port mappings that a description gives is the list of the
/// result, whatever was there.
pub proof fn lemma_pod_port_mappings_are_replaced(
    base: PodSandboxConfigV,
    map: JsonV,
    uid: Seq<char>,
    given: Seq<PortMapping>,
)
    requires
        typed_member(map, "port_mappings"@, |x: JsonV| port_mappings_of(x)) == Some(given),
    ensures
        pod_config_from_map(base, map, uid).port_mappings == given,
{
}

/// The keys that a description of a pod sandbox may hold are distinct.
pub proof fn lemma_pod_keys_distinct()
    ensures
        "dns_config"@ != "metadata"@,
        "dns_config"@ != "hostname"@,
        "dns_config"@ != "log_directory"@,
        "dns_config"@ != "port_mappings"@,
        "dns_config"@ != "labels"@,
        "dns_config"@ != "annotations"@,
        "dns_config"@ != "linux"@,
        "dns_config"@ != "windows"@,
{
    reveal_strlit("dns_config");
    reveal_strlit("metadata");
    reveal_strlit("hostname");
    reveal_strlit("log_directory");
    reveal_strlit("port_mappings");
    reveal_strlit("labels");
    reveal_strlit("annotations");
    reveal_strlit("linux");
    reveal_strlit("windows");
    assert("dns_config"@[0] != "hostname"@[0]);
    assert("dns_config"@[0] != "metadata"@[0]);
    assert("dns_config"@[0] != "annotations"@[0]);
}

/// Name resolution settings that do not read leave the settings that were
/// there, and change no other field: the description resolves as it does
/// without that member.
pub proof fn lemma_malformed_dns_config_is_ignored(
    base: PodSandboxConfigV,
    map: JsonV,
    uid: Seq<char>,
)
    requires
        map is Object,
        typed_member(map, "dns_config"@, |x: JsonV| dns_config_of(x)) is None,
    ensures
        pod_config_from_map(base, map, uid).dns_config == base.dns_config,
        pod_config_from_map(base, map, uid) == pod_config_from_map(
            base,
            JsonV::Object(map->Object_0.remove("dns_config"@)),
            uid,
        ),
{
    lemma_pod_keys_distinct();
    let without = JsonV::Object(map->Object_0.remove("dns_config"@));
    assert(without.field("dns_config"@) is None);
    assert(without.field("metadata"@) == map.field("metadata"@));
    assert(without.field("hostname"@) == map.field("hostname"@));
    assert(without.field("log_directory"@) == map.field("log_directory"@));
    assert(without.field("port_mappings"@) == map.field("port_mappings"@));
    assert(without.field("labels"@) == map.field("labels"@));
    assert(without.field("annotations"@) == map.field("annotations"@));
    assert(without.field("linux"@) == map.field("linux"@));
    assert(without.field("windows"@) == map.field("windows"@));
}

/// Where the identifier of a resolved description comes from: from the
/// description where it gives one, else from the fresh identifier that
/// was drawn for the purpose. Resolutions that draw different identifiers
/// for a description that gives none differ in the identifier.
pub proof fn lemma_pod_uid_source(config: JsonV, base_uid: Seq<char>, metadata_uid: Seq<char>)
    requires
        config is Object,
    ensures
        resolve_pod(config, base_uid, metadata_uid).metadata is Some,
        resolve_pod(config, base_uid, metadata_uid).metadata->Some_0.uid == match object_member(
            config,
            "metadata"@,
        ) {
            Some(m) => match string_member(m, "uid"@) {
                Some(given) => given,
                None => metadata_uid,
            },
            None => base_uid,
        },
{
}

/// Two resolutions of a description that gives no identifier, for which
/// different identifiers were drawn, differ in the identifier.
pub proof fn lemma_distinct_draws_give_distinct_pod_uids(
    config: JsonV,
    first_base: Seq<char>,
    first_metadata: Seq<char>,
    second_base: Seq<char>,
    second_metadata: Seq<char>,
)
    requires
        config is Object,
        object_member(config, "metadata"@) matches Some(m) ==> string_member(m, "uid"@) is None,
        first_base != second_base,
        first_metadata != second_metadata,
    ensures
        resolve_pod(config, first_base, first_metadata).metadata->Some_0.uid != resolve_pod(
            config,
            second_base,
            second_metadata,
        ).metadata->Some_0.uid,
{
    lemma_pod_uid_source(config, first_base, first_metadata);
    lemma_pod_uid_source(config, second_base, second_metadata);
}

/// Whether no field of a configuration is empty.
pub open spec fn pod_is_fully_populated(config: PodSandboxConfigV) -> bool {
    &&& config.metadata is Some
    &&& config.hostname.len() > 0
    &&& config.log_directory.len() > 0
    &&& config.dns_config is Some
    &&& config.port_mappings.len() > 0
    &&& config.labels != Map::<Seq<char>, Seq<char>>::empty()
    &&& config.annotations != Map::<Seq<char>, Seq<char>>::empty()
    &&& config.linux is Some
    &&& config.windows is Some
}

/// A configuration given in full, of which no field is empty, resolves to
/// itself: its identifier is kept, and nothing is taken from the defaults.
pub proof fn lemma_full_pod_config_resolves_to_itself(
    config: JsonV,
    base_uid: Seq<char>,
    metadata_uid: Seq<char>,
)
    requires
        !(config is Object),
        pod_config_of(config) is Some,
        pod_is_fully_populated(pod_config_of(config)->Some_0),
    ensures
        resolve_pod(config, base_uid, metadata_uid) == pod_config_of(config)->Some_0,
{
}

/// In a configuration given in full, metadata that is given is kept, and
/// metadata that is left out is the default metadata.
pub proof fn lemma_given_pod_metadata_is_kept(
    config: JsonV,
    base_uid: Seq<char>,
    metadata_uid: Seq<char>,
)
    requires
        !(config is Object),
        pod_config_of(config) is Some,
    ensures
        resolve_pod(config, base_uid, metadata_uid).metadata == if pod_config_of(
            config,
        )->Some_0.metadata is Some {
            pod_config_of(config)->Some_0.metadata
        } else {
            Some(default_pod_metadata_v(base_uid))
        },
{
}

/// A description that is neither an object nor a configuration in full
/// resolves to the default configuration.
pub proof fn lemma_unreadable_pod_description_gives_defaults(
    config: JsonV,
    base_uid: Seq<char>,
    metadata_uid: Seq<char>,
)
    requires
        !(config is Object),
        pod_config_of(config) is None,
    ensures
        resolve_pod(config, base_uid, metadata_uid) == default_pod_config_v(base_uid),
{
}

} // verus!
