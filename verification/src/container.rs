//! Container configuration: the record, its defaults, and its resolution
//! from a partial description.

use crate::extract::{
    bool_member, extract_bool, extract_map, extract_string, extract_u32, extract_value, list_of,
    object_member, opt_view, parse_section_list, parse_string_map, parse_typed_section,
    parse_typed_section_list, parse_typed_string_list, parse_typed_string_map, section_of,
    string_list_of, string_map_of, string_member, texts, typed_member, u32_member, view_of,
};
use crate::ident::{fresh_identifier, is_uuid_text};
use crate::json::{items_view, Json, JsonV};
use crate::json_text::{json_from_value, value_document};
use crate::merge::{
    extend_if_some, or_else, replace_list_if_given, replace_map_if_given, replace_text_if_given,
    set_if_some, update_if_some,
};
use crate::record::{
    member_is_left_out, opt_opt_view, optional_member, read_optional_section, read_record_member,
    read_required_bool, read_required_string, read_required_string_list, read_required_string_map,
    read_required_u32, record_member, required_bool, required_member, required_string,
    required_string_list, required_string_map, required_u32,
};
use crate::string_map::StringMap;
use vstd::prelude::*;

verus! {

/// The identity of a container within its pod sandbox.
#[derive(Debug, Clone)]
pub struct ContainerMetadata {
    pub name: String,
    pub attempt: u32,
}

/// The mathematical value of a [`ContainerMetadata`].
pub ghost struct ContainerMetadataV {
    pub name: Seq<char>,
    pub attempt: u32,
}

impl View for ContainerMetadata {
    type V = ContainerMetadataV;

    open spec fn view(&self) -> ContainerMetadataV {
        ContainerMetadataV { name: self.name@, attempt: self.attempt }
    }
}

/// The image that a container runs.
#[derive(Debug, Clone)]
pub struct ImageSpec {
    pub image: String,
    pub annotations: StringMap,
    pub runtime_handler: String,
    pub user_specified_image: String,
}

/// The mathematical value of an [`ImageSpec`].
pub ghost struct ImageSpecV {
    pub image: Seq<char>,
    pub annotations: Map<Seq<char>, Seq<char>>,
    pub runtime_handler: Seq<char>,
    pub user_specified_image: Seq<char>,
}

impl View for ImageSpec {
    type V = ImageSpecV;

    open spec fn view(&self) -> ImageSpecV {
        ImageSpecV {
            image: self.image@,
            annotations: self.annotations@,
            runtime_handler: self.runtime_handler@,
            user_specified_image: self.user_specified_image@,
        }
    }
}

/// A variable of a container's environment.
#[derive(Debug, Clone)]
pub struct KeyValue {
    pub key: String,
    pub value: String,
}

/// The mathematical value of a [`KeyValue`].
pub ghost struct KeyValueV {
    pub key: Seq<char>,
    pub value: Seq<char>,
}

impl View for KeyValue {
    type V = KeyValueV;

    open spec fn view(&self) -> KeyValueV {
        KeyValueV { key: self.key@, value: self.value@ }
    }
}

/// The values of a list of environment variables.
pub open spec fn key_values_view(items: Seq<KeyValue>) -> Seq<KeyValueV> {
    Seq::new(items.len(), |i: int| items[i]@)
}

/// The configuration of a container.
#[derive(Debug)]
pub struct ContainerConfig {
    pub metadata: Option<ContainerMetadata>,
    pub image: Option<ImageSpec>,
    pub command: Vec<String>,
    pub args: Vec<String>,
    pub working_dir: String,
    pub envs: Vec<KeyValue>,
    /// The mount descriptors, each kept as the JSON object that was given.
    pub mounts: Vec<Json>,
    /// The device descriptors, each kept as the JSON object that was given.
    pub devices: Vec<Json>,
    pub labels: StringMap,
    pub annotations: StringMap,
    pub log_path: String,
    pub stdin: bool,
    pub stdin_once: bool,
    pub tty: bool,
    /// The Linux section, kept as the JSON object that was given.
    pub linux: Option<Json>,
    /// The Windows section, kept as the JSON object that was given.
    pub windows: Option<Json>,
    /// The device identifiers, each kept as the JSON object that was given.
    pub cdi_devices: Vec<Json>,
}

/// The mathematical value of a [`ContainerConfig`].
pub ghost struct ContainerConfigV {
    pub metadata: Option<ContainerMetadataV>,
    pub image: Option<ImageSpecV>,
    pub command: Seq<Seq<char>>,
    pub args: Seq<Seq<char>>,
    pub working_dir: Seq<char>,
    pub envs: Seq<KeyValueV>,
    pub mounts: Seq<JsonV>,
    pub devices: Seq<JsonV>,
    pub labels: Map<Seq<char>, Seq<char>>,
    pub annotations: Map<Seq<char>, Seq<char>>,
    pub log_path: Seq<char>,
    pub stdin: bool,
    pub stdin_once: bool,
    pub tty: bool,
    pub linux: Option<JsonV>,
    pub windows: Option<JsonV>,
    pub cdi_devices: Seq<JsonV>,
}

impl View for ContainerConfig {
    type V = ContainerConfigV;

    open spec fn view(&self) -> ContainerConfigV {
        ContainerConfigV {
            metadata: opt_view(self.metadata),
            image: opt_view(self.image),
            command: texts(self.command@),
            args: texts(self.args@),
            working_dir: self.working_dir@,
            envs: key_values_view(self.envs@),
            mounts: items_view(self.mounts@),
            devices: items_view(self.devices@),
            labels: self.labels@,
            annotations: self.annotations@,
            log_path: self.log_path@,
            stdin: self.stdin,
            stdin_once: self.stdin_once,
            tty: self.tty,
            linux: opt_view(self.linux),
            windows: opt_view(self.windows),
            cdi_devices: items_view(self.cdi_devices@),
        }
    }
}

/// The first eight characters of `token`, or all of it where it is
/// shorter.
pub open spec fn token_prefix(token: Seq<char>) -> Seq<char> {
    if token.len() < 8 {
        token
    } else {
        token.subrange(0, 8)
    }
}

/// The metadata of a container of which nothing is given: its name is
/// `container-` and the first eight characters of `token`.
pub open spec fn default_container_metadata_v(token: Seq<char>) -> ContainerMetadataV {
    ContainerMetadataV { name: "container-"@ + token_prefix(token), attempt: 0 }
}

/// The image of a container of which nothing is given.
pub open spec fn default_image_spec_v() -> ImageSpecV {
    ImageSpecV {
        image: "nginx:latest"@,
        annotations: Map::empty(),
        runtime_handler: Seq::empty(),
        user_specified_image: Seq::empty(),
    }
}

/// The configuration of a container of which nothing is given; `token`
/// gives its name.
pub open spec fn default_container_config_v(token: Seq<char>) -> ContainerConfigV {
    ContainerConfigV {
        metadata: Some(default_container_metadata_v(token)),
        image: Some(default_image_spec_v()),
        command: Seq::empty(),
        args: Seq::empty(),
        working_dir: "/"@,
        envs: Seq::empty(),
        mounts: Seq::empty(),
        devices: Seq::empty(),
        labels: Map::empty(),
        annotations: Map::empty(),
        log_path: "container.log"@,
        stdin: false,
        stdin_once: false,
        tty: false,
        linux: None,
        windows: None,
        cdi_devices: Seq::empty(),
    }
}

/// The default metadata, named after `token`.
pub fn container_metadata_with_token(token: &str) -> (r: ContainerMetadata)
    ensures
        r@ == default_container_metadata_v(token@),
{
    let len = token.unicode_len();
    let prefix = if len < 8 {
        token
    } else {
        token.substring_char(0, 8)
    };
    ContainerMetadata { name: "container-".to_string().concat(prefix), attempt: 0 }
}

/// The default metadata, named after a fresh identifier.
pub fn default_container_metadata() -> (r: ContainerMetadata)
    ensures
        exists|token: Seq<char>|
            is_uuid_text(token) && r@ == #[trigger] default_container_metadata_v(token),
{
    let token = fresh_identifier();
    container_metadata_with_token(token.as_str())
}

/// The default image.
pub fn default_image_spec() -> (r: ImageSpec)
    ensures
        r@ == default_image_spec_v(),
{
    ImageSpec {
        image: "nginx:latest".to_string(),
        annotations: StringMap::new(),
        runtime_handler: String::new(),
        user_specified_image: String::new(),
    }
}

/// The default configuration, named after `token`.
pub fn container_config_with_token(token: &str) -> (r: ContainerConfig)
    ensures
        r@ == default_container_config_v(token@),
{
    let r = ContainerConfig {
        metadata: Some(container_metadata_with_token(token)),
        image: Some(default_image_spec()),
        command: Vec::new(),
        args: Vec::new(),
        working_dir: "/".to_string(),
        envs: Vec::new(),
        mounts: Vec::new(),
        devices: Vec::new(),
        labels: StringMap::new(),
        annotations: StringMap::new(),
        log_path: "container.log".to_string(),
        stdin: false,
        stdin_once: false,
        tty: false,
        linux: None,
        windows: None,
        cdi_devices: Vec::new(),
    };
    proof {
        let d = default_container_config_v(token@);
        assert(r@.command =~= d.command);
        assert(r@.args =~= d.args);
        assert(r@.envs =~= d.envs);
        assert(r@.mounts =~= d.mounts);
        assert(r@.devices =~= d.devices);
        assert(r@.cdi_devices =~= d.cdi_devices);
        assert(r@.metadata == d.metadata);
        assert(r@.image == d.image);
    }
    r
}

/// The default configuration, named after a fresh identifier.
pub fn default_container_config() -> (r: ContainerConfig)
    ensures
        exists|token: Seq<char>|
            is_uuid_text(token) && r@ == #[trigger] default_container_config_v(token),
{
    let token = fresh_identifier();
    container_config_with_token(token.as_str())
}

/// The metadata that the members of `map` describe; what `map` leaves
/// out is taken from the default metadata named after `token`.
pub open spec fn container_metadata_from_map(map: JsonV, token: Seq<char>) -> ContainerMetadataV {
    let base = default_container_metadata_v(token);
    ContainerMetadataV {
        name: or_else(string_member(map, "name"@), base.name),
        attempt: or_else(u32_member(map, "attempt"@), base.attempt),
    }
}

/// An attempt that is missing, or is no unsigned integer of 32 bits, leaves
/// the default attempt, which is zero; a number that does not fit is not
/// cut down to one that does.
pub proof fn lemma_misfit_container_attempt_keeps_default(map: JsonV, token: Seq<char>)
    requires
        map.field("attempt"@) matches Some(v) ==> v.as_u32() is None,
    ensures
        container_metadata_from_map(map, token).attempt == 0,
{
}

/// Reads metadata from `metadata_map`; where the map gives no name, the
/// name is made from `token`.
pub fn parse_container_metadata_with(metadata_map: &Json, token: &str) -> (r: ContainerMetadata)
    ensures
        r@ == container_metadata_from_map(metadata_map@, token@),
{
    let mut metadata = container_metadata_with_token(token);
    if let Some(name) = extract_string(metadata_map, "name") {
        metadata.name = name;
    }
    if let Some(attempt) = extract_u32(metadata_map, "attempt") {
        metadata.attempt = attempt;
    }
    metadata
}

/// Reads metadata from `metadata_map`; where the map gives no name, the
/// name is made from a fresh identifier.
pub fn parse_container_metadata(metadata_map: &Json) -> (r: ContainerMetadata)
    ensures
        exists|token: Seq<char>|
            is_uuid_text(token) && r@ == #[trigger] container_metadata_from_map(
                metadata_map@,
                token,
            ),
{
    let token = fresh_identifier();
    parse_container_metadata_with(metadata_map, token.as_str())
}

/// The image that the members of `map` describe; what `map` leaves out is
/// taken from the default image.
pub open spec fn image_spec_from_map(map: JsonV) -> ImageSpecV {
    let base = default_image_spec_v();
    ImageSpecV {
        image: or_else(string_member(map, "image"@), base.image),
        annotations: match typed_member(map, "annotations"@, |x: JsonV| string_map_of(x)) {
            Some(a) => base.annotations.union_prefer_right(a),
            None => base.annotations,
        },
        runtime_handler: or_else(string_member(map, "runtime_handler"@), base.runtime_handler),
        user_specified_image: or_else(
            string_member(map, "user_specified_image"@),
            base.user_specified_image,
        ),
    }
}

/// Reads an image from `image_map`.
pub fn parse_image_spec(image_map: &Json) -> (r: ImageSpec)
    ensures
        r@ == image_spec_from_map(image_map@),
{
    let mut image_spec = default_image_spec();
    if let Some(image) = extract_string(image_map, "image") {
        image_spec.image = image;
    }
    if let Some(runtime_handler) = extract_string(image_map, "runtime_handler") {
        image_spec.runtime_handler = runtime_handler;
    }
    if let Some(user_specified_image) = extract_string(image_map, "user_specified_image") {
        image_spec.user_specified_image = user_specified_image;
    }
    if let Some(value) = extract_value(image_map, "annotations") {
        if let Some(annotations) = parse_string_map(value) {
            image_spec.annotations.extend(&annotations);
        }
    }
    image_spec
}

/// The metadata that a document encodes in full.
pub open spec fn container_metadata_of(j: JsonV) -> Option<ContainerMetadataV> {
    let name = required_string(record_member(j, 0, "name"@, 2));
    let attempt = required_u32(record_member(j, 1, "attempt"@, 2));
    if name is Some && attempt is Some {
        Some(ContainerMetadataV { name: name->Some_0, attempt: attempt->Some_0 })
    } else {
        None
    }
}

/// Reads a document that encodes metadata in full.
pub fn strict_container_metadata(j: &Json) -> (r: Option<ContainerMetadata>)
    ensures
        opt_view(r) == container_metadata_of(j@),
{
    let name = read_required_string(read_record_member(j, 0, "name", 2));
    let attempt = read_required_u32(read_record_member(j, 1, "attempt", 2));
    match (name, attempt) {
        (Some(name), Some(attempt)) => Some(ContainerMetadata { name, attempt }),
        _ => None,
    }
}

/// The image that a document encodes in full.
pub open spec fn image_spec_of(j: JsonV) -> Option<ImageSpecV> {
    let image = required_string(record_member(j, 0, "image"@, 4));
    let annotations = required_string_map(record_member(j, 1, "annotations"@, 4));
    let runtime_handler = required_string(record_member(j, 2, "runtime_handler"@, 4));
    let user_specified_image = required_string(record_member(j, 3, "user_specified_image"@, 4));
    if image is Some && annotations is Some && runtime_handler is Some
        && user_specified_image is Some {
        Some(
            ImageSpecV {
                image: image->Some_0,
                annotations: annotations->Some_0,
                runtime_handler: runtime_handler->Some_0,
                user_specified_image: user_specified_image->Some_0,
            },
        )
    } else {
        None
    }
}

/// Reads a document that encodes an image in full.
pub fn strict_image_spec(j: &Json) -> (r: Option<ImageSpec>)
    ensures
        opt_view(r) == image_spec_of(j@),
{
    let image = read_required_string(read_record_member(j, 0, "image", 4));
    let annotations = read_required_string_map(read_record_member(j, 1, "annotations", 4));
    let runtime_handler = read_required_string(read_record_member(j, 2, "runtime_handler", 4));
    let user_specified_image = read_required_string(
        read_record_member(j, 3, "user_specified_image", 4),
    );
    match (image, annotations, runtime_handler, user_specified_image) {
        (Some(image), Some(annotations), Some(runtime_handler), Some(user_specified_image)) => Some(
            ImageSpec { image, annotations, runtime_handler, user_specified_image },
        ),
        _ => None,
    }
}

/// The environment variable that a document encodes in full.
pub open spec fn key_value_of(j: JsonV) -> Option<KeyValueV> {
    let key = required_string(record_member(j, 0, "key"@, 2));
    let value = required_string(record_member(j, 1, "value"@, 2));
    if key is Some && value is Some {
        Some(KeyValueV { key: key->Some_0, value: value->Some_0 })
    } else {
        None
    }
}

/// Reads a document that encodes an environment variable in full.
pub fn parse_key_value(j: &Json) -> (r: Option<KeyValue>)
    ensures
        opt_view(r) == key_value_of(j@),
{
    let key = read_required_string(read_record_member(j, 0, "key", 2));
    let value = read_required_string(read_record_member(j, 1, "value", 2));
    match (key, value) {
        (Some(key), Some(value)) => Some(KeyValue { key, value }),
        _ => None,
    }
}

/// The list of environment variables that a document encodes.
pub open spec fn key_values_of(j: JsonV) -> Option<Seq<KeyValueV>> {
    list_of(j, |x: JsonV| key_value_of(x))
}

/// Reads a document that encodes a list of environment variables.
pub fn parse_key_values(j: &Json) -> (r: Option<Vec<KeyValue>>)
    ensures
        match r {
            Some(v) => key_values_of(j@) == Some(key_values_view(v@)),
            None => key_values_of(j@) is None,
        },
{
    match j {
        Json::Array(items) => {
            let ghost item = |x: JsonV| key_value_of(x);
            let mut out: Vec<KeyValue> = Vec::new();
            let mut i: usize = 0;
            while i < items.len()
                invariant
                    j@ == JsonV::Array(items_view(items@)),
                    item == (|x: JsonV| key_value_of(x)),
                    i <= items.len(),
                    out.len() == i,
                    forall|k: int| 0 <= k < i ==> item(items@[k]@) == Some(#[trigger] out@[k]@),
                decreases items.len() - i,
            {
                match parse_key_value(&items[i]) {
                    Some(pair) => {
                        out.push(pair);
                    },
                    None => {
                        assert(item(j@->Array_0[i as int]) is None);
                        return None;
                    },
                }
                i = i + 1;
            }
            proof {
                let views = j@->Array_0;
                assert forall|k: int| 0 <= k < views.len() implies (#[trigger] item(
                    views[k],
                )) is Some by {
                    assert(item(items@[k]@) == Some(out@[k]@));
                }
                assert(key_values_view(out@) =~= Seq::new(
                    views.len(),
                    |k: int| item(views[k])->Some_0,
                )) by {
                    assert forall|k: int| 0 <= k < views.len() implies key_values_view(out@)[k]
                        == item(views[k])->Some_0 by {
                        assert(item(items@[k]@) == Some(out@[k]@));
                    }
                }
            }
            Some(out)
        },
        _ => None,
    }
}

/// The image that results from the `image` member of `map`: an object
/// describes the image anew, a string names the image of `base`, anything
/// else leaves `base` as it is.
pub open spec fn image_from_member(base: Option<ImageSpecV>, map: JsonV) -> Option<ImageSpecV> {
    match object_member(map, "image"@) {
        Some(m) => Some(image_spec_from_map(m)),
        None => match string_member(map, "image"@) {
            Some(name) => match base {
                Some(spec) => Some(ImageSpecV { image: name, ..spec }),
                None => None,
            },
            None => base,
        },
    }
}

/// The configuration that results from `base` when the members of `map`
/// are applied to it. A member that is missing or of another shape leaves
/// its field as it is. Metadata is rebuilt from its member, named after
/// `token` where the member gives no name; scalars, lists and sections are
/// replaced; labels and annotations are added to those of `base` and win
/// over them.
pub open spec fn container_config_from_map(
    base: ContainerConfigV,
    map: JsonV,
    token: Seq<char>,
) -> ContainerConfigV {
    ContainerConfigV {
        metadata: match object_member(map, "metadata"@) {
            Some(m) => Some(container_metadata_from_map(m, token)),
            None => base.metadata,
        },
        image: image_from_member(base.image, map),
        command: or_else(
            typed_member(map, "command"@, |x: JsonV| string_list_of(x)),
            base.command,
        ),
        args: or_else(typed_member(map, "args"@, |x: JsonV| string_list_of(x)), base.args),
        working_dir: or_else(string_member(map, "working_dir"@), base.working_dir),
        envs: or_else(typed_member(map, "envs"@, |x: JsonV| key_values_of(x)), base.envs),
        mounts: or_else(
            typed_member(map, "mounts"@, |x: JsonV| list_of(x, |y: JsonV| section_of(y))),
            base.mounts,
        ),
        devices: or_else(
            typed_member(map, "devices"@, |x: JsonV| list_of(x, |y: JsonV| section_of(y))),
            base.devices,
        ),
        labels: match typed_member(map, "labels"@, |x: JsonV| string_map_of(x)) {
            Some(l) => base.labels.union_prefer_right(l),
            None => base.labels,
        },
        annotations: match typed_member(map, "annotations"@, |x: JsonV| string_map_of(x)) {
            Some(a) => base.annotations.union_prefer_right(a),
            None => base.annotations,
        },
        log_path: or_else(string_member(map, "log_path"@), base.log_path),
        stdin: or_else(bool_member(map, "stdin"@), base.stdin),
        stdin_once: or_else(bool_member(map, "stdin_once"@), base.stdin_once),
        tty: or_else(bool_member(map, "tty"@), base.tty),
        linux: match typed_member(map, "linux"@, |x: JsonV| section_of(x)) {
            Some(l) => Some(l),
            None => base.linux,
        },
        windows: match typed_member(map, "windows"@, |x: JsonV| section_of(x)) {
            Some(w) => Some(w),
            None => base.windows,
        },
        cdi_devices: or_else(
            typed_member(map, "cdi_devices"@, |x: JsonV| list_of(x, |y: JsonV| section_of(y))),
            base.cdi_devices,
        ),
    }
}

/// Reads the `metadata` member of `user_config`, where it is an object;
/// where the member gives no name, the name is made from `token`.
pub fn parse_typed_container_metadata(user_config: &Json, token: &str) -> (r: Option<
    ContainerMetadata,
>)
    ensures
        opt_view(r) == match object_member(user_config@, "metadata"@) {
            Some(m) => Some(container_metadata_from_map(m, token@)),
            None => None,
        },
{
    match extract_map(user_config, "metadata") {
        Some(metadata_map) => Some(parse_container_metadata_with(metadata_map, token)),
        None => None,
    }
}

/// Applies the `image` member of `user_config` to the image `current`.
pub fn parse_typed_image(current: Option<ImageSpec>, user_config: &Json) -> (r: Option<ImageSpec>)
    ensures
        opt_view(r) == image_from_member(opt_view(current), user_config@),
{
    if let Some(image_map) = extract_map(user_config, "image") {
        Some(parse_image_spec(image_map))
    } else if let Some(image_ref) = extract_string(user_config, "image") {
        match current {
            Some(spec) => Some(
                ImageSpec {
                    image: image_ref,
                    annotations: spec.annotations,
                    runtime_handler: spec.runtime_handler,
                    user_specified_image: spec.user_specified_image,
                },
            ),
            None => None,
        }
    } else {
        current
    }
}

/// Reads the member stored under `key` as a list of environment variables.
pub fn parse_typed_key_values(map: &Json, key: &str) -> (r: Option<Vec<KeyValue>>)
    ensures
        match r {
            Some(v) => typed_member(map@, key@, |x: JsonV| key_values_of(x)) == Some(
                key_values_view(v@),
            ),
            None => typed_member(map@, key@, |x: JsonV| key_values_of(x)) is None,
        },
{
    match extract_value(map, key) {
        Some(v) => parse_key_values(v),
        None => None,
    }
}

/// Applies the members of `user_config` to `container_config`; rebuilt
/// metadata that gives no name is named after `token`.
pub fn parse_container_config_from_map_with(
    container_config: &mut ContainerConfig,
    user_config: &Json,
    token: &str,
)
    ensures
        final(container_config)@ == container_config_from_map(
            old(container_config)@,
            user_config@,
            token@,
        ),
{
    set_if_some(
        &mut container_config.metadata,
        parse_typed_container_metadata(user_config, token),
    );
    let image = container_config.image.take();
    container_config.image = parse_typed_image(image, user_config);
    update_if_some(&mut container_config.working_dir, extract_string(user_config, "working_dir"));
    update_if_some(&mut container_config.log_path, extract_string(user_config, "log_path"));
    update_if_some(&mut container_config.stdin, extract_bool(user_config, "stdin"));
    update_if_some(&mut container_config.stdin_once, extract_bool(user_config, "stdin_once"));
    update_if_some(&mut container_config.tty, extract_bool(user_config, "tty"));
    update_if_some(
        &mut container_config.command,
        parse_typed_string_list(user_config, "command"),
    );
    update_if_some(&mut container_config.args, parse_typed_string_list(user_config, "args"));
    update_if_some(&mut container_config.envs, parse_typed_key_values(user_config, "envs"));
    update_if_some(
        &mut container_config.mounts,
        parse_typed_section_list(user_config, "mounts"),
    );
    update_if_some(
        &mut container_config.devices,
        parse_typed_section_list(user_config, "devices"),
    );
    update_if_some(
        &mut container_config.cdi_devices,
        parse_typed_section_list(user_config, "cdi_devices"),
    );
    set_if_some(&mut container_config.linux, parse_typed_section(user_config, "linux"));
    set_if_some(&mut container_config.windows, parse_typed_section(user_config, "windows"));
    extend_if_some(&mut container_config.labels, parse_typed_string_map(user_config, "labels"));
    extend_if_some(
        &mut container_config.annotations,
        parse_typed_string_map(user_config, "annotations"),
    );
}

/// Applies the members of `user_config` to `container_config`; rebuilt
/// metadata that gives no name is named after a fresh identifier.
pub fn parse_container_config_from_map(container_config: &mut ContainerConfig, user_config: &Json)
    ensures
        exists|token: Seq<char>|
            is_uuid_text(token) && final(container_config)@
                == #[trigger] container_config_from_map(
                old(container_config)@,
                user_config@,
                token,
            ),
{
    let token = fresh_identifier();
    parse_container_config_from_map_with(container_config, user_config, token.as_str())
}

/// The configuration that results from `target` when every field of
/// `source` that is not empty replaces the field of `target`. The three
/// flags of `source` always replace those of `target`.
pub open spec fn merge_container(
    target: ContainerConfigV,
    source: ContainerConfigV,
) -> ContainerConfigV {
    ContainerConfigV {
        metadata: if source.metadata is Some {
            source.metadata
        } else {
            target.metadata
        },
        image: if source.image is Some {
            source.image
        } else {
            target.image
        },
        command: if source.command.len() > 0 {
            source.command
        } else {
            target.command
        },
        args: if source.args.len() > 0 {
            source.args
        } else {
            target.args
        },
        working_dir: if source.working_dir.len() > 0 {
            source.working_dir
        } else {
            target.working_dir
        },
        envs: if source.envs.len() > 0 {
            source.envs
        } else {
            target.envs
        },
        mounts: if source.mounts.len() > 0 {
            source.mounts
        } else {
            target.mounts
        },
        devices: if source.devices.len() > 0 {
            source.devices
        } else {
            target.devices
        },
        labels: if source.labels != Map::<Seq<char>, Seq<char>>::empty() {
            source.labels
        } else {
            target.labels
        },
        annotations: if source.annotations != Map::<Seq<char>, Seq<char>>::empty() {
            source.annotations
        } else {
            target.annotations
        },
        log_path: if source.log_path.len() > 0 {
            source.log_path
        } else {
            target.log_path
        },
        stdin: source.stdin,
        stdin_once: source.stdin_once,
        tty: source.tty,
        linux: if source.linux is Some {
            source.linux
        } else {
            target.linux
        },
        windows: if source.windows is Some {
            source.windows
        } else {
            target.windows
        },
        cdi_devices: if source.cdi_devices.len() > 0 {
            source.cdi_devices
        } else {
            target.cdi_devices
        },
    }
}

/// Replaces each field of `target` by the field of `source`, where that
/// is not empty; the three flags are always replaced.
pub fn merge_container_config(target: &mut ContainerConfig, source: ContainerConfig)
    ensures
        final(target)@ == merge_container(old(target)@, source@),
{
    set_if_some(&mut target.metadata, source.metadata);
    set_if_some(&mut target.image, source.image);
    replace_list_if_given(&mut target.command, source.command);
    replace_list_if_given(&mut target.args, source.args);
    replace_text_if_given(&mut target.working_dir, source.working_dir);
    replace_list_if_given(&mut target.envs, source.envs);
    replace_list_if_given(&mut target.mounts, source.mounts);
    replace_list_if_given(&mut target.devices, source.devices);
    replace_map_if_given(&mut target.labels, source.labels);
    replace_map_if_given(&mut target.annotations, source.annotations);
    replace_text_if_given(&mut target.log_path, source.log_path);
    target.stdin = source.stdin;
    target.stdin_once = source.stdin_once;
    target.tty = source.tty;
    set_if_some(&mut target.linux, source.linux);
    set_if_some(&mut target.windows, source.windows);
    replace_list_if_given(&mut target.cdi_devices, source.cdi_devices);
}

/// The configuration that a document encodes in full, as an object of its
/// fields by name or as an array of its seventeen fields in order: every
/// field but metadata, the image and the platform sections must be there.
/// A platform section, a mount, a device and a device identifier are any
/// objects, and are taken as they are.
pub open spec fn container_config_of(j: JsonV) -> Option<ContainerConfigV> {
    let metadata = optional_member(
        record_member(j, 0, "metadata"@, 17),
        |x: JsonV| container_metadata_of(x),
    );
    let image = optional_member(record_member(j, 1, "image"@, 17), |x: JsonV| image_spec_of(x));
    let command = required_string_list(record_member(j, 2, "command"@, 17));
    let args = required_string_list(record_member(j, 3, "args"@, 17));
    let working_dir = required_string(record_member(j, 4, "working_dir"@, 17));
    let envs = required_member(record_member(j, 5, "envs"@, 17), |x: JsonV| key_values_of(x));
    let mounts = required_member(
        record_member(j, 6, "mounts"@, 17),
        |x: JsonV| list_of(x, |y: JsonV| section_of(y)),
    );
    let devices = required_member(
        record_member(j, 7, "devices"@, 17),
        |x: JsonV| list_of(x, |y: JsonV| section_of(y)),
    );
    let labels = required_string_map(record_member(j, 8, "labels"@, 17));
    let annotations = required_string_map(record_member(j, 9, "annotations"@, 17));
    let log_path = required_string(record_member(j, 10, "log_path"@, 17));
    let stdin = required_bool(record_member(j, 11, "stdin"@, 17));
    let stdin_once = required_bool(record_member(j, 12, "stdin_once"@, 17));
    let tty = required_bool(record_member(j, 13, "tty"@, 17));
    let linux = optional_member(record_member(j, 14, "linux"@, 17), |x: JsonV| section_of(x));
    let windows = optional_member(record_member(j, 15, "windows"@, 17), |x: JsonV| section_of(x));
    let cdi_devices = required_member(
        record_member(j, 16, "cdi_devices"@, 17),
        |x: JsonV| list_of(x, |y: JsonV| section_of(y)),
    );
    if metadata is Some && image is Some && command is Some && args is Some && working_dir is Some
        && envs is Some && mounts is Some && devices is Some && labels is Some
        && annotations is Some && log_path is Some && stdin is Some && stdin_once is Some
        && tty is Some && linux is Some && windows is Some && cdi_devices is Some {
        Some(
            ContainerConfigV {
                metadata: metadata->Some_0,
                image: image->Some_0,
                command: command->Some_0,
                args: args->Some_0,
                working_dir: working_dir->Some_0,
                envs: envs->Some_0,
                mounts: mounts->Some_0,
                devices: devices->Some_0,
                labels: labels->Some_0,
                annotations: annotations->Some_0,
                log_path: log_path->Some_0,
                stdin: stdin->Some_0,
                stdin_once: stdin_once->Some_0,
                tty: tty->Some_0,
                linux: linux->Some_0,
                windows: windows->Some_0,
                cdi_devices: cdi_devices->Some_0,
            },
        )
    } else {
        None
    }
}

fn read_optional_container_metadata(member: Option<&Json>) -> (r: Option<
    Option<ContainerMetadata>,
>)
    ensures
        opt_opt_view(r) == optional_member(view_of(member), |x: JsonV| container_metadata_of(x)),
{
    if member_is_left_out(member) {
        Some(None)
    } else {
        match strict_container_metadata(member.unwrap()) {
            Some(metadata) => Some(Some(metadata)),
            None => None,
        }
    }
}

fn read_optional_image_spec(member: Option<&Json>) -> (r: Option<Option<ImageSpec>>)
    ensures
        opt_opt_view(r) == optional_member(view_of(member), |x: JsonV| image_spec_of(x)),
{
    if member_is_left_out(member) {
        Some(None)
    } else {
        match strict_image_spec(member.unwrap()) {
            Some(image) => Some(Some(image)),
            None => None,
        }
    }
}

fn read_required_key_values(member: Option<&Json>) -> (r: Option<Vec<KeyValue>>)
    ensures
        match r {
            Some(v) => required_member(view_of(member), |x: JsonV| key_values_of(x)) == Some(
                key_values_view(v@),
            ),
            None => required_member(view_of(member), |x: JsonV| key_values_of(x)) is None,
        },
{
    match member {
        Some(v) => parse_key_values(v),
        None => None,
    }
}

fn read_required_section_list(member: Option<&Json>) -> (r: Option<Vec<Json>>)
    ensures
        match r {
            Some(v) => required_member(
                view_of(member),
                |x: JsonV| list_of(x, |y: JsonV| section_of(y)),
            ) == Some(items_view(v@)),
            None => required_member(
                view_of(member),
                |x: JsonV| list_of(x, |y: JsonV| section_of(y)),
            ) is None,
        },
{
    match member {
        Some(v) => parse_section_list(v),
        None => None,
    }
}

/// Reads a document that encodes a configuration in full.
pub fn strict_container_config(j: &Json) -> (r: Option<ContainerConfig>)
    ensures
        opt_view(r) == container_config_of(j@),
{
    let metadata = read_optional_container_metadata(read_record_member(j, 0, "metadata", 17))?;
    let image = read_optional_image_spec(read_record_member(j, 1, "image", 17))?;
    let command = read_required_string_list(read_record_member(j, 2, "command", 17))?;
    let args = read_required_string_list(read_record_member(j, 3, "args", 17))?;
    let working_dir = read_required_string(read_record_member(j, 4, "working_dir", 17))?;
    let envs = read_required_key_values(read_record_member(j, 5, "envs", 17))?;
    let mounts = read_required_section_list(read_record_member(j, 6, "mounts", 17))?;
    let devices = read_required_section_list(read_record_member(j, 7, "devices", 17))?;
    let labels = read_required_string_map(read_record_member(j, 8, "labels", 17))?;
    let annotations = read_required_string_map(read_record_member(j, 9, "annotations", 17))?;
    let log_path = read_required_string(read_record_member(j, 10, "log_path", 17))?;
    let stdin = read_required_bool(read_record_member(j, 11, "stdin", 17))?;
    let stdin_once = read_required_bool(read_record_member(j, 12, "stdin_once", 17))?;
    let tty = read_required_bool(read_record_member(j, 13, "tty", 17))?;
    let linux = read_optional_section(read_record_member(j, 14, "linux", 17))?;
    let windows = read_optional_section(read_record_member(j, 15, "windows", 17))?;
    let cdi_devices = read_required_section_list(read_record_member(j, 16, "cdi_devices", 17))?;
    Some(
        ContainerConfig {
            metadata,
            image,
            command,
            args,
            working_dir,
            envs,
            mounts,
            devices,
            labels,
            annotations,
            log_path,
            stdin,
            stdin_once,
            tty,
            linux,
            windows,
            cdi_devices,
        },
    )
}

/// The configuration that a description resolves to. An object is applied
/// member by member to the default configuration. Any other document is
/// read as a configuration in full, which only an array of the fields can
/// be, and its fields that are not empty replace those of the default
/// configuration. A document that is neither resolves to the default
/// configuration. `base_token` names the default
/// configuration, `metadata_token` metadata rebuilt from a member that
/// gives no name.
pub open spec fn resolve_container(
    config: JsonV,
    base_token: Seq<char>,
    metadata_token: Seq<char>,
) -> ContainerConfigV {
    let base = default_container_config_v(base_token);
    if config is Object {
        container_config_from_map(base, config, metadata_token)
    } else {
        match container_config_of(config) {
            Some(direct) => merge_container(base, direct),
            None => base,
        }
    }
}

/// Resolves a description of a container with the given tokens.
pub fn resolve_container_config(config: &Json, base_token: &str, metadata_token: &str) -> (r:
    ContainerConfig)
    ensures
        r@ == resolve_container(config@, base_token@, metadata_token@),
        r.metadata is Some,
{
    let mut container_config = container_config_with_token(base_token);
    if config.is_object() {
        parse_container_config_from_map_with(&mut container_config, config, metadata_token);
    } else if let Some(direct_config) = strict_container_config(config) {
        merge_container_config(&mut container_config, direct_config);
    }
    container_config
}

/// Resolves a description of a container into a complete configuration.
/// A name that the description does not give is made from a freshly
/// generated identifier.
pub fn parse_container_config(config: serde_json::Value) -> (r: ContainerConfig)
    ensures
        r.metadata is Some,
        exists|base_token: Seq<char>, metadata_token: Seq<char>|
            is_uuid_text(base_token) && is_uuid_text(metadata_token) && r@
                == #[trigger] resolve_container(
                value_document(config),
                base_token,
                metadata_token,
            ),
{
    let document = json_from_value(&config);
    let base_token = fresh_identifier();
    let metadata_token = fresh_identifier();
    let resolved = resolve_container_config(
        &document,
        base_token.as_str(),
        metadata_token.as_str(),
    );
    assert(resolved@ == resolve_container(value_document(config), base_token@, metadata_token@));
    resolved
}

/// A field whose member a description leaves out keeps its default value.
pub proof fn lemma_omitted_container_members_keep_defaults(
    config: JsonV,
    base_token: Seq<char>,
    metadata_token: Seq<char>,
)
    requires
        config is Object,
    ensures
        ({
            let resolved = resolve_container(config, base_token, metadata_token);
            let defaults = default_container_config_v(base_token);
            &&& config.field("metadata"@) is None ==> resolved.metadata == defaults.metadata
            &&& config.field("image"@) is None ==> resolved.image == defaults.image
            &&& config.field("command"@) is None ==> resolved.command == defaults.command
            &&& config.field("args"@) is None ==> resolved.args == defaults.args
            &&& config.field("working_dir"@) is None ==> resolved.working_dir
                == defaults.working_dir
            &&& config.field("envs"@) is None ==> resolved.envs == defaults.envs
            &&& config.field("mounts"@) is None ==> resolved.mounts == defaults.mounts
            &&& config.field("devices"@) is None ==> resolved.devices == defaults.devices
            &&& config.field("labels"@) is None ==> resolved.labels == defaults.labels
            &&& config.field("annotations"@) is None ==> resolved.annotations
                == defaults.annotations
            &&& config.field("log_path"@) is None ==> resolved.log_path == defaults.log_path
            &&& config.field("stdin"@) is None ==> resolved.stdin == defaults.stdin
            &&& config.field("stdin_once"@) is None ==> resolved.stdin_once == defaults.stdin_once
            &&& config.field("tty"@) is None ==> resolved.tty == defaults.tty
            &&& config.field("linux"@) is None ==> resolved.linux == defaults.linux
            &&& config.field("windows"@) is None ==> resolved.windows == defaults.windows
            &&& config.field("cdi_devices"@) is None ==> resolved.cdi_devices
                == defaults.cdi_devices
        }),
{
}

/// Labels that a description gives are united with those that were
/// there: every given entry is in the result with the given value, and
/// every other entry that was there stays.
pub proof fn lemma_container_labels_are_united(
    base: ContainerConfigV,
    map: JsonV,
    token: Seq<char>,
    given: Map<Seq<char>, Seq<char>>,
)
    requires
        typed_member(map, "labels"@, |x: JsonV| string_map_of(x)) == Some(given),
    ensures
        ({
            let labels = container_config_from_map(base, map, token).labels;
            &&& labels == base.labels.union_prefer_right(given)
            &&& forall|k: Seq<char>| #[trigger]
                given.contains_key(k) ==> labels.contains_key(k) && labels[k] == given[k]
            &&& forall|k: Seq<char>|
                base.labels.contains_key(k) && !given.contains_key(k)
                    ==> #[trigger] labels.contains_key(k) && labels[k] == base.labels[k]
        }),
{
}

/// Annotations that a description gives are united with those that were
/// there, as labels are.
pub proof fn lemma_container_annotations_are_united(
    base: ContainerConfigV,
    map: JsonV,
    token: Seq<char>,
    given: Map<Seq<char>, Seq<char>>,
)
    requires
        typed_member(map, "annotations"@, |x: JsonV| string_map_of(x)) == Some(given),
    ensures
        ({
            let annotations = container_config_from_map(base, map, token).annotations;
            &&& annotations == base.annotations.union_prefer_right(given)
            &&& forall|k: Seq<char>| #[trigger]
                given.contains_key(k) ==> annotations.contains_key(k) && annotations[k]
                    == given[k]
            &&& forall|k: Seq<char>|
                base.annotations.contains_key(k) && !given.contains_key(k)
                    ==> #[trigger] annotations.contains_key(k) && annotations[k]
                    == base.annotations[k]
        }),
{
}

/// The labels of a resolved description that gives labels are the default
/// labels united with the given ones; as there are no default labels, they
/// are the given ones.
pub proof fn lemma_resolved_container_labels(
    config: JsonV,
    base_token: Seq<char>,
    metadata_token: Seq<char>,
    given: Map<Seq<char>, Seq<char>>,
)
    requires
        typed_member(config, "labels"@, |x: JsonV| string_map_of(x)) == Some(given),
    ensures
        resolve_container(config, base_token, metadata_token).labels
            == default_container_config_v(base_token).labels.union_prefer_right(given),
        resolve_container(config, base_token, metadata_token).labels == given,
{
    assert(Map::<Seq<char>, Seq<char>>::empty().union_prefer_right(given) =~= given);
}

/// A list that a description gives is the list of the result, whatever
/// was there.
pub proof fn lemma_container_lists_are_replaced(
    base: ContainerConfigV,
    map: JsonV,
    token: Seq<char>,
)
    ensures
        ({
            let resolved = container_config_from_map(base, map, token);
            let sections = |x: JsonV| list_of(x, |y: JsonV| section_of(y));
            &&& typed_member(map, "command"@, |x: JsonV| string_list_of(x)) matches Some(given)
                ==> resolved.command == given
            &&& typed_member(map, "args"@, |x: JsonV| string_list_of(x)) matches Some(given)
                ==> resolved.args == given
            &&& typed_member(map, "envs"@, |x: JsonV| key_values_of(x)) matches Some(given)
                ==> resolved.envs == given
            &&& typed_member(map, "mounts"@, sections) matches Some(given) ==> resolved.mounts
                == given
            &&& typed_member(map, "devices"@, sections) matches Some(given) ==> resolved.devices
                == given
            &&& typed_member(map, "cdi_devices"@, sections) matches Some(given)
                ==> resolved.cdi_devices == given
        }),
{
}

/// An image member that is a string names the image and leaves the rest
/// of the image as it was.
pub proof fn lemma_image_name_shorthand(base: ContainerConfigV, map: JsonV, token: Seq<char>)
    requires
        base.image is Some,
        string_member(map, "image"@) is Some,
    ensures
        container_config_from_map(base, map, token).image == Some(
            ImageSpecV { image: string_member(map, "image"@)->Some_0, ..base.image->Some_0 },
        ),
{
}

/// Where the name of a resolved description comes from: from the
/// description where it gives one, else from the fresh identifier that
/// was drawn for the purpose.
pub proof fn lemma_container_name_source(
    config: JsonV,
    base_token: Seq<char>,
    metadata_token: Seq<char>,
)
    requires
        config is Object,
    ensures
        resolve_container(config, base_token, metadata_token).metadata is Some,
        resolve_container(config, base_token, metadata_token).metadata->Some_0.name
            == match object_member(config, "metadata"@) {
            Some(m) => match string_member(m, "name"@) {
                Some(given) => given,
                None => "container-"@ + token_prefix(metadata_token),
            },
            None => "container-"@ + token_prefix(base_token),
        },
{
}

/// Two resolutions of a description that gives no name, for which
/// identifiers were drawn that differ in their first eight characters,
/// differ in the name.
pub proof fn lemma_distinct_draws_give_distinct_container_names(
    config: JsonV,
    first_base: Seq<char>,
    first_metadata: Seq<char>,
    second_base: Seq<char>,
    second_metadata: Seq<char>,
)
    requires
        config is Object,
        object_member(config, "metadata"@) matches Some(m) ==> string_member(m, "name"@) is None,
        token_prefix(first_base) != token_prefix(second_base),
        token_prefix(first_metadata) != token_prefix(second_metadata),
    ensures
        resolve_container(config, first_base, first_metadata).metadata->Some_0.name
            != resolve_container(config, second_base, second_metadata).metadata->Some_0.name,
{
    lemma_container_name_source(config, first_base, first_metadata);
    lemma_container_name_source(config, second_base, second_metadata);
    let stem = "container-"@;
    assert forall|a: Seq<char>, b: Seq<char>| stem + a == stem + b implies a == b by {
        assert((stem + a).subrange(stem.len() as int, (stem + a).len() as int) =~= a);
        assert((stem + b).subrange(stem.len() as int, (stem + b).len() as int) =~= b);
    }
}

/// Whether no field of a configuration is empty; the three flags may hold
/// either value.
pub open spec fn container_is_fully_populated(config: ContainerConfigV) -> bool {
    &&& config.metadata is Some
    &&& config.image is Some
    &&& config.command.len() > 0
    &&& config.args.len() > 0
    &&& config.working_dir.len() > 0
    &&& config.envs.len() > 0
    &&& config.mounts.len() > 0
    &&& config.devices.len() > 0
    &&& config.labels != Map::<Seq<char>, Seq<char>>::empty()
    &&& config.annotations != Map::<Seq<char>, Seq<char>>::empty()
    &&& config.log_path.len() > 0
    &&& config.linux is Some
    &&& config.windows is Some
    &&& config.cdi_devices.len() > 0
}

/// A configuration given in full, of which no field is empty, resolves to
/// itself: its name is kept, and nothing is taken from the defaults.
pub proof fn lemma_full_container_config_resolves_to_itself(
    config: JsonV,
    base_token: Seq<char>,
    metadata_token: Seq<char>,
)
    requires
        !(config is Object),
        container_config_of(config) is Some,
        container_is_fully_populated(container_config_of(config)->Some_0),
    ensures
        resolve_container(config, base_token, metadata_token) == container_config_of(
            config,
        )->Some_0,
{
}

/// A description that is neither an object nor a configuration in full
/// resolves to the default configuration.
pub proof fn lemma_unreadable_container_description_gives_defaults(
    config: JsonV,
    base_token: Seq<char>,
    metadata_token: Seq<char>,
)
    requires
        !(config is Object),
        container_config_of(config) is None,
    ensures
        resolve_container(config, base_token, metadata_token) == default_container_config_v(
            base_token,
        ),
{
}

} // verus!
