//! The descriptions from which the create operations resolve their
//! configurations: the named parameters of the operation, overridden by
//! the free-form options.

use crate::container::{
    default_image_spec_v, resolve_container, resolve_container_config, ContainerConfig,
    ContainerMetadataV, ImageSpecV,
};
use crate::extract::{object_member, opt_view, string_member, u32_member};
use crate::ident::{fresh_identifier, is_uuid_text};
use crate::json::{entries_view, Json, JsonNumber, JsonV};
use crate::json_text::{json_of_text, parse_json};
use crate::pod::{resolve_pod, resolve_pod_config, PodSandboxConfig, PodSandboxMetadataV};
use vstd::prelude::*;

verus! {

/// The members that the parameters of a pod creation give.
pub open spec fn pod_request_base(name: Seq<char>, namespace: Seq<char>, uid: Seq<char>) -> Map<
    Seq<char>,
    JsonV,
> {
    Map::<Seq<char>, JsonV>::empty().insert(
        "metadata"@,
        JsonV::Object(
            Map::<Seq<char>, JsonV>::empty().insert("name"@, JsonV::Str(name)).insert(
                "namespace"@,
                JsonV::Str(namespace),
            ).insert("uid"@, JsonV::Str(uid)).insert(
                "attempt"@,
                JsonV::Number(JsonNumber::PosInt(0)),
            ),
        ),
    ).insert("hostname"@, JsonV::Str(name + "-"@ + namespace))
}

/// The description of a pod creation: the members that its parameters
/// give, overridden by the members of `options`. There is none where
/// `options` is no object.
pub open spec fn pod_request(
    name: Seq<char>,
    namespace: Seq<char>,
    uid: Seq<char>,
    options: JsonV,
) -> Option<JsonV> {
    match options {
        JsonV::Object(members) => Some(
            JsonV::Object(pod_request_base(name, namespace, uid).union_prefer_right(members)),
        ),
        _ => None,
    }
}

/// Copies the members of `source` behind those of `target`, where they
/// override them.
fn append_members(target: &mut Vec<(String, Json)>, source: &Vec<(String, Json)>)
    ensures
        entries_view(final(target)@) == entries_view(old(target)@).union_prefer_right(
            entries_view(source@),
        ),
{
    let mut i: usize = 0;
    assert(source@.subrange(0, 0) =~= Seq::<(String, Json)>::empty());
    assert(entries_view(target@) =~= entries_view(old(target)@).union_prefer_right(
        entries_view(source@.subrange(0, 0)),
    ));
    while i < source.len()
        invariant
            i <= source.len(),
            entries_view(target@) == entries_view(old(target)@).union_prefer_right(
                entries_view(source@.subrange(0, i as int)),
            ),
        decreases source.len() - i,
    {
        let key = source[i].0.clone();
        let value = source[i].1.clone();
        proof {
            let upto = source@.subrange(0, i as int + 1);
            assert(upto.drop_last() =~= source@.subrange(0, i as int));
            assert(upto.last() == source@[i as int]);
            assert(target@.push((key, value)).drop_last() =~= target@);
            assert(entries_view(target@.push((key, value))) =~= entries_view(
                old(target)@,
            ).union_prefer_right(entries_view(upto)));
        }
        target.push((key, value));
        i = i + 1;
    }
    assert(source@.subrange(0, i as int) =~= source@);
}

/// Builds the description of a pod creation.
pub fn pod_request_document(name: &str, namespace: &str, uid: &str, options: &Json) -> (r: Option<
    Json,
>)
    ensures
        opt_view(r) == pod_request(name@, namespace@, uid@, options@),
{
    match options {
        Json::Object(members) => {
            let mut metadata: Vec<(String, Json)> = Vec::new();
            metadata.push(("name".to_string(), Json::Str(name.to_string())));
            metadata.push(("namespace".to_string(), Json::Str(namespace.to_string())));
            metadata.push(("uid".to_string(), Json::Str(uid.to_string())));
            metadata.push(("attempt".to_string(), Json::Number(JsonNumber::PosInt(0))));
            let hostname = name.to_string().concat("-").concat(namespace);
            let mut entries: Vec<(String, Json)> = Vec::new();
            entries.push(("metadata".to_string(), Json::Object(metadata)));
            entries.push(("hostname".to_string(), Json::Str(hostname)));
            proof {
                lemma_entries_unfold_4(metadata@);
                lemma_entries_unfold_2(entries@);
            }
            append_members(&mut entries, members);
            Some(Json::Object(entries))
        },
        _ => None,
    }
}

/// The members that the parameters of a container creation give.
pub open spec fn container_request_base(name: Seq<char>, image: Seq<char>) -> Map<
    Seq<char>,
    JsonV,
> {
    Map::<Seq<char>, JsonV>::empty().insert(
        "metadata"@,
        JsonV::Object(Map::<Seq<char>, JsonV>::empty().insert("name"@, JsonV::Str(name))),
    ).insert(
        "image"@,
        JsonV::Object(Map::<Seq<char>, JsonV>::empty().insert("image"@, JsonV::Str(image))),
    ).insert("log_path"@, JsonV::Str(name + "/0.log"@))
}

/// The description of a container creation: the members that its
/// parameters give, overridden by the members of `options`. There is none
/// where `options` is no object.
pub open spec fn container_request(name: Seq<char>, image: Seq<char>, options: JsonV) -> Option<
    JsonV,
> {
    match options {
        JsonV::Object(members) => Some(
            JsonV::Object(container_request_base(name, image).union_prefer_right(members)),
        ),
        _ => None,
    }
}

/// Builds the description of a container creation.
pub fn container_request_document(name: &str, image: &str, options: &Json) -> (r: Option<Json>)
    ensures
        opt_view(r) == container_request(name@, image@, options@),
{
    match options {
        Json::Object(members) => {
            let mut metadata: Vec<(String, Json)> = Vec::new();
            metadata.push(("name".to_string(), Json::Str(name.to_string())));
            let mut image_members: Vec<(String, Json)> = Vec::new();
            image_members.push(("image".to_string(), Json::Str(image.to_string())));
            let log_path = name.to_string().concat("/0.log");
            let mut entries: Vec<(String, Json)> = Vec::new();
            entries.push(("metadata".to_string(), Json::Object(metadata)));
            entries.push(("image".to_string(), Json::Object(image_members)));
            entries.push(("log_path".to_string(), Json::Str(log_path)));
            proof {
                lemma_entries_unfold_1(metadata@);
                lemma_entries_unfold_1(image_members@);
                lemma_entries_unfold_3(entries@);
            }
            append_members(&mut entries, members);
            Some(Json::Object(entries))
        },
        _ => None,
    }
}

/// The description of a pod creation whose options are given as text.
pub open spec fn pod_request_of_text(
    name: Seq<char>,
    namespace: Seq<char>,
    uid: Seq<char>,
    options: Seq<char>,
) -> Option<JsonV> {
    match json_of_text(options) {
        Some(document) => pod_request(name, namespace, uid, document),
        None => None,
    }
}

/// The description of a container creation whose options are given as
/// text.
pub open spec fn container_request_of_text(
    name: Seq<char>,
    image: Seq<char>,
    options: Seq<char>,
) -> Option<JsonV> {
    match json_of_text(options) {
        Some(document) => container_request(name, image, document),
        None => None,
    }
}

/// Resolves the configuration of a pod creation. There is none where
/// `options` is not the text of a JSON object.
pub fn create_pod_config(name: &str, namespace: &str, uid: &str, options: &str) -> (r: Option<
    PodSandboxConfig,
>)
    ensures
        r is Some <==> pod_request_of_text(name@, namespace@, uid@, options@) is Some,
        r is Some ==> exists|base_uid: Seq<char>, metadata_uid: Seq<char>|
            is_uuid_text(base_uid) && is_uuid_text(metadata_uid) && r->Some_0@
                == #[trigger] resolve_pod(
                pod_request_of_text(name@, namespace@, uid@, options@)->Some_0,
                base_uid,
                metadata_uid,
            ),
{
    let document = parse_json(options)?;
    let request = pod_request_document(name, namespace, uid, &document)?;
    let base_uid = fresh_identifier();
    let metadata_uid = fresh_identifier();
    let ghost described = pod_request_of_text(name@, namespace@, uid@, options@)->Some_0;
    assert(request@ == described);
    let resolved = resolve_pod_config(&request, base_uid, metadata_uid);
    assert(resolved@ == resolve_pod(described, base_uid@, metadata_uid@));
    Some(resolved)
}

/// Resolves the configuration of a container creation. There is none
/// where `options` is not the text of a JSON object.
pub fn create_container_config(name: &str, image: &str, options: &str) -> (r: Option<
    ContainerConfig,
>)
    ensures
        r is Some <==> container_request_of_text(name@, image@, options@) is Some,
        r is Some ==> exists|base_token: Seq<char>, metadata_token: Seq<char>|
            is_uuid_text(base_token) && is_uuid_text(metadata_token) && r->Some_0@
                == #[trigger] resolve_container(
                container_request_of_text(name@, image@, options@)->Some_0,
                base_token,
                metadata_token,
            ),
{
    let document = parse_json(options)?;
    let request = container_request_document(name, image, &document)?;
    let base_token = fresh_identifier();
    let metadata_token = fresh_identifier();
    let ghost described = container_request_of_text(name@, image@, options@)->Some_0;
    assert(request@ == described);
    let resolved = resolve_container_config(
        &request,
        base_token.as_str(),
        metadata_token.as_str(),
    );
    assert(resolved@ == resolve_container(described, base_token@, metadata_token@));
    Some(resolved)
}

/// Resolves the configuration of the pod sandbox in which a container is
/// created, from the text that describes it. There is none where the text
/// is not JSON.
pub fn sandbox_config_from_text(pod_config: &str) -> (r: Option<PodSandboxConfig>)
    ensures
        r is Some <==> json_of_text(pod_config@) is Some,
        r is Some ==> exists|base_uid: Seq<char>, metadata_uid: Seq<char>|
            is_uuid_text(base_uid) && is_uuid_text(metadata_uid) && r->Some_0@
                == #[trigger] resolve_pod(
                json_of_text(pod_config@)->Some_0,
                base_uid,
                metadata_uid,
            ),
{
    let document = parse_json(pod_config)?;
    let base_uid = fresh_identifier();
    let metadata_uid = fresh_identifier();
    let ghost described = json_of_text(pod_config@)->Some_0;
    assert(document@ == described);
    let resolved = resolve_pod_config(&document, base_uid, metadata_uid);
    assert(resolved@ == resolve_pod(described, base_uid@, metadata_uid@));
    Some(resolved)
}

/// A pod creation whose options say nothing of metadata resolves to the
/// identity that its parameters give: the identifier is kept as it is
/// given, and none is drawn in its place.
pub proof fn lemma_pod_request_keeps_identity(
    name: Seq<char>,
    namespace: Seq<char>,
    uid: Seq<char>,
    options: JsonV,
    base_uid: Seq<char>,
    metadata_uid: Seq<char>,
)
    requires
        options is Object,
        options.field("metadata"@) is None,
    ensures
        pod_request(name, namespace, uid, options) is Some,
        resolve_pod(
            pod_request(name, namespace, uid, options)->Some_0,
            base_uid,
            metadata_uid,
        ).metadata == Some(PodSandboxMetadataV { name, uid, namespace, attempt: 0 }),
{
    reveal_strlit("metadata");
    reveal_strlit("hostname");
    reveal_strlit("name");
    reveal_strlit("namespace");
    reveal_strlit("uid");
    reveal_strlit("attempt");
    assert("metadata"@[0] != "hostname"@[0]);
    assert("name"@.len() == 4 && "namespace"@.len() == 9 && "uid"@.len() == 3 && "attempt"@.len()
        == 7);
    let request = pod_request(name, namespace, uid, options)->Some_0;
    let metadata = pod_request_base(name, namespace, uid)["metadata"@];
    assert(request.field("metadata"@) == Some(metadata));
    assert(object_member(request, "metadata"@) == Some(metadata));
    assert(string_member(metadata, "name"@) == Some(name));
    assert(string_member(metadata, "uid"@) == Some(uid));
    assert(string_member(metadata, "namespace"@) == Some(namespace));
    assert(u32_member(metadata, "attempt"@) == Some(0u32));
}

/// A container creation whose options say nothing of metadata, of the
/// image or of the log path resolves to what its parameters give.
pub proof fn lemma_container_request_keeps_parameters(
    name: Seq<char>,
    image: Seq<char>,
    options: JsonV,
    base_token: Seq<char>,
    metadata_token: Seq<char>,
)
    requires
        options is Object,
        options.field("metadata"@) is None,
        options.field("image"@) is None,
        options.field("log_path"@) is None,
    ensures
        container_request(name, image, options) is Some,
        ({
            let resolved = resolve_container(
                container_request(name, image, options)->Some_0,
                base_token,
                metadata_token,
            );
            &&& resolved.metadata == Some(ContainerMetadataV { name, attempt: 0 })
            &&& resolved.image == Some(ImageSpecV { image, ..default_image_spec_v() })
            &&& resolved.log_path == name + "/0.log"@
        }),
{
    reveal_strlit("metadata");
    reveal_strlit("image");
    reveal_strlit("log_path");
    reveal_strlit("name");
    reveal_strlit("attempt");
    reveal_strlit("annotations");
    reveal_strlit("runtime_handler");
    reveal_strlit("user_specified_image");
    assert("metadata"@[0] != "log_path"@[0]);
    assert("metadata"@.len() == 8 && "image"@.len() == 5 && "log_path"@.len() == 8);
    assert("name"@.len() == 4 && "attempt"@.len() == 7);
    assert("annotations"@.len() == 11 && "runtime_handler"@.len() == 15
        && "user_specified_image"@.len() == 20);
    let request = container_request(name, image, options)->Some_0;
    let base = container_request_base(name, image);
    let metadata = base["metadata"@];
    let image_member = base["image"@];
    assert(request.field("metadata"@) == Some(metadata));
    assert(request.field("image"@) == Some(image_member));
    assert(request.field("log_path"@) == Some(JsonV::Str(name + "/0.log"@)));
    assert(object_member(request, "metadata"@) == Some(metadata));
    assert(object_member(request, "image"@) == Some(image_member));
    assert(string_member(metadata, "name"@) == Some(name));
    assert(u32_member(metadata, "attempt"@) is None);
    assert(string_member(image_member, "image"@) == Some(image));
    assert(image_member.field("annotations"@) is None);
    assert(image_member.field("runtime_handler"@) is None);
    assert(image_member.field("user_specified_image"@) is None);
    assert(Map::<Seq<char>, Seq<char>>::empty().union_prefer_right(
        Map::<Seq<char>, Seq<char>>::empty(),
    ) =~= Map::<Seq<char>, Seq<char>>::empty());
}

/// The mapping of one member.
proof fn lemma_entries_unfold_1(entries: Seq<(String, Json)>)
    requires
        entries.len() == 1,
    ensures
        entries_view(entries) == Map::<Seq<char>, JsonV>::empty().insert(
            entries[0].0@,
            entries[0].1@,
        ),
{
    assert(entries.drop_last().len() == 0);
    assert(entries_view(entries.drop_last()) == Map::<Seq<char>, JsonV>::empty());
}

/// The mapping of two members.
proof fn lemma_entries_unfold_2(entries: Seq<(String, Json)>)
    requires
        entries.len() == 2,
    ensures
        entries_view(entries) == Map::<Seq<char>, JsonV>::empty().insert(
            entries[0].0@,
            entries[0].1@,
        ).insert(entries[1].0@, entries[1].1@),
{
    let one = entries.drop_last();
    assert(one.drop_last().len() == 0);
    assert(entries_view(one.drop_last()) == Map::<Seq<char>, JsonV>::empty());
    assert(one.last() == entries[0]);
    assert(entries_view(one) == Map::<Seq<char>, JsonV>::empty().insert(
        entries[0].0@,
        entries[0].1@,
    ));
}

/// The mapping of three members.
proof fn lemma_entries_unfold_3(entries: Seq<(String, Json)>)
    requires
        entries.len() == 3,
    ensures
        entries_view(entries) == Map::<Seq<char>, JsonV>::empty().insert(
            entries[0].0@,
            entries[0].1@,
        ).insert(entries[1].0@, entries[1].1@).insert(entries[2].0@, entries[2].1@),
{
    let two = entries.drop_last();
    lemma_entries_unfold_2(two);
    assert(two[0] == entries[0] && two[1] == entries[1]);
}

/// The mapping of four members.
proof fn lemma_entries_unfold_4(entries: Seq<(String, Json)>)
    requires
        entries.len() == 4,
    ensures
        entries_view(entries) == Map::<Seq<char>, JsonV>::empty().insert(
            entries[0].0@,
            entries[0].1@,
        ).insert(entries[1].0@, entries[1].1@).insert(entries[2].0@, entries[2].1@).insert(
            entries[3].0@,
            entries[3].1@,
        ),
{
    let three = entries.drop_last();
    lemma_entries_unfold_3(three);
    assert(three[0] == entries[0] && three[1] == entries[1] && three[2] == entries[2]);
}

} // verus!
