//! Command lines for the `ctr` command-line client of containerd.

use crate::extract::{lemma_texts_push, texts};
use vstd::prelude::*;

verus! {

/// The settings with which `ctr` is run.
#[derive(Debug)]
pub struct CtrCmd {
    /// Path to the `ctr` binary.
    pub binary: String,
    /// Namespace of the containerd operations.
    pub namespace: String,
    /// Address of the containerd socket.
    pub address: String,
}

impl CtrCmd {
    /// The default settings.
    pub fn new() -> (r: CtrCmd)
        ensures
            r.binary@ == "ctr"@,
            r.namespace@ == "default"@,
            r.address@ == "/run/containerd/containerd.sock"@,
    {
        CtrCmd {
            binary: "ctr".to_string(),
            namespace: "default".to_string(),
            address: "/run/containerd/containerd.sock".to_string(),
        }
    }

    /// Custom settings.
    pub fn with_config(binary: String, namespace: String, address: String) -> (r: CtrCmd)
        ensures
            r.binary == binary,
            r.namespace == namespace,
            r.address == address,
    {
        CtrCmd { binary, namespace, address }
    }

    /// The arguments with which the binary is run for a command: the
    /// namespace and address flags, then the arguments of the command.
    pub open spec fn spec_command_line(self, args: Seq<Seq<char>>) -> Seq<Seq<char>> {
        seq!["--namespace"@, self.namespace@, "--address"@, self.address@] + args
    }

    /// The arguments with which the binary is run for the command `args`.
    pub fn command_line(&self, args: &Vec<String>) -> (r: Vec<String>)
        ensures
            texts(r@) == self.spec_command_line(texts(args@)),
    {
        let mut line: Vec<String> = Vec::new();
        line.push("--namespace".to_string());
        line.push(self.namespace.clone());
        line.push("--address".to_string());
        line.push(self.address.clone());
        append_texts(&mut line, args);
        assert(texts(line@) =~= self.spec_command_line(texts(args@)));
        line
    }
}

/// Copies the texts of `source` behind those of `target`.
pub fn append_texts(target: &mut Vec<String>, source: &Vec<String>)
    ensures
        texts(final(target)@) == texts(old(target)@) + texts(source@),
{
    let mut i: usize = 0;
    assert(texts(target@) =~= texts(old(target)@) + texts(source@.subrange(0, 0)));
    while i < source.len()
        invariant
            i <= source.len(),
            texts(target@) == texts(old(target)@) + texts(source@.subrange(0, i as int)),
        decreases source.len() - i,
    {
        let item = source[i].clone();
        proof {
            lemma_texts_push(target@, item);
            lemma_texts_push(source@.subrange(0, i as int), source@[i as int]);
            assert(source@.subrange(0, i as int + 1) =~= source@.subrange(0, i as int).push(
                source@[i as int],
            ));
            assert(texts(target@.push(item)) =~= texts(old(target)@) + texts(
                source@.subrange(0, i as int + 1),
            ));
        }
        target.push(item);
        i = i + 1;
    }
    assert(source@.subrange(0, i as int) =~= source@);
}

/// The command that lists the containers.
pub fn containers_list_args() -> (r: Vec<String>)
    ensures
        texts(r@) == seq!["container"@, "list"@],
{
    let mut args: Vec<String> = Vec::new();
    args.push("container".to_string());
    args.push("list".to_string());
    assert(texts(args@) =~= seq!["container"@, "list"@]);
    args
}

/// The command that lists the images.
pub fn images_list_args() -> (r: Vec<String>)
    ensures
        texts(r@) == seq!["image"@, "list"@],
{
    let mut args: Vec<String> = Vec::new();
    args.push("image".to_string());
    args.push("list".to_string());
    assert(texts(args@) =~= seq!["image"@, "list"@]);
    args
}

/// The command that lists the tasks.
pub fn tasks_list_args() -> (r: Vec<String>)
    ensures
        texts(r@) == seq!["task"@, "list"@],
{
    let mut args: Vec<String> = Vec::new();
    args.push("task".to_string());
    args.push("list".to_string());
    assert(texts(args@) =~= seq!["task"@, "list"@]);
    args
}

/// The command that pulls an image.
pub fn image_pull_args(image_ref: &str) -> (r: Vec<String>)
    ensures
        texts(r@) == seq!["image"@, "pull"@, image_ref@],
{
    let mut args: Vec<String> = Vec::new();
    args.push("image".to_string());
    args.push("pull".to_string());
    args.push(image_ref.to_string());
    assert(texts(args@) =~= seq!["image"@, "pull"@, image_ref@]);
    args
}

/// The command that removes an image.
pub fn image_remove_args(image_ref: &str) -> (r: Vec<String>)
    ensures
        texts(r@) == seq!["image"@, "remove"@, image_ref@],
{
    let mut args: Vec<String> = Vec::new();
    args.push("image".to_string());
    args.push("remove".to_string());
    args.push(image_ref.to_string());
    assert(texts(args@) =~= seq!["image"@, "remove"@, image_ref@]);
    args
}

/// The command that runs a container, with its further arguments.
pub fn container_run_args(image_ref: &str, id: &str, args: &Vec<String>) -> (r: Vec<String>)
    ensures
        texts(r@) == seq!["container"@, "run"@, image_ref@, id@] + texts(args@),
{
    let mut cmd_args: Vec<String> = Vec::new();
    cmd_args.push("container".to_string());
    cmd_args.push("run".to_string());
    cmd_args.push(image_ref.to_string());
    cmd_args.push(id.to_string());
    assert(texts(cmd_args@) =~= seq!["container"@, "run"@, image_ref@, id@]);
    append_texts(&mut cmd_args, args);
    cmd_args
}

/// The command that removes a container.
pub fn container_remove_args(id: &str) -> (r: Vec<String>)
    ensures
        texts(r@) == seq!["container"@, "remove"@, id@],
{
    let mut args: Vec<String> = Vec::new();
    args.push("container".to_string());
    args.push("remove".to_string());
    args.push(id.to_string());
    assert(texts(args@) =~= seq!["container"@, "remove"@, id@]);
    args
}

/// A command given by its name and its arguments.
pub fn custom_command_args(command: &str, args: &Vec<String>) -> (r: Vec<String>)
    ensures
        texts(r@) == seq![command@] + texts(args@),
{
    let mut cmd_args: Vec<String> = Vec::new();
    cmd_args.push(command.to_string());
    assert(texts(cmd_args@) =~= seq![command@]);
    append_texts(&mut cmd_args, args);
    cmd_args
}

} // verus!
