//! What the tools of the service answer: the texts of their outcomes, and
//! the commands that the `ctr` tools run.

use crate::container::ImageSpec;
use crate::ctr::CtrCmd;
use crate::extract::texts;
use crate::string_map::StringMap;
use crate::text::{decimal, decimal_text, split_whitespace, strip_prefix, without_prefix, words};
use vstd::prelude::*;

verus! {

/// The root node of the service.
#[derive(Debug)]
pub struct ContainerdService {}

impl ContainerdService {
    /// The root node.
    pub fn new() -> (r: ContainerdService)
        ensures
            r == (ContainerdService {  }),
    {
        ContainerdService {  }
    }

    /// The roots that the service lists.
    pub fn list_roots(&self) -> (r: Vec<String>)
        ensures
            texts(r@) == seq!["version"@, "runtime"@, "image"@],
    {
        let mut roots: Vec<String> = Vec::new();
        roots.push("version".to_string());
        roots.push("runtime".to_string());
        roots.push("image".to_string());
        assert(texts(roots@) =~= seq!["version"@, "runtime"@, "image"@]);
        roots
    }
}

/// The outcome of a tool: one text, marked as a success or as an error.
#[derive(Debug)]
pub struct ToolOutcome {
    pub is_error: bool,
    pub text: String,
}

impl ToolOutcome {
    /// A success with the text `text`.
    pub fn success(text: String) -> (r: ToolOutcome)
        ensures
            !r.is_error,
            r.text == text,
    {
        ToolOutcome { is_error: false, text }
    }

    /// An error with the text `text`.
    pub fn error(text: String) -> (r: ToolOutcome)
        ensures
            r.is_error,
            r.text == text,
    {
        ToolOutcome { is_error: true, text }
    }
}

/// The operations of the runtime interface that the service offers.
#[derive(Debug, Clone, Copy, PartialEq, Eq, Structural)]
pub enum CriOperation {
    Version,
    ListPods,
    ListContainers,
    ListImages,
    ImageFsInfo,
    CreatePod,
    RemovePod,
    CreateContainer,
    RemoveContainer,
    StopPod,
    StartContainer,
    StopContainer,
    ExecSync,
    PullImage,
    RemoveImage,
    ContainerLogs,
    ContainerStats,
    PodStats,
    ReopenContainerLog,
}

impl CriOperation {
    /// Whether the operation goes to the image service; the others go to
    /// the runtime service.
    pub open spec fn spec_uses_image_service(self) -> bool {
        self == CriOperation::ListImages || self == CriOperation::ImageFsInfo || self
            == CriOperation::PullImage || self == CriOperation::RemoveImage
    }

    /// How the failure of the operation is announced.
    pub open spec fn spec_failure_prefix(self) -> Seq<char> {
        match self {
            CriOperation::Version => "Failed to get version"@,
            CriOperation::ListPods => "Failed to list pods"@,
            CriOperation::ListContainers => "Failed to list containers"@,
            CriOperation::ListImages => "Failed to list images"@,
            CriOperation::ImageFsInfo => "Failed to get image filesystem info"@,
            CriOperation::CreatePod => "Failed to create pod"@,
            CriOperation::RemovePod => "Failed to remove pod"@,
            CriOperation::CreateContainer => "Failed to create container"@,
            CriOperation::RemoveContainer => "Failed to remove container"@,
            CriOperation::StopPod => "Failed to stop pod"@,
            CriOperation::StartContainer => "Failed to start container"@,
            CriOperation::StopContainer => "Failed to stop container"@,
            CriOperation::ExecSync => "Failed to execute command"@,
            CriOperation::PullImage => "Failed to pull image"@,
            CriOperation::RemoveImage => "Failed to remove image"@,
            CriOperation::ContainerLogs => "Failed to get container logs"@,
            CriOperation::ContainerStats => "Failed to get container stats"@,
            CriOperation::PodStats => "Failed to get pod stats"@,
            CriOperation::ReopenContainerLog => "Failed to reopen container log"@,
        }
    }

    /// What the operation answers on success, where that is a fixed text.
    pub open spec fn spec_success_message(self) -> Option<Seq<char>> {
        match self {
            CriOperation::RemovePod => Some(
                "{\"success\": true, \"message\": \"Pod removed successfully\"}"@,
            ),
            CriOperation::RemoveContainer => Some(
                "{\"success\": true, \"message\": \"Container removed successfully\"}"@,
            ),
            CriOperation::StopPod => Some(
                "{\"success\": true, \"message\": \"Pod stopped successfully\"}"@,
            ),
            CriOperation::StartContainer => Some(
                "{\"success\": true, \"message\": \"Container started successfully\"}"@,
            ),
            CriOperation::StopContainer => Some(
                "{\"success\": true, \"message\": \"Container stopped successfully\"}"@,
            ),
            CriOperation::RemoveImage => Some(
                "{\"success\": true, \"message\": \"Image removed successfully\"}"@,
            ),
            CriOperation::ReopenContainerLog => Some("Container log reopened successfully"@),
            _ => None,
        }
    }

    /// Whether the operation goes to the image service.
    pub fn uses_image_service(self) -> (r: bool)
        ensures
            r == self.spec_uses_image_service(),
    {
        match self {
            CriOperation::ListImages => true,
            CriOperation::ImageFsInfo => true,
            CriOperation::PullImage => true,
            CriOperation::RemoveImage => true,
            _ => false,
        }
    }

    /// How the failure of the operation is announced.
    pub fn failure_prefix(self) -> (r: &'static str)
        ensures
            r@ == self.spec_failure_prefix(),
    {
        match self {
            CriOperation::Version => "Failed to get version",
            CriOperation::ListPods => "Failed to list pods",
            CriOperation::ListContainers => "Failed to list containers",
            CriOperation::ListImages => "Failed to list images",
            CriOperation::ImageFsInfo => "Failed to get image filesystem info",
            CriOperation::CreatePod => "Failed to create pod",
            CriOperation::RemovePod => "Failed to remove pod",
            CriOperation::CreateContainer => "Failed to create container",
            CriOperation::RemoveContainer => "Failed to remove container",
            CriOperation::StopPod => "Failed to stop pod",
            CriOperation::StartContainer => "Failed to start container",
            CriOperation::StopContainer => "Failed to stop container",
            CriOperation::ExecSync => "Failed to execute command",
            CriOperation::PullImage => "Failed to pull image",
            CriOperation::RemoveImage => "Failed to remove image",
            CriOperation::ContainerLogs => "Failed to get container logs",
            CriOperation::ContainerStats => "Failed to get container stats",
            CriOperation::PodStats => "Failed to get pod stats",
            CriOperation::ReopenContainerLog => "Failed to reopen container log",
        }
    }

    /// What the operation answers on success, where that is a fixed text.
    pub fn success_message(self) -> (r: Option<&'static str>)
        ensures
            match r {
                Some(text) => self.spec_success_message() == Some(text@),
                None => self.spec_success_message() is None,
            },
    {
        match self {
            CriOperation::RemovePod => Some(
                "{\"success\": true, \"message\": \"Pod removed successfully\"}",
            ),
            CriOperation::RemoveContainer => Some(
                "{\"success\": true, \"message\": \"Container removed successfully\"}",
            ),
            CriOperation::StopPod => Some(
                "{\"success\": true, \"message\": \"Pod stopped successfully\"}",
            ),
            CriOperation::StartContainer => Some(
                "{\"success\": true, \"message\": \"Container started successfully\"}",
            ),
            CriOperation::StopContainer => Some(
                "{\"success\": true, \"message\": \"Container stopped successfully\"}",
            ),
            CriOperation::RemoveImage => Some(
                "{\"success\": true, \"message\": \"Image removed successfully\"}",
            ),
            CriOperation::ReopenContainerLog => Some("Container log reopened successfully"),
            _ => None,
        }
    }

    /// The outcome of the operation where its service is not connected.
    pub fn not_connected(self) -> (r: ToolOutcome)
        ensures
            r.is_error,
            r.text@ == if self.spec_uses_image_service() {
                "Image client not connected"@
            } else {
                "Runtime client not connected"@
            },
    {
        if self.uses_image_service() {
            ToolOutcome::error("Image client not connected".to_string())
        } else {
            ToolOutcome::error("Runtime client not connected".to_string())
        }
    }

    /// The outcome of the operation where the service reports `error`.
    pub fn failed(self, error: &str) -> (r: ToolOutcome)
        ensures
            r.is_error,
            r.text@ == self.spec_failure_prefix() + ": "@ + error@,
    {
        ToolOutcome::error(self.failure_prefix().to_string().concat(": ").concat(error))
    }

    /// The outcome of the operation where it succeeds and answers with
    /// `response`; an operation with a fixed answer gives that instead.
    pub fn succeeded(self, response: String) -> (r: ToolOutcome)
        ensures
            !r.is_error,
            r.text@ == match self.spec_success_message() {
                Some(text) => text,
                None => response@,
            },
    {
        match self.success_message() {
            Some(text) => ToolOutcome::success(text.to_string()),
            None => ToolOutcome::success(response),
        }
    }
}

/// The answer of a container creation: a JSON object that holds the
/// identifier as it is.
pub fn container_created_text(container_id: &str) -> (r: String)
    ensures
        r@ == "{\"container_id\": \""@ + container_id@ + "\"}"@,
{
    "{\"container_id\": \"".to_string().concat(container_id).concat("\"}")
}

/// The answer of an image pull: a JSON object that holds the reference as
/// it is.
pub fn image_pulled_text(image_ref: &str) -> (r: String)
    ensures
        r@ == "{\"success\": true, \"image_ref\": \""@ + image_ref@ + "\"}"@,
{
    "{\"success\": true, \"image_ref\": \"".to_string().concat(image_ref).concat("\"}")
}

/// The seconds that a command may run in a container: ten where no limit
/// is given.
pub fn exec_timeout(timeout: Option<i64>) -> (r: i64)
    ensures
        r == match timeout {
            Some(seconds) => seconds,
            None => 10,
        },
{
    match timeout {
        Some(seconds) => seconds,
        None => 10,
    }
}

/// The file that holds the log of a container: the log path of the
/// container below the log directory of its sandbox, which is empty where
/// the status names none.
pub fn container_log_file(sandbox_log_dir: Option<&str>, log_path: &str) -> (r: String)
    ensures
        r@ == match sandbox_log_dir {
            Some(dir) => dir@,
            None => Seq::<char>::empty(),
        } + "/"@ + log_path@,
{
    let dir = match sandbox_log_dir {
        Some(dir) => dir.to_string(),
        None => String::new(),
    };
    dir.concat("/").concat(log_path)
}

/// The image that a pull or a removal names: the reference, and nothing
/// else.
pub fn image_reference_spec(image_reference: String) -> (r: ImageSpec)
    ensures
        r.image == image_reference,
        r.annotations@ == Map::<Seq<char>, Seq<char>>::empty(),
        r.runtime_handler@ == Seq::<char>::empty(),
        r.user_specified_image@ == Seq::<char>::empty(),
{
    ImageSpec {
        image: image_reference,
        annotations: StringMap::new(),
        runtime_handler: String::new(),
        user_specified_image: String::new(),
    }
}

/// The commands of `ctr` that report on what they did to one subject.
#[derive(Debug, Clone, Copy, PartialEq, Eq, Structural)]
pub enum CtrAction {
    PullImage,
    RemoveImage,
    RunContainer,
    RemoveContainer,
}

impl CtrAction {
    /// How the success of the command is announced.
    pub open spec fn spec_done_prefix(self) -> Seq<char> {
        match self {
            CtrAction::PullImage => "Successfully pulled image: "@,
            CtrAction::RemoveImage => "Successfully removed image: "@,
            CtrAction::RunContainer => "Successfully created container: "@,
            CtrAction::RemoveContainer => "Successfully removed container: "@,
        }
    }

    /// How the failure of the command is announced.
    pub open spec fn spec_failed_prefix(self) -> Seq<char> {
        match self {
            CtrAction::PullImage => "Failed to pull image: "@,
            CtrAction::RemoveImage => "Failed to remove image: "@,
            CtrAction::RunContainer => "Failed to create container: "@,
            CtrAction::RemoveContainer => "Failed to remove container: "@,
        }
    }

    /// How it is announced that the command could not be run.
    pub open spec fn spec_not_run_prefix(self) -> Seq<char> {
        match self {
            CtrAction::PullImage => "Failed to execute pull command: "@,
            CtrAction::RemoveImage => "Failed to execute remove command: "@,
            CtrAction::RunContainer => "Failed to execute container run command: "@,
            CtrAction::RemoveContainer => "Failed to execute remove container command: "@,
        }
    }

    /// How the success of the command is announced.
    pub fn done_prefix(self) -> (r: &'static str)
        ensures
            r@ == self.spec_done_prefix(),
    {
        match self {
            CtrAction::PullImage => "Successfully pulled image: ",
            CtrAction::RemoveImage => "Successfully removed image: ",
            CtrAction::RunContainer => "Successfully created container: ",
            CtrAction::RemoveContainer => "Successfully removed container: ",
        }
    }

    /// How the failure of the command is announced.
    pub fn failed_prefix(self) -> (r: &'static str)
        ensures
            r@ == self.spec_failed_prefix(),
    {
        match self {
            CtrAction::PullImage => "Failed to pull image: ",
            CtrAction::RemoveImage => "Failed to remove image: ",
            CtrAction::RunContainer => "Failed to create container: ",
            CtrAction::RemoveContainer => "Failed to remove container: ",
        }
    }

    /// How it is announced that the command could not be run.
    pub fn not_run_prefix(self) -> (r: &'static str)
        ensures
            r@ == self.spec_not_run_prefix(),
    {
        match self {
            CtrAction::PullImage => "Failed to execute pull command: ",
            CtrAction::RemoveImage => "Failed to execute remove command: ",
            CtrAction::RunContainer => "Failed to execute container run command: ",
            CtrAction::RemoveContainer => "Failed to execute remove container command: ",
        }
    }

    /// The outcome of the command once it has run: on success the subject
    /// and what the command wrote to standard output, else the subject and
    /// what it wrote to standard error.
    pub fn finished(self, succeeded: bool, subject: &str, stdout: &str, stderr: &str) -> (r:
        ToolOutcome)
        ensures
            r.is_error == !succeeded,
            r.text@ == if succeeded {
                self.spec_done_prefix() + subject@ + "\n\n"@ + stdout@
            } else {
                self.spec_failed_prefix() + subject@ + "\n\n"@ + stderr@
            },
    {
        if succeeded {
            ToolOutcome::success(
                self.done_prefix().to_string().concat(subject).concat("\n\n").concat(stdout),
            )
        } else {
            ToolOutcome::error(
                self.failed_prefix().to_string().concat(subject).concat("\n\n").concat(stderr),
            )
        }
    }

    /// The outcome of the command where it could not be run.
    pub fn not_run(self, error: &str) -> (r: ToolOutcome)
        ensures
            r.is_error,
            r.text@ == self.spec_not_run_prefix() + error@,
    {
        ToolOutcome::error(self.not_run_prefix().to_string().concat(error))
    }
}

/// The listings of `ctr`.
#[derive(Debug, Clone, Copy, PartialEq, Eq, Structural)]
pub enum CtrListing {
    Containers,
    Images,
    Tasks,
}

impl CtrListing {
    /// How it is announced that the listing could not be made.
    pub open spec fn spec_failed_prefix(self) -> Seq<char> {
        match self {
            CtrListing::Containers => "Failed to list containers: "@,
            CtrListing::Images => "Failed to list images: "@,
            CtrListing::Tasks => "Failed to list tasks: "@,
        }
    }

    /// The outcome of the listing where it could not be made.
    pub fn failed(self, error: &str) -> (r: ToolOutcome)
        ensures
            r.is_error,
            r.text@ == self.spec_failed_prefix() + error@,
    {
        let prefix = match self {
            CtrListing::Containers => "Failed to list containers: ",
            CtrListing::Images => "Failed to list images: ",
            CtrListing::Tasks => "Failed to list tasks: ",
        };
        ToolOutcome::error(prefix.to_string().concat(error))
    }
}

/// The command that a command line names: its words. A line without a
/// word names none, and the error says so.
pub fn plan_ctr_command(command: &str) -> (r: Result<Vec<String>, ToolOutcome>)
    ensures
        match r {
            Ok(args) => words(command@).len() > 0 && texts(args@) == words(command@),
            Err(outcome) => words(command@).len() == 0 && outcome.is_error && outcome.text@
                == "Command cannot be empty"@,
        },
{
    let parts = split_whitespace(command);
    if parts.len() == 0 {
        Err(ToolOutcome::error("Command cannot be empty".to_string()))
    } else {
        Ok(parts)
    }
}

/// The exit code that is reported: `-1` where the command gave none.
pub open spec fn reported_exit_code(exit_code: Option<i32>) -> int {
    match exit_code {
        Some(code) => code as int,
        None => -1,
    }
}

/// The report on a command that has run: its exit code, what it wrote to
/// standard output, and what it wrote to standard error.
pub fn ctr_command_report(exit_code: Option<i32>, stdout: &str, stderr: &str) -> (r: ToolOutcome)
    ensures
        !r.is_error,
        r.text@ == "Exit Code: "@ + decimal(reported_exit_code(exit_code)) + "\n\nStdout:\n"@
            + stdout@ + "\n\nStderr:\n"@ + stderr@,
{
    let code: i32 = match exit_code {
        Some(code) => code,
        None => -1,
    };
    let number = decimal_text(code);
    ToolOutcome::success(
        "Exit Code: ".to_string().concat(number.as_str()).concat("\n\nStdout:\n").concat(
            stdout,
        ).concat("\n\nStderr:\n").concat(stderr),
    )
}

/// The outcome of a command line that could not be run.
pub fn ctr_command_not_run(error: &str) -> (r: ToolOutcome)
    ensures
        r.is_error,
        r.text@ == "Failed to execute ctr command: "@ + error@,
{
    ToolOutcome::error("Failed to execute ctr command: ".to_string().concat(error))
}

/// The outcome of reading the log file of containerd: an error where the
/// file does not exist, else its content.
pub fn containerd_log_outcome(path: &str, content: Option<String>) -> (r: ToolOutcome)
    ensures
        r.is_error == (content is None),
        r.text@ == match content {
            Some(text) => text@,
            None => "File "@ + path@ + " does not exist"@,
        },
{
    match content {
        Some(text) => ToolOutcome::success(text),
        None => ToolOutcome::error(
            "File ".to_string().concat(path).concat(" does not exist"),
        ),
    }
}

/// The settings of the tool server.
#[derive(Debug, Clone)]
pub struct Server {
    pub endpoint: String,
    pub binary: String,
}

impl Server {
    /// A server for the runtime at `endpoint`, which runs `ctr` by that
    /// name.
    pub fn new(endpoint: String) -> (r: Server)
        ensures
            r.endpoint == endpoint,
            r.binary@ == "ctr"@,
    {
        Server { endpoint, binary: "ctr".to_string() }
    }

    /// The client of `ctr` for a namespace.
    pub fn create_ctr_cmd(&self, namespace: String) -> (r: CtrCmd)
        ensures
            r.binary@ == self.binary@,
            r.namespace == namespace,
            r.address@ == "/run/containerd/containerd.sock"@,
    {
        CtrCmd::with_config(
            self.binary.clone(),
            namespace,
            "/run/containerd/containerd.sock".to_string(),
        )
    }
}

/// The path of the socket that an endpoint names: what follows `unix://`.
/// There is none where the endpoint does not begin so.
pub fn socket_path(endpoint: &str) -> (r: Option<String>)
    ensures
        match r {
            Some(path) => without_prefix(endpoint@, "unix://"@) == Some(path@),
            None => without_prefix(endpoint@, "unix://"@) is None,
        },
{
    strip_prefix(endpoint, "unix://")
}

/// The ways in which the service can be reached.
#[derive(Debug, Clone, Copy, PartialEq, Eq, Structural)]
pub enum Transport {
    Stdio,
    Sse,
    Http,
}

/// The transport that a name selects.
pub open spec fn transport_named(name: Seq<char>) -> Option<Transport> {
    if name == "stdio"@ {
        Some(Transport::Stdio)
    } else if name == "sse"@ {
        Some(Transport::Sse)
    } else if name == "http"@ {
        Some(Transport::Http)
    } else {
        None
    }
}

/// Selects the transport by its name; any other name is an error that
/// quotes it.
pub fn select_transport(name: &str) -> (r: Result<Transport, String>)
    ensures
        match r {
            Ok(transport) => transport_named(name@) == Some(transport),
            Err(message) => transport_named(name@) is None && message@
                == "Invalid transport type: "@ + name@,
        },
{
    let given = name.to_string();
    if given == "stdio".to_string() {
        Ok(Transport::Stdio)
    } else if given == "sse".to_string() {
        Ok(Transport::Sse)
    } else if given == "http".to_string() {
        Ok(Transport::Http)
    } else {
        Err("Invalid transport type: ".to_string().concat(name))
    }
}

} // verus!
