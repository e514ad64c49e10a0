use containerd_mcp::ctr::{
    container_remove_args, container_run_args, containers_list_args, custom_command_args,
    image_pull_args, image_remove_args, images_list_args, tasks_list_args, CtrCmd,
};
use containerd_mcp::service::{
    container_created_text, container_log_file, containerd_log_outcome, ctr_command_not_run,
    ctr_command_report, exec_timeout, image_pulled_text, image_reference_spec,
    plan_ctr_command, select_transport, socket_path, ContainerdService, CriOperation, CtrAction,
    CtrListing, Server, Transport,
};

fn list(items: &[&str]) -> Vec<String> {
    items.iter().map(|s| s.to_string()).collect()
}

#[test]
fn ctr_cmd_defaults() {
    let cmd = CtrCmd::new();
    assert_eq!(cmd.binary, "ctr");
    assert_eq!(cmd.namespace, "default");
    assert_eq!(cmd.address, "/run/containerd/containerd.sock");
}

#[test]
fn ctr_cmd_with_config_keeps_the_settings() {
    let cmd = CtrCmd::with_config("/bin/ctr".to_string(), "k8s.io".to_string(), "/tmp/s".to_string());
    assert_eq!(cmd.binary, "/bin/ctr");
    assert_eq!(cmd.namespace, "k8s.io");
    assert_eq!(cmd.address, "/tmp/s");
}

#[test]
fn command_line_puts_the_flags_first() {
    let cmd = CtrCmd::with_config("ctr".to_string(), "k8s.io".to_string(), "/tmp/s".to_string());
    assert_eq!(
        cmd.command_line(&list(&["image", "list"])),
        list(&["--namespace", "k8s.io", "--address", "/tmp/s", "image", "list"])
    );
    assert_eq!(cmd.command_line(&list(&[])), list(&["--namespace", "k8s.io", "--address", "/tmp/s"]));
}

#[test]
fn ctr_commands_have_their_arguments() {
    assert_eq!(containers_list_args(), list(&["container", "list"]));
    assert_eq!(images_list_args(), list(&["image", "list"]));
    assert_eq!(tasks_list_args(), list(&["task", "list"]));
    assert_eq!(image_pull_args("nginx"), list(&["image", "pull", "nginx"]));
    assert_eq!(image_remove_args("nginx"), list(&["image", "remove", "nginx"]));
    assert_eq!(
        container_run_args("nginx", "c1", &list(&["--rm", "-t"])),
        list(&["container", "run", "nginx", "c1", "--rm", "-t"])
    );
    assert_eq!(container_remove_args("c1"), list(&["container", "remove", "c1"]));
    assert_eq!(custom_command_args("version", &list(&["-a"])), list(&["version", "-a"]));
    assert_eq!(custom_command_args("version", &list(&[])), list(&["version"]));
}

#[test]
fn service_lists_its_roots() {
    assert_eq!(ContainerdService::new().list_roots(), list(&["version", "runtime", "image"]));
}

#[test]
fn server_runs_ctr_at_the_default_address() {
    let server = Server::new("unix:///run/containerd/containerd.sock".to_string());
    assert_eq!(server.binary, "ctr");
    let cmd = server.create_ctr_cmd("k8s.io".to_string());
    assert_eq!(cmd.binary, "ctr");
    assert_eq!(cmd.namespace, "k8s.io");
    assert_eq!(cmd.address, "/run/containerd/containerd.sock");
}

#[test]
fn empty_ctr_command_is_an_error() {
    let outcome = plan_ctr_command("  \t ").unwrap_err();
    assert!(outcome.is_error);
    assert_eq!(outcome.text, "Command cannot be empty");
    assert!(plan_ctr_command("").is_err());
}

#[test]
fn ctr_command_is_split_into_words() {
    assert_eq!(plan_ctr_command(" image  pull nginx ").unwrap(), list(&["image", "pull", "nginx"]));
}

#[test]
fn ctr_command_report_shows_code_and_streams() {
    let outcome = ctr_command_report(Some(2), "out", "err");
    assert!(!outcome.is_error);
    assert_eq!(outcome.text, "Exit Code: 2\n\nStdout:\nout\n\nStderr:\nerr");
    let outcome = ctr_command_report(None, "", "");
    assert_eq!(outcome.text, "Exit Code: -1\n\nStdout:\n\n\nStderr:\n");
    let outcome = ctr_command_not_run("no such file");
    assert!(outcome.is_error);
    assert_eq!(outcome.text, "Failed to execute ctr command: no such file");
}

#[test]
fn ctr_actions_report_on_their_subject() {
    let outcome = CtrAction::PullImage.finished(true, "nginx", "done", "warn");
    assert!(!outcome.is_error);
    assert_eq!(outcome.text, "Successfully pulled image: nginx\n\ndone");
    let outcome = CtrAction::PullImage.finished(false, "nginx", "done", "denied");
    assert!(outcome.is_error);
    assert_eq!(outcome.text, "Failed to pull image: nginx\n\ndenied");
    assert_eq!(
        CtrAction::RemoveImage.finished(true, "nginx", "", "").text,
        "Successfully removed image: nginx\n\n"
    );
    assert_eq!(
        CtrAction::RunContainer.finished(true, "c1", "x", "").text,
        "Successfully created container: c1\n\nx"
    );
    assert_eq!(
        CtrAction::RunContainer.finished(false, "c1", "", "y").text,
        "Failed to create container: c1\n\ny"
    );
    assert_eq!(
        CtrAction::RemoveContainer.finished(false, "c1", "", "y").text,
        "Failed to remove container: c1\n\ny"
    );
    assert_eq!(CtrAction::PullImage.not_run("e").text, "Failed to execute pull command: e");
    assert_eq!(CtrAction::RemoveImage.not_run("e").text, "Failed to execute remove command: e");
    assert_eq!(
        CtrAction::RunContainer.not_run("e").text,
        "Failed to execute container run command: e"
    );
    assert_eq!(
        CtrAction::RemoveContainer.not_run("e").text,
        "Failed to execute remove container command: e"
    );
    assert!(CtrAction::RemoveContainer.not_run("e").is_error);
}

#[test]
fn ctr_listings_report_failures() {
    assert_eq!(CtrListing::Containers.failed("e").text, "Failed to list containers: e");
    assert_eq!(CtrListing::Images.failed("e").text, "Failed to list images: e");
    assert_eq!(CtrListing::Tasks.failed("e").text, "Failed to list tasks: e");
    assert!(CtrListing::Tasks.failed("e").is_error);
}

#[test]
fn cri_operations_name_their_service() {
    let outcome = CriOperation::ListPods.not_connected();
    assert!(outcome.is_error);
    assert_eq!(outcome.text, "Runtime client not connected");
    for op in [
        CriOperation::ListImages,
        CriOperation::ImageFsInfo,
        CriOperation::PullImage,
        CriOperation::RemoveImage,
    ] {
        assert!(op.uses_image_service());
        assert_eq!(op.not_connected().text, "Image client not connected");
    }
    assert!(!CriOperation::CreateContainer.uses_image_service());
}

#[test]
fn cri_operations_report_failures() {
    let outcome = CriOperation::Version.failed("unavailable");
    assert!(outcome.is_error);
    assert_eq!(outcome.text, "Failed to get version: unavailable");
    assert_eq!(CriOperation::CreatePod.failed("e").text, "Failed to create pod: e");
    assert_eq!(CriOperation::ExecSync.failed("e").text, "Failed to execute command: e");
    assert_eq!(CriOperation::ContainerLogs.failed("e").text, "Failed to get container logs: e");
    assert_eq!(
        CriOperation::ImageFsInfo.failed("e").text,
        "Failed to get image filesystem info: e"
    );
}

#[test]
fn cri_operations_answer_on_success() {
    let outcome = CriOperation::RemovePod.succeeded("ignored".to_string());
    assert!(!outcome.is_error);
    assert_eq!(outcome.text, "{\"success\": true, \"message\": \"Pod removed successfully\"}");
    assert_eq!(
        CriOperation::StopContainer.succeeded(String::new()).text,
        "{\"success\": true, \"message\": \"Container stopped successfully\"}"
    );
    assert_eq!(
        CriOperation::ReopenContainerLog.succeeded(String::new()).text,
        "Container log reopened successfully"
    );
    assert_eq!(CriOperation::ListPods.succeeded("{\"items\":[]}".to_string()).text, "{\"items\":[]}");
    assert_eq!(CriOperation::Version.success_message(), None);
}

#[test]
fn creation_answers_quote_the_identifier() {
    assert_eq!(container_created_text("abc"), "{\"container_id\": \"abc\"}");
    assert_eq!(image_pulled_text("sha256:1"), "{\"success\": true, \"image_ref\": \"sha256:1\"}");
}

#[test]
fn exec_timeout_defaults_to_ten() {
    assert_eq!(exec_timeout(None), 10);
    assert_eq!(exec_timeout(Some(0)), 0);
    assert_eq!(exec_timeout(Some(-5)), -5);
}

#[test]
fn container_log_file_is_below_the_sandbox_directory() {
    assert_eq!(container_log_file(Some("/var/log/pods/p"), "c/0.log"), "/var/log/pods/p/c/0.log");
    assert_eq!(container_log_file(None, "c/0.log"), "/c/0.log");
}

#[test]
fn image_reference_spec_names_only_the_image() {
    let spec = image_reference_spec("nginx:1".to_string());
    assert_eq!(spec.image, "nginx:1");
    assert!(spec.annotations.is_empty());
    assert_eq!(spec.runtime_handler, "");
    assert_eq!(spec.user_specified_image, "");
}

#[test]
fn socket_path_follows_the_scheme() {
    assert_eq!(
        socket_path("unix:///run/containerd/containerd.sock"),
        Some("/run/containerd/containerd.sock".to_string())
    );
    assert_eq!(socket_path("tcp://localhost"), None);
    assert_eq!(socket_path("unix://"), Some(String::new()));
}

#[test]
fn transport_is_selected_by_name() {
    assert_eq!(select_transport("stdio"), Ok(Transport::Stdio));
    assert_eq!(select_transport("sse"), Ok(Transport::Sse));
    assert_eq!(select_transport("http"), Ok(Transport::Http));
    assert_eq!(select_transport("grpc"), Err("Invalid transport type: grpc".to_string()));
    assert_eq!(select_transport("STDIO"), Err("Invalid transport type: STDIO".to_string()));
}

#[test]
fn containerd_log_outcome_reports_a_missing_file() {
    let outcome = containerd_log_outcome("/var/log/x.log", None);
    assert!(outcome.is_error);
    assert_eq!(outcome.text, "File /var/log/x.log does not exist");
    let outcome = containerd_log_outcome("/var/log/x.log", Some("content".to_string()));
    assert!(!outcome.is_error);
    assert_eq!(outcome.text, "content");
}
