use crate::error::{error_line, DockerError, DockerErrorView};
use crate::text::{decimal, decimal_text, split, split_str, string_views};
use vstd::prelude::*;

verus! {

/// The repository of an image name: what stands before its first colon.
pub open spec fn repository_of(image_name: Seq<char>) -> Seq<char> {
    split(image_name, ':')[0]
}

/// The tag of an image name: what stands between its first and its second
/// colon, or `latest` where it holds no colon.
pub open spec fn tag_of(image_name: Seq<char>) -> Seq<char> {
    let parts = split(image_name, ':');
    if parts.len() > 1 {
        parts[1]
    } else {
        "latest"@
    }
}

/// Splits an image name into repository and tag.
pub fn split_image_reference(image_name: &str) -> (r: (String, String))
    ensures
        r.0@ == repository_of(image_name@),
        r.1@ == tag_of(image_name@),
{
    let parts = split_str(image_name, ':');
    assert(string_views(parts@)[0] == parts@[0]@);
    let repository = parts[0].clone();
    let tag = if parts.len() > 1 {
        assert(string_views(parts@)[1] == parts@[1]@);
        parts[1].clone()
    } else {
        String::from_str("latest")
    };
    (repository, tag)
}

/// The message for a container that was created but did not start.
pub open spec fn start_failure(id: Seq<char>, error: DockerErrorView) -> Seq<char> {
    "Container created (ID: "@ + id + "), but failed to start: "@ + error_line(error)
}

/// Judges the creation of a container: the new container's id, which is to
/// be started next, or the line of the error that ends the operation.
pub fn creation_outcome(created: Result<String, DockerError>) -> (r: Result<String, String>)
    ensures
        match created {
            Ok(id) => r is Ok && r->Ok_0@ == id@,
            Err(e) => r is Err && r->Err_0@ == error_line(e@),
        },
{
    match created {
        Ok(id) => Ok(id),
        Err(e) => Err(e.to_string()),
    }
}

/// Judges the start of a container that was just created: a failure says
/// that the container exists and why it did not start.
pub fn start_outcome(id: &str, started: Result<(), DockerError>) -> (r: Result<(), String>)
    ensures
        match started {
            Ok(_) => r is Ok,
            Err(e) => r is Err && r->Err_0@ == start_failure(id@, e@),
        },
{
    match started {
        Ok(_) => Ok(()),
        Err(e) => {
            let mut text = String::from_str("Container created (ID: ");
            text.append(id);
            text.append("), but failed to start: ");
            text.append(e.to_string().as_str());
            Err(text)
        },
    }
}

/// The number of log lines that are asked for: 100 unless told otherwise.
pub open spec fn tail_count(tail_lines: Option<u64>) -> nat {
    match tail_lines {
        Some(n) => n as nat,
        None => 100,
    }
}

/// The arguments with which the engine's command-line tool shows the last
/// lines of a container's log: `logs --tail N <id>`.
pub fn log_arguments(container_id: &str, tail_lines: Option<u64>) -> (r: Vec<String>)
    ensures
        string_views(r@) == seq![
            "logs"@,
            "--tail"@,
            decimal(tail_count(tail_lines)),
            container_id@,
        ],
{
    let tail: u64 = match tail_lines {
        Some(n) => n,
        None => 100,
    };
    let mut args: Vec<String> = Vec::new();
    args.push(String::from_str("logs"));
    args.push(String::from_str("--tail"));
    args.push(decimal_text(tail));
    args.push(String::from_str(container_id));
    assert(string_views(args@) =~= seq![
        "logs"@,
        "--tail"@,
        decimal(tail_count(tail_lines)),
        container_id@,
    ]);
    args
}

/// How a run of the command-line tool ended: whether it could be started at
/// all and, if so, whether it reported success and what it wrote.
#[derive(Debug)]
pub enum ToolRun {
    /// The tool ran; `success` is its exit status.
    Finished { success: bool, stdout: String, stderr: String },
    /// The tool could not be run, for the reason given.
    NotRun(String),
}

/// Judges a run of the log command: the log on success, and otherwise a
/// message with what the tool wrote to its error stream or with the reason
/// why it could not be run.
pub fn logs_outcome(run: ToolRun) -> (r: Result<String, String>)
    ensures
        match run {
            ToolRun::Finished { success, stdout, stderr } => if success {
                r is Ok && r->Ok_0@ == stdout@
            } else {
                r is Err && r->Err_0@ == "Failed to get logs: "@ + stderr@
            },
            ToolRun::NotRun(reason) => r is Err && r->Err_0@ == "Failed to execute command: "@
                + reason@,
        },
{
    match run {
        ToolRun::Finished { success, stdout, stderr } => {
            if success {
                Ok(stdout)
            } else {
                Err(String::from_str("Failed to get logs: ").concat(stderr.as_str()))
            }
        },
        ToolRun::NotRun(reason) => Err(
            String::from_str("Failed to execute command: ").concat(reason.as_str()),
        ),
    }
}

/// Judges a run of the tool whose output is to be parsed: what it wrote on
/// success, and otherwise an operation error with what the tool wrote to
/// its error stream or with the reason why it could not be run.
pub fn tool_outcome(run: ToolRun) -> (r: Result<String, DockerError>)
    ensures
        match run {
            ToolRun::Finished { success, stdout, stderr } => if success {
                r is Ok && r->Ok_0@ == stdout@
            } else {
                r is Err && r->Err_0@ == DockerErrorView::OperationError(stderr@)
            },
            ToolRun::NotRun(reason) => r is Err && r->Err_0@ == DockerErrorView::OperationError(
                reason@,
            ),
        },
{
    match run {
        ToolRun::Finished { success, stdout, stderr } => {
            if success {
                Ok(stdout)
            } else {
                Err(DockerError::OperationError(stderr))
            }
        },
        ToolRun::NotRun(reason) => Err(DockerError::OperationError(reason)),
    }
}

/// A greeting for `name`.
pub fn greet(name: &str) -> (r: String)
    ensures
        r@ == "Hello, "@ + name@ + "! You've been greeted from Rust!"@,
{
    let mut text = String::from_str("Hello, ");
    text.append(name);
    text.append("! You've been greeted from Rust!");
    text
}

} // verus!
