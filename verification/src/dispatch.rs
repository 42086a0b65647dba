//! The subprocess dispatcher for worker invocations.
//!
//! A download request is handed to the external worker as a child process:
//! the worker script is run by a fixed interpreter with three positional
//! arguments. The caller spawns the command this module builds, waits for it,
//! and hands back the exit status and captured output streams; the dispatcher
//! then maps that outcome to exactly one of a success reply carrying stdout
//! or a failure reply carrying stderr, decided solely by the exit status.

use vstd::prelude::*;
use crate::locator::{first_existing, locate_worker, not_found_message};
use crate::paths::views_of;

verus! {

/// A media download request; all fields pass through to the worker verbatim.
pub struct DownloadRequest {
    pub url: String,
    pub output_path: String,
    pub quality: String,
}

/// The outcome of one finished child process: whether its exit status
/// reported success, and its fully captured output streams.
pub struct ProcessResult {
    pub succeeded: bool,
    pub stdout: String,
    pub stderr: String,
}

/// A command line for the caller to spawn: a program name, resolved through
/// the host's standard executable search, and its arguments in order.
pub struct OsCommand {
    pub program: String,
    pub args: Vec<String>,
}

/// The interpreter that runs the worker script.
pub open spec fn interpreter_name() -> Seq<char> {
    "python"@
}

/// `needle` occurs contiguously somewhere in `hay`.
pub open spec fn contains_seq(hay: Seq<char>, needle: Seq<char>) -> bool {
    exists|k: int|
        0 <= k && k + needle.len() <= hay.len() && #[trigger] hay.subrange(
            k,
            k + needle.len(),
        ) == needle
}

/// The command line that invokes the worker: the interpreter running the
/// resolved script with the three request fields as positional arguments,
/// in fixed order.
pub fn download_command(script_path: &str, request: &DownloadRequest) -> (r: OsCommand)
    ensures
        r.program@ == interpreter_name(),
        views_of(r.args@) == seq![
            script_path@,
            request.url@,
            request.output_path@,
            request.quality@,
        ],
{
    let mut args: Vec<String> = Vec::new();
    args.push(String::from_str(script_path));
    args.push(request.url.clone());
    args.push(request.output_path.clone());
    args.push(request.quality.clone());
    proof {
        assert(views_of(args@) =~= seq![
            script_path@,
            request.url@,
            request.output_path@,
            request.quality@,
        ]);
    }
    OsCommand { program: String::from_str("python"), args }
}

/// The pre-spawn half of a download: selects the worker script — the first
/// candidate whose presence flag is set — and builds the command line that
/// runs it with the request's fields. When the worker file exists at no
/// candidate, fails fast with the diagnostic that lists the probed
/// candidates, rather than attempting a non-existent path.
pub fn plan_download(
    candidates: &Vec<String>,
    present: &Vec<bool>,
    request: &DownloadRequest,
) -> (r: Result<OsCommand, String>)
    requires
        candidates@.len() == present@.len(),
    ensures
        match first_existing(present@) {
            Some(i) => r is Ok && r->Ok_0.program@ == interpreter_name() && views_of(
                r->Ok_0.args@,
            ) == seq![
                candidates@[i]@,
                request.url@,
                request.output_path@,
                request.quality@,
            ],
            None => r is Err && r->Err_0@ == not_found_message(views_of(candidates@)),
        },
{
    match locate_worker(candidates, present) {
        Ok(script) => Ok(download_command(script.as_str(), request)),
        Err(diagnostic) => Err(diagnostic),
    }
}

/// The reply when the worker exited successfully; it embeds captured stdout.
pub open spec fn success_message(stdout: Seq<char>) -> Seq<char> {
    "Download completed! Output: "@ + stdout
}

/// The reply when the worker exited with a failure status; it embeds
/// captured stderr.
pub open spec fn worker_failure_message(stderr: Seq<char>) -> Seq<char> {
    "Download failed: "@ + stderr
}

/// The reply when the OS refused to start the interpreter; it embeds the OS
/// error and a hint that names the interpreter to check for.
pub open spec fn spawn_error_message(os_error: Seq<char>) -> Seq<char> {
    "Failed to execute Python command: "@ + os_error
        + ". Make sure Python is installed and in PATH."@
}

/// Maps a finished worker process to the caller's reply: success carrying
/// stdout exactly when the exit status reported success, otherwise failure
/// carrying stderr.
pub fn download_outcome(result: &ProcessResult) -> (r: Result<String, String>)
    ensures
        r is Ok <==> result.succeeded,
        result.succeeded ==> r->Ok_0@ == success_message(result.stdout@),
        !result.succeeded ==> r->Err_0@ == worker_failure_message(result.stderr@),
{
    if result.succeeded {
        Ok(String::from_str("Download completed! Output: ").concat(result.stdout.as_str()))
    } else {
        Err(String::from_str("Download failed: ").concat(result.stderr.as_str()))
    }
}

/// The failure reply for a worker spawn the OS refused.
pub fn spawn_error_reply(os_error: &str) -> (r: String)
    ensures
        r@ == spawn_error_message(os_error@),
{
    let mut s = String::from_str("Failed to execute Python command: ");
    s.append(os_error);
    s.append(". Make sure Python is installed and in PATH.");
    s
}

/// The interpreter's name as the replies write it.
pub open spec fn interpreter_display_name() -> Seq<char> {
    "Python"@
}

/// Whatever the OS reported, the spawn-failure reply names the interpreter
/// whose absence is the likely cause.
pub proof fn lemma_spawn_error_names_interpreter(os_error: Seq<char>)
    ensures
        contains_seq(spawn_error_message(os_error), interpreter_display_name()),
{
    reveal_strlit("Failed to execute Python command: ");
    reveal_strlit("Python");
    let msg = spawn_error_message(os_error);
    let name = interpreter_display_name();
    assert(name.len() == 6);
    assert(msg.subrange(18, 18 + name.len() as int) =~= name);
}

} // verus!
