//! OS-integration dispatch: opening a folder, or a file's location, in the
//! host file manager.
//!
//! Exactly one platform is selected per deployment; each maps the operation
//! to its own file-manager command line. These spawns are fire-and-forget:
//! the caller does not wait on the child, and no existence check is made on
//! the target path. The Unix variant has no native "select this file"
//! capability, so opening a file's location opens the file's parent
//! directory instead.

use vstd::prelude::*;
use crate::dispatch::{contains_seq, OsCommand};
use crate::host::Platform;
use crate::paths::{parent_dir, parent_of, views_of};

verus! {

/// The file-manager program each platform invokes.
pub open spec fn file_manager_program(p: Platform) -> Seq<char> {
    match p {
        Platform::Windows => "explorer"@,
        Platform::MacOs => "open"@,
        Platform::Linux => "xdg-open"@,
    }
}

/// The command that opens `path` as a directory in the host file manager.
pub fn open_folder_command(platform: Platform, path: &str) -> (r: OsCommand)
    ensures
        r.program@ == file_manager_program(platform),
        views_of(r.args@) == seq![path@],
{
    let program = match platform {
        Platform::Windows => String::from_str("explorer"),
        Platform::MacOs => String::from_str("open"),
        Platform::Linux => String::from_str("xdg-open"),
    };
    let mut args: Vec<String> = Vec::new();
    args.push(String::from_str(path));
    proof {
        assert(views_of(args@) =~= seq![path@]);
    }
    OsCommand { program, args }
}

/// The command that opens the file manager at `file_path`'s location,
/// pre-selecting the file where the platform can. On Windows the explorer
/// takes a select flag and the file; on Apple desktops `open` takes a reveal
/// flag and the file; on Unix desktops the opener takes the file's parent
/// directory, and a file without a parent yields no command at all.
pub fn open_file_location_command(platform: Platform, file_path: &str) -> (r: Option<OsCommand>)
    ensures
        match platform {
            Platform::Windows => r is Some && r->0.program@ == file_manager_program(platform)
                && views_of(r->0.args@) == seq!["/select,"@, file_path@],
            Platform::MacOs => r is Some && r->0.program@ == file_manager_program(platform)
                && views_of(r->0.args@) == seq!["-R"@, file_path@],
            Platform::Linux => match parent_of(Platform::Linux, file_path@) {
                Some(d) => r is Some && r->0.program@ == file_manager_program(platform)
                    && views_of(r->0.args@) == seq![d],
                None => r is None,
            },
        },
{
    match platform {
        Platform::Windows => {
            let mut args: Vec<String> = Vec::new();
            args.push(String::from_str("/select,"));
            args.push(String::from_str(file_path));
            proof {
                assert(views_of(args@) =~= seq!["/select,"@, file_path@]);
            }
            Some(OsCommand { program: String::from_str("explorer"), args })
        },
        Platform::MacOs => {
            let mut args: Vec<String> = Vec::new();
            args.push(String::from_str("-R"));
            args.push(String::from_str(file_path));
            proof {
                assert(views_of(args@) =~= seq!["-R"@, file_path@]);
            }
            Some(OsCommand { program: String::from_str("open"), args })
        },
        Platform::Linux => {
            match parent_dir(Platform::Linux, file_path) {
                Some(d) => {
                    let mut args: Vec<String> = Vec::new();
                    args.push(d);
                    proof {
                        assert(views_of(args@) =~= seq![parent_of(Platform::Linux, file_path@)->0]);
                    }
                    Some(OsCommand { program: String::from_str("xdg-open"), args })
                },
                None => None,
            }
        },
    }
}

/// The success reply for opening a folder; it embeds the path verbatim.
pub open spec fn open_folder_message(path: Seq<char>) -> Seq<char> {
    "Opened folder: "@ + path
}

/// The success reply for opening a file's location; it embeds the file path
/// verbatim.
pub open spec fn open_file_location_message(file_path: Seq<char>) -> Seq<char> {
    "Opened file location: "@ + file_path
}

/// The failure reply when the file manager refused to spawn for a folder.
pub open spec fn open_folder_error_message(os_error: Seq<char>) -> Seq<char> {
    "Failed to open folder: "@ + os_error
}

/// The failure reply when the file manager refused to spawn for a file
/// location.
pub open spec fn open_file_location_error_message(os_error: Seq<char>) -> Seq<char> {
    "Failed to open file location: "@ + os_error
}

/// The success reply for opening `path` as a folder.
pub fn open_folder_reply(path: &str) -> (r: String)
    ensures
        r@ == open_folder_message(path@),
{
    let mut s = String::from_str("Opened folder: ");
    s.append(path);
    s
}

/// The success reply for opening `file_path`'s location.
pub fn open_file_location_reply(file_path: &str) -> (r: String)
    ensures
        r@ == open_file_location_message(file_path@),
{
    let mut s = String::from_str("Opened file location: ");
    s.append(file_path);
    s
}

/// The failure reply for a folder open the OS refused.
pub fn open_folder_error_reply(os_error: &str) -> (r: String)
    ensures
        r@ == open_folder_error_message(os_error@),
{
    let mut s = String::from_str("Failed to open folder: ");
    s.append(os_error);
    s
}

/// The failure reply for a file-location open the OS refused.
pub fn open_file_location_error_reply(os_error: &str) -> (r: String)
    ensures
        r@ == open_file_location_error_message(os_error@),
{
    let mut s = String::from_str("Failed to open file location: ");
    s.append(os_error);
    s
}

/// Both success replies embed the path argument verbatim, whether or not the
/// underlying path exists: the reply ends with the path, and so contains it.
pub proof fn lemma_open_replies_embed_path(path: Seq<char>)
    ensures
        contains_seq(open_folder_message(path), path),
        contains_seq(open_file_location_message(path), path),
{
    reveal_strlit("Opened folder: ");
    reveal_strlit("Opened file location: ");
    let folder = open_folder_message(path);
    assert(folder.subrange(15, 15 + path.len() as int) =~= path);
    let location = open_file_location_message(path);
    assert(location.subrange(22, 22 + path.len() as int) =~= path);
}

} // verus!
