use worker_dispatch::host::Platform;
use worker_dispatch::platform::{
    open_file_location_command, open_file_location_error_reply, open_file_location_reply,
    open_folder_command, open_folder_error_reply, open_folder_reply,
};

#[test]
fn folder_command_per_platform() {
    let cmd = open_folder_command(Platform::Windows, "D:/videos");
    assert_eq!(cmd.program, "explorer".to_string());
    assert_eq!(cmd.args, vec!["D:/videos".to_string()]);

    let cmd = open_folder_command(Platform::MacOs, "/tmp/videos");
    assert_eq!(cmd.program, "open".to_string());
    assert_eq!(cmd.args, vec!["/tmp/videos".to_string()]);

    let cmd = open_folder_command(Platform::Linux, "/home/me/videos");
    assert_eq!(cmd.program, "xdg-open".to_string());
    assert_eq!(cmd.args, vec!["/home/me/videos".to_string()]);
}

#[test]
fn file_location_command_selects_on_windows() {
    let cmd = open_file_location_command(Platform::Windows, "D:/videos/a.mp4").unwrap();
    assert_eq!(cmd.program, "explorer".to_string());
    assert_eq!(
        cmd.args,
        vec!["/select,".to_string(), "D:/videos/a.mp4".to_string()]
    );
}

#[test]
fn file_location_command_reveals_on_mac() {
    let cmd = open_file_location_command(Platform::MacOs, "/tmp/a.mp4").unwrap();
    assert_eq!(cmd.program, "open".to_string());
    assert_eq!(cmd.args, vec!["-R".to_string(), "/tmp/a.mp4".to_string()]);
}

#[test]
fn file_location_command_opens_parent_on_linux() {
    let cmd = open_file_location_command(Platform::Linux, "/home/me/videos/a.mp4").unwrap();
    assert_eq!(cmd.program, "xdg-open".to_string());
    assert_eq!(cmd.args, vec!["/home/me/videos".to_string()]);
}

#[test]
fn file_location_command_keeps_the_root_on_linux() {
    let cmd = open_file_location_command(Platform::Linux, "/a.mp4").unwrap();
    assert_eq!(cmd.program, "xdg-open".to_string());
    assert_eq!(cmd.args, vec!["/".to_string()]);
}

#[test]
fn file_location_command_opens_the_empty_path_for_a_bare_name_on_linux() {
    // A bare file name's parent is the empty path, and the opener is invoked
    // with it, exactly as a host resolving the file against the working
    // directory would be asked to.
    let cmd = open_file_location_command(Platform::Linux, "a.mp4").unwrap();
    assert_eq!(cmd.program, "xdg-open".to_string());
    assert_eq!(cmd.args, vec!["".to_string()]);
}

#[test]
fn file_location_command_none_for_parentless_paths_on_linux() {
    assert!(open_file_location_command(Platform::Linux, "/").is_none());
    assert!(open_file_location_command(Platform::Linux, "").is_none());
}

#[test]
fn folder_reply_embeds_the_path_even_if_it_does_not_exist() {
    let r = open_folder_reply("Z:/no/such/dir");
    assert_eq!(r, "Opened folder: Z:/no/such/dir".to_string());
    assert!(r.contains("Z:/no/such/dir"));
}

#[test]
fn file_location_reply_embeds_the_path_even_if_it_does_not_exist() {
    let r = open_file_location_reply("Z:/no/such/file.mp4");
    assert_eq!(r, "Opened file location: Z:/no/such/file.mp4".to_string());
    assert!(r.contains("Z:/no/such/file.mp4"));
}

#[test]
fn os_integration_error_replies_embed_the_os_error() {
    let r = open_folder_error_reply("permission denied (os error 13)");
    assert_eq!(
        r,
        "Failed to open folder: permission denied (os error 13)".to_string()
    );
    let r = open_file_location_error_reply("permission denied (os error 13)");
    assert_eq!(
        r,
        "Failed to open file location: permission denied (os error 13)".to_string()
    );
}
