use c2rust_init::shell::cmd_export_command;
use c2rust_init::shell::env_var_name;
use c2rust_init::shell::posix_escape;
use c2rust_init::shell::posix_export_command;
use c2rust_init::shell::powershell_escape;
use c2rust_init::shell::powershell_export_command;

#[test]
fn env_var_name_is_fixed() {
    assert_eq!(env_var_name(), "C2RUST_PROJECT_ROOT");
}

#[test]
fn posix_escape_leaves_plain_text_alone() {
    assert_eq!(posix_escape(""), "");
    assert_eq!(posix_escape("/home/user/project"), "/home/user/project");
}

#[test]
fn posix_escape_breaks_out_of_single_quotes() {
    assert_eq!(posix_escape("a'b"), "a'\\''b");
    assert_eq!(posix_escape("''"), "'\\'''\\''");
}

#[test]
fn powershell_escape_doubles_single_quotes() {
    assert_eq!(powershell_escape(""), "");
    assert_eq!(powershell_escape("plain"), "plain");
    assert_eq!(powershell_escape("a'b"), "a''b");
}

#[test]
fn posix_export_command_quotes_the_path() {
    assert_eq!(
        posix_export_command("/tmp/demo"),
        "export C2RUST_PROJECT_ROOT='/tmp/demo'"
    );
    assert_eq!(
        posix_export_command("/tmp/it's here"),
        "export C2RUST_PROJECT_ROOT='/tmp/it'\\''s here'"
    );
}

#[test]
fn powershell_export_command_quotes_the_path() {
    assert_eq!(
        powershell_export_command("C:\\work"),
        "$env:C2RUST_PROJECT_ROOT = 'C:\\work'"
    );
    assert_eq!(
        powershell_export_command("it's"),
        "$env:C2RUST_PROJECT_ROOT = 'it''s'"
    );
}

#[test]
fn cmd_export_command_wraps_the_assignment() {
    assert_eq!(
        cmd_export_command("C:\\work"),
        "set \"C2RUST_PROJECT_ROOT=C:\\work\""
    );
}

#[test]
fn escaped_path_survives_non_ascii_text() {
    assert_eq!(posix_escape("/home/ユーザー/工程"), "/home/ユーザー/工程");
}
