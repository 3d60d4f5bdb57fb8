use indextts_launcher::command::{
    capture_verdict, configure_command, copy_strings, new_command, CommandOutput, CommandSpec,
    Platform, CREATE_NO_WINDOW,
};
use indextts_launcher::failure::Failure;

#[test]
fn builder_keeps_order() {
    let command = CommandSpec::new("git")
        .arg("-C")
        .arg("dir")
        .current_dir("/tmp")
        .env("A", "1")
        .env("B", "2")
        .arg("status");
    assert_eq!(command.program, "git");
    assert_eq!(command.args, vec!["-C", "dir", "status"]);
    assert_eq!(command.current_dir.as_deref(), Some("/tmp"));
    assert_eq!(
        command.envs,
        vec![("A".to_string(), "1".to_string()), ("B".to_string(), "2".to_string())]
    );
    assert_eq!(command.creation_flags, None);
    assert_eq!(command.duplicate(), command);
}

#[test]
fn console_is_hidden_on_windows_only() {
    assert_eq!(CREATE_NO_WINDOW, 0x0800_0000);
    assert_eq!(new_command("uv", Platform::Windows).creation_flags, Some(0x0800_0000));
    for platform in [Platform::MacOs, Platform::Linux, Platform::OtherUnix, Platform::Other] {
        assert_eq!(new_command("uv", platform).creation_flags, None);
    }
    let mut command = CommandSpec::new("git").arg("x");
    configure_command(&mut command, Platform::Windows);
    assert_eq!(command.creation_flags, Some(0x0800_0000));
    assert_eq!(command.args, vec!["x"]);
    configure_command(&mut command, Platform::Windows);
    assert_eq!(command.creation_flags, Some(0x0800_0000));
}

#[test]
fn unix_platforms() {
    assert!(Platform::Linux.is_unix());
    assert!(Platform::MacOs.is_unix());
    assert!(Platform::OtherUnix.is_unix());
    assert!(!Platform::Windows.is_unix());
    assert!(!Platform::Other.is_unix());
}

#[test]
fn strings_are_copied() {
    let items = vec!["a".to_string(), "".to_string(), "中".to_string()];
    assert_eq!(copy_strings(&items), items);
}

#[test]
fn verdict_of_a_captured_command() {
    let good = CommandOutput {
        success: true,
        status: "exit status: 0".to_string(),
        stdout: b"out".to_vec(),
        stderr: b"warn".to_vec(),
    };
    assert_eq!(capture_verdict(Ok(good.clone()), "S", "F"), Ok(good));
    let bad = CommandOutput {
        success: false,
        status: "exit status: 2".to_string(),
        stdout: b"out".to_vec(),
        stderr: b"bad \xc3\x28 bytes".to_vec(),
    };
    assert_eq!(
        capture_verdict(Ok(bad), "S", "F"),
        Err(Failure::CommandFailed { context: "F".to_string(), output: "bad \u{fffd}( bytes".to_string() })
    );
    assert_eq!(
        capture_verdict(Err("enoent".to_string()), "S", "F"),
        Err(Failure::Spawn { context: "S".to_string(), detail: "enoent".to_string() })
    );
}
