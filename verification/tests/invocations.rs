use nspawn::images::{
    clone_image, import_remote_image, list_local_images, remove_image, rename_image,
    set_read_only, start_image,
};
use nspawn::machines::{
    exec_machine, get_network_config, kill_machine, list_active_machines, machine_shell,
    reboot_machine, stop_machine, terminate_machine,
};
use nspawn::process::{ErrorKind, Invocation, OpError, BIN_PATH, MACHINECTL};

fn texts(words: &[&str]) -> Vec<String> {
    words.iter().map(|w| w.to_string()).collect()
}

fn write(words: &[&str], failure: &str) -> Invocation {
    Invocation { args: texts(words), failure: Some(failure.to_string()) }
}

fn read(words: &[&str]) -> Invocation {
    Invocation { args: texts(words), failure: None }
}

#[test]
fn control_utility_and_lookup_path() {
    assert_eq!(MACHINECTL, "machinectl");
    assert_eq!(BIN_PATH, "/usr/bin/");
}

#[test]
fn listing_images_asks_for_json() {
    assert_eq!(list_local_images(), read(&["list-images", "--output", "json"]));
}

#[test]
fn listing_machines_asks_for_json() {
    assert_eq!(list_active_machines(), read(&["--output", "json"]));
}

#[test]
fn network_config_runs_ip_in_the_machine() {
    assert_eq!(
        get_network_config("web"),
        read(&["--quiet", "shell", "web", "/usr/bin/ip", "-j", "a"])
    );
}

#[test]
fn image_invocations_name_the_image() {
    assert_eq!(start_image("a"), write(&["start", "a"], "Failed to start image"));
    assert_eq!(remove_image("a"), write(&["remove", "a"], "Failed to remove image"));
    assert_eq!(rename_image("a", "b"), write(&["rename", "a", "b"], "Failed to rename image"));
    assert_eq!(clone_image("a", "b"), write(&["clone", "a", "b"], "Failed to clone image"));
}

#[test]
fn read_only_is_set_to_true_or_false() {
    assert_eq!(set_read_only("a", true), write(&["read-only", "a", "true"], "Failed to set read-only"));
    assert_eq!(set_read_only("a", false), write(&["read-only", "a", "false"], "Failed to set read-only"));
}

#[test]
fn import_of_raw_and_tar_images_pulls_them() {
    assert_eq!(
        import_remote_image("https://x/image.raw.xz", "raw", "local"),
        Ok(write(&["pull-raw", "https://x/image.raw.xz", "local"], "Failed to import image"))
    );
    assert_eq!(
        import_remote_image("https://x/image.tar.xz", "tar", "local"),
        Ok(write(&["pull-tar", "https://x/image.tar.xz", "local"], "Failed to import image"))
    );
}

#[test]
fn import_of_another_type_is_a_usage_error() {
    let expected = OpError { kind: ErrorKind::Usage, message: "Invalid image type".to_string() };
    assert_eq!(import_remote_image("https://x/image.bar.xz", "bar", "local"), Err(expected.clone()));
    assert_eq!(import_remote_image("u", "", "local"), Err(expected.clone()));
    assert_eq!(import_remote_image("u", "RAW", "local"), Err(expected.clone()));
    assert_eq!(import_remote_image("u", "raw ", "local"), Err(expected));
}

#[test]
fn machine_invocations_name_the_machine() {
    assert_eq!(stop_machine("m"), write(&["stop", "m"], "Failed to stop machine"));
    assert_eq!(terminate_machine("m"), write(&["terminate", "m"], "Failed to terminate machine"));
    assert_eq!(reboot_machine("m"), write(&["reboot", "m"], "Failed to reboot machine"));
    assert_eq!(
        kill_machine("m", "SIGTERM"),
        write(&["kill", "m", "--signal", "SIGTERM"], "Failed to kill machine")
    );
}

#[test]
fn shell_logs_in_as_user_at_machine() {
    assert_eq!(
        machine_shell("web", "root"),
        write(&["--quiet", "shell", "root@web"], "Failed to open shell")
    );
}

#[test]
fn exec_looks_the_first_word_up_and_passes_the_rest() {
    assert_eq!(
        exec_machine("web", "root", "ls -la"),
        write(&["--quiet", "shell", "root@web", "/usr/bin/ls", "-la"], "Failed to execute command")
    );
    assert_eq!(
        exec_machine("web", "admin", "uptime"),
        write(&["--quiet", "shell", "admin@web", "/usr/bin/uptime"], "Failed to execute command")
    );
    assert_eq!(
        exec_machine("web", "root", "  cat   /etc/os-release\t/etc/hostname "),
        write(
            &["--quiet", "shell", "root@web", "/usr/bin/cat", "/etc/os-release", "/etc/hostname"],
            "Failed to execute command"
        )
    );
}

#[test]
fn exec_does_not_quote_or_escape() {
    assert_eq!(
        exec_machine("web", "root", "sh -c 'echo a b'"),
        write(
            &["--quiet", "shell", "root@web", "/usr/bin/sh", "-c", "'echo", "a", "b'"],
            "Failed to execute command"
        )
    );
}

#[test]
fn failing_exit_status_is_an_error_of_a_write() {
    let call = remove_image("a");
    assert_eq!(call.judge(true), Ok(()));
    assert_eq!(
        call.judge(false),
        Err(OpError { kind: ErrorKind::Exit, message: "Failed to remove image".to_string() })
    );
}

#[test]
fn exit_status_of_a_read_is_not_looked_at() {
    let call = list_local_images();
    assert_eq!(call.judge(true), Ok(()));
    assert_eq!(call.judge(false), Ok(()));
}

#[test]
fn errors_are_made_and_copied() {
    let e = OpError::new(ErrorKind::Network, "no route");
    assert_eq!(e, OpError { kind: ErrorKind::Network, message: "no route".to_string() });
    assert_eq!(e.duplicate(), e);
}
