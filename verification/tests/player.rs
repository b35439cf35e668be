use iptv::player::{
    blocking_args, blocking_exit, check_mpv_answer, clamp_volume, disassociated_command, fallback_exit_message,
    fallback_socket_path, loadfile_command, managed_mpv_args, mpv_exit_message, mpv_missing_message, no_terminal_message,
    socket_path, state_dir, terminal_args, terminal_emulators, volume_command,
};

#[test]
fn blocking_player_arguments() {
    assert_eq!(
        blocking_args("http://s/1.ts"),
        vec!["http://s/1.ts", "--force-window=yes", "--keep-open=yes", "--title=IPTV Stream", "--geometry=1280x720", "--autofit-larger=90%x90%"]
    );
}

#[test]
fn exit_code_four_is_a_normal_quit() {
    assert_eq!(blocking_exit(true, Some(0)), Ok(()));
    assert_eq!(blocking_exit(false, Some(4)), Ok(()));
    assert_eq!(blocking_exit(false, None), Ok(()));
    assert_eq!(blocking_exit(false, Some(2)), Err("MPV exited with code: 2".to_string()));
    assert_eq!(blocking_exit(false, Some(-1)), Err("MPV exited with code: -1".to_string()));
}

#[test]
fn disassociated_player_uses_setsid_on_linux() {
    let (p, a) = disassociated_command("u", true);
    assert_eq!(p, "setsid");
    assert_eq!(a[0], "mpv");
    assert_eq!(a[1], "u");
    let (p, a) = disassociated_command("u", false);
    assert_eq!(p, "mpv");
    assert_eq!(a[0], "u");
}

#[test]
fn terminals_in_order_of_preference() {
    let t = terminal_emulators();
    let names: Vec<&str> = t.iter().map(|(n, _)| n.as_str()).collect();
    assert_eq!(names, vec!["alacritty", "kitty", "konsole", "gnome-terminal", "xfce4-terminal", "mate-terminal", "xterm"]);
    assert_eq!(t[0].1, vec!["-e".to_string()]);
    assert!(t[1].1.is_empty());
    assert!(no_terminal_message().starts_with("No terminal emulator found"));
}

#[test]
fn terminal_arguments_run_mpv_with_a_socket() {
    let a = terminal_args(&vec!["-e".to_string()], "http://u", "/tmp/s.sock");
    assert_eq!(a[0], "-e");
    assert_eq!(a[1], "mpv");
    assert_eq!(a[2], "http://u");
    assert_eq!(a[3], "--input-ipc-server=/tmp/s.sock");
}

#[test]
fn managed_player_arguments_start_with_the_socket() {
    let a = managed_mpv_args("/run/s");
    assert_eq!(a[0], "--input-ipc-server=/run/s");
    assert_eq!(a[1], "--idle=yes");
}

#[test]
fn socket_locations() {
    assert_eq!(state_dir(Some("/x/state"), Some("/home/u")), "/x/state");
    assert_eq!(state_dir(None, Some("/home/u")), "/home/u/.local/state");
    assert_eq!(socket_path("/home/u/.local/state", false, 42), "/home/u/.local/state/iptv/mpv.sock");
    assert_eq!(socket_path("/s", true, 42), "/s/iptv/mpv-42.sock");
    assert_eq!(fallback_socket_path("/tmp", 1000, false, 7), "/tmp/iptv-mpv-1000.sock");
    assert_eq!(fallback_socket_path("/tmp/", 1000, true, 7), "/tmp/iptv-mpv-1000-7.sock");
}

#[test]
fn exit_reports() {
    assert_eq!(mpv_exit_message(true, Some(0)), "MPV exited normally (status: 0)");
    assert_eq!(mpv_exit_message(false, Some(3)), "MPV exited with error code: 3");
    assert_eq!(mpv_exit_message(false, None), "MPV terminated by signal");
    assert_eq!(fallback_exit_message(true, None), "Player exited normally");
    assert_eq!(fallback_exit_message(false, Some(-2)), "Player exited with error code: -2");
    assert_eq!(fallback_exit_message(false, None), "Player terminated by signal");
    assert!(mpv_missing_message().starts_with("MPV is not installed"));
}

#[test]
fn ipc_commands() {
    assert_eq!(loadfile_command("http://a/b \"c\""), "{\"command\":[\"loadfile\",\"http://a/b \\\"c\\\"\",\"replace\"]}");
    assert_eq!(volume_command(55), "{\"command\":[\"set_property\",\"volume\",55]}");
    assert_eq!(volume_command(200), "{\"command\":[\"set_property\",\"volume\",100]}");
    assert_eq!(clamp_volume(101), 100);
    assert_eq!(clamp_volume(7), 7);
}

#[test]
fn mpv_answers() {
    assert_eq!(check_mpv_answer("{\"error\":\"success\"}"), Ok(()));
    assert_eq!(check_mpv_answer("{\"data\":1}"), Ok(()));
    assert_eq!(check_mpv_answer("{\"error\":\"property not found\"}"), Err("MPV command failed: property not found".to_string()));
    assert_eq!(check_mpv_answer("not json"), Err("Failed to parse MPV response: not json".to_string()));
}

#[test]
fn loadfile_escapes_backslashes_and_control_characters() {
    assert_eq!(
        loadfile_command("a\\b\n\t\u{1}\u{1f}é"),
        "{\"command\":[\"loadfile\",\"a\\\\b\\n\\t\\u0001\\u001fé\",\"replace\"]}"
    );
}

#[test]
fn mpv_answer_error_that_is_not_a_string_counts_as_success() {
    assert_eq!(check_mpv_answer("{\"error\":3}"), Ok(()));
    assert_eq!(check_mpv_answer("{\"request_id\":0,\"error\":\"success\"}"), Ok(()));
}
