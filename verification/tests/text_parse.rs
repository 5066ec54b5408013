use service_manager::device::{command_result, plan_session, session_is_live, CmdOutcome,
    SessionPlan};
use service_manager::errors::DeviceError;
use service_manager::parser::{format_message, parse_topic, MessageType};
use service_manager::text::{find_sub, replace_all, split_char, str_eq, trim_str};

#[test]
fn parse_topic_reads_service_and_status_kind() {
    let (name, kind) = parse_topic("home/services/led_manager/status");
    assert_eq!(name, "led_manager");
    assert!(matches!(kind, MessageType::Status));
}

#[test]
fn parse_topic_reads_command_kind() {
    let (name, kind) = parse_topic("a/b/command");
    assert_eq!(name, "b");
    assert!(matches!(kind, MessageType::Command));
}

#[test]
fn parse_topic_without_slash_is_unknown_service() {
    let (name, kind) = parse_topic("heartbeat");
    assert_eq!(name, "unknown");
    match kind {
        MessageType::Unknown(t) => assert_eq!(t, "heartbeat"),
        other => panic!("expected unknown kind, got {:?}", other),
    }
}

#[test]
fn parse_topic_of_empty_string() {
    let (name, kind) = parse_topic("");
    assert_eq!(name, "unknown");
    match kind {
        MessageType::Unknown(t) => assert_eq!(t, ""),
        other => panic!("expected unknown kind, got {:?}", other),
    }
}

#[test]
fn format_message_shows_json_status_field() {
    let line = format_message("topic 'home/services/cam/status': {\"status\":\"online\"}");
    assert_eq!(line, "cam | Status: online");
}

#[test]
fn format_message_status_without_field_is_unknown() {
    let line = format_message("topic 'home/services/cam/status': {\"state\":\"up\"}");
    assert_eq!(line, "cam | Status: unknown");
}

#[test]
fn format_message_status_with_broken_json_passes_through() {
    let raw = "topic 'home/services/cam/status': not json";
    assert_eq!(format_message(raw), raw);
}

#[test]
fn format_message_acknowledges_commands() {
    let line = format_message("topic 'home/services/led_manager/command': {\"action\":\"on\"}");
    assert_eq!(line, "led_manager | Command received");
}

#[test]
fn format_message_trims_other_payloads() {
    let line = format_message("topic 'home/services/sensor/temperature':   21.5  ");
    assert_eq!(line, "sensor | temperature: 21.5");
}

#[test]
fn format_message_without_frame_passes_through() {
    assert_eq!(format_message("plain log text"), "plain log text");
}

#[test]
fn find_sub_is_leftmost() {
    assert_eq!(find_sub("abcabc", "bc"), Some(1));
    assert_eq!(find_sub("abc", "cd"), None);
    assert_eq!(find_sub("abc", ""), Some(0));
}

#[test]
fn str_eq_compares_contents() {
    assert!(str_eq("same", "same"));
    assert!(!str_eq("same", "Same"));
    assert!(!str_eq("same", "sames"));
}

#[test]
fn split_char_keeps_empty_pieces() {
    let parts = split_char("a//b/", '/');
    let parts: Vec<&str> = parts.iter().map(|p| p.as_str()).collect();
    assert_eq!(parts, vec!["a", "", "b", ""]);
}

#[test]
fn replace_all_replaces_each_occurrence_left_to_right() {
    assert_eq!(replace_all("a{x}b{x}", "{x}", "1"), "a1b1");
    assert_eq!(replace_all("nothing here", "{x}", "1"), "nothing here");
    assert_eq!(replace_all("aaaa", "aa", "a"), "aa");
}

#[test]
fn trim_str_removes_surrounding_whitespace_only() {
    assert_eq!(trim_str("  a b \t\n"), "a b");
    assert_eq!(trim_str(""), "");
    assert_eq!(trim_str("   "), "");
}

#[test]
fn session_plan_reuses_only_live_sessions() {
    assert_eq!(plan_session(true, true), SessionPlan::Reuse);
    assert_eq!(plan_session(true, false), SessionPlan::Recreate);
    assert_eq!(plan_session(false, true), SessionPlan::Recreate);
    assert_eq!(plan_session(false, false), SessionPlan::Recreate);
}

#[test]
fn probe_is_live_only_on_zero_exit() {
    assert!(session_is_live(&CmdOutcome::Completed {
        exit_status: 0,
        stdout: "test\n".to_string(),
        stderr: String::new(),
    }));
    assert!(!session_is_live(&CmdOutcome::Completed {
        exit_status: 1,
        stdout: String::new(),
        stderr: String::new(),
    }));
    assert!(!session_is_live(&CmdOutcome::Transport { detail: "gone".to_string() }));
}

#[test]
fn command_result_distinguishes_exit_and_transport_failures() {
    // success hands the captured output back
    let out = command_result(
        "echo test".to_string(),
        CmdOutcome::Completed {
            exit_status: 0,
            stdout: "test\n".to_string(),
            stderr: String::new(),
        },
    )
    .unwrap();
    assert_eq!(out, "test\n");
    match command_result(
        "false".to_string(),
        CmdOutcome::Completed {
            exit_status: 1,
            stdout: String::new(),
            stderr: "boom".to_string(),
        },
    ) {
        Err(DeviceError::SshError { command, exit_status, stderr }) => {
            assert_eq!(command, "false");
            assert_eq!(exit_status, 1);
            assert_eq!(stderr, "boom");
        },
        other => panic!("expected ssh error, got {:?}", other),
    }
    match command_result(
        "true".to_string(),
        CmdOutcome::Transport { detail: "timed out".to_string() },
    ) {
        Err(DeviceError::Ssh2Error(d)) => assert_eq!(d, "timed out"),
        other => panic!("expected transport error, got {:?}", other),
    }
}
