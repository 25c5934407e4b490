use resticapi::classify::{classify, InvocationResult, OperationOutcome};
use resticapi::config::{config_file_path, RepositoryConfig};
use resticapi::handlers::{
    finish, is_blank_text, is_white_space_char, launch_error_message, plan, HttpReply,
    LaunchError, Plan, ReplyBody,
};
use resticapi::invocation::{tool_args, Operation, ToolArg};

fn ran(exit_succeeded: bool, stdout: &str, stderr: &str) -> InvocationResult {
    InvocationResult {
        exit_succeeded,
        stdout: stdout.as_bytes().to_vec(),
        stderr: stderr.as_bytes().to_vec(),
    }
}

fn restore(target_dir: &str) -> Operation {
    Operation::RestoreSnapshot {
        snapshot_id: "abc123".to_string(),
        target_dir: target_dir.to_string(),
    }
}

fn delete(id: &str) -> Operation {
    Operation::DeleteSnapshot { snapshot_id: id.to_string() }
}

fn all_operations() -> Vec<Operation> {
    vec![Operation::Stats, Operation::ListSnapshots, delete("abc123"), restore("/tmp/out")]
}

fn error_text(reply: &HttpReply) -> String {
    match &reply.body {
        ReplyBody::Error(e) => e.clone(),
        _ => panic!("expected an error body"),
    }
}

fn message_text(reply: &HttpReply) -> String {
    match &reply.body {
        ReplyBody::Message(m) => m.clone(),
        _ => panic!("expected a message body"),
    }
}

fn texts(args: &[ToolArg]) -> Vec<Option<String>> {
    args.iter()
        .map(|a| match a {
            ToolArg::Text(t) => Some(t.clone()),
            ToolArg::CredentialFile => None,
        })
        .collect()
}

fn repo() -> RepositoryConfig {
    RepositoryConfig::new("/srv/backup".to_string(), "SECRET-REDACTED".to_string()).unwrap()
}

#[test]
fn restore_with_empty_target_is_rejected() {
    match plan(&restore("")) {
        Plan::Reject(reply) => {
            assert_eq!(reply.status, 400);
            assert_eq!(error_text(&reply), "Target directory is required");
        }
        Plan::Invoke(_) => panic!("a blank target must not run the tool"),
    }
}

#[test]
fn restore_with_whitespace_target_is_rejected() {
    for target in [" ", "\t\n  ", "\u{3000}\u{a0}"] {
        match plan(&restore(target)) {
            Plan::Reject(reply) => {
                assert_eq!(reply.status, 400);
                assert_eq!(error_text(&reply), "Target directory is required");
            }
            Plan::Invoke(_) => panic!("a blank target must not run the tool"),
        }
    }
}

#[test]
fn restore_with_target_runs_restore() {
    match plan(&restore(" /tmp/out ")) {
        Plan::Invoke(req) => {
            assert_eq!(req.subcommand, "restore");
            assert_eq!(req.arguments, vec!["abc123", "--target", " /tmp/out "]);
            assert!(!req.expect_json);
        }
        Plan::Reject(_) => panic!("a non-blank target must run the tool"),
    }
}

#[test]
fn requests_follow_the_operation_table() {
    let expected: Vec<(&str, Vec<&str>, bool)> = vec![
        ("stats", vec!["--json"], true),
        ("snapshots", vec!["--json"], true),
        ("forget", vec!["abc123", "--prune"], false),
        ("restore", vec!["abc123", "--target", "/tmp/out"], false),
    ];
    for (op, (sub, args, json)) in all_operations().iter().zip(expected) {
        let req = op.request();
        assert_eq!(req.subcommand, sub);
        assert_eq!(req.arguments, args);
        assert_eq!(req.expect_json, json);
        assert_eq!(op.expects_json(), json);
    }
}

#[test]
fn tool_args_put_repository_and_credential_first() {
    let req = delete("abc123").request();
    let args = tool_args(&repo(), &req);
    let expected = vec![
        Some("-r".to_string()),
        Some("/srv/backup".to_string()),
        Some("--password-file".to_string()),
        None,
        Some("forget".to_string()),
        Some("abc123".to_string()),
        Some("--prune".to_string()),
    ];
    assert_eq!(texts(&args), expected);
}

#[test]
fn delete_success_replies_with_message() {
    let reply = finish(&delete("abc123"), Ok(ran(true, "", "")));
    assert_eq!(reply.status, 200);
    assert_eq!(message_text(&reply), "Snapshot deleted successfully");
}

#[test]
fn restore_success_replies_with_message() {
    let reply = finish(&restore("/tmp/out"), Ok(ran(true, "restoring...", "")));
    assert_eq!(reply.status, 200);
    assert_eq!(message_text(&reply), "Snapshot restored successfully");
}

#[test]
fn stats_success_replies_with_tool_json() {
    let reply = finish(&Operation::Stats, Ok(ran(true, "{\"total_size\": 12345}", "")));
    assert_eq!(reply.status, 200);
    let expected: serde_json::Value = serde_json::from_str("{\"total_size\":12345}").unwrap();
    match reply.body {
        ReplyBody::Json(v) => {
            assert_eq!(v, expected);
            assert_eq!(v["total_size"].as_u64(), Some(12345));
        }
        _ => panic!("expected a JSON body"),
    }
}

#[test]
fn snapshots_success_replies_with_tool_json() {
    let reply = finish(&Operation::ListSnapshots, Ok(ran(true, "[{\"id\":\"abc\"}]", "")));
    assert_eq!(reply.status, 200);
    match reply.body {
        ReplyBody::Json(v) => assert_eq!(v[0]["id"].as_str(), Some("abc")),
        _ => panic!("expected a JSON body"),
    }
}

#[test]
fn tool_failure_reports_stderr_on_every_endpoint() {
    for op in all_operations() {
        let reply = finish(&op, Ok(ran(false, "", "repository not found")));
        assert_eq!(reply.status, 500);
        let error = error_text(&reply);
        assert!(error.contains("repository not found"));
        assert_eq!(error, "Restic error: repository not found");
    }
}

#[test]
fn tool_failure_decodes_invalid_stderr_lossily() {
    let result = InvocationResult {
        exit_succeeded: false,
        stdout: Vec::new(),
        stderr: vec![b'b', b'a', b'd', 0xff],
    };
    let reply = finish(&Operation::Stats, Ok(result));
    assert_eq!(reply.status, 500);
    assert_eq!(error_text(&reply), "Restic error: bad\u{fffd}");
}

#[test]
fn unparsable_output_is_a_parse_error() {
    for op in [Operation::Stats, Operation::ListSnapshots] {
        let reply = finish(&op, Ok(ran(true, "not-json", "")));
        assert_eq!(reply.status, 500);
        let error = error_text(&reply);
        assert!(error.starts_with("Failed to parse JSON: "));
        assert!(error.len() > "Failed to parse JSON: ".len());
    }
}

#[test]
fn invalid_utf8_output_is_a_decoding_error() {
    let result = InvocationResult {
        exit_succeeded: true,
        stdout: vec![b'{', 0xc3, 0x28, b'}'],
        stderr: Vec::new(),
    };
    let reply = finish(&Operation::Stats, Ok(result));
    assert_eq!(reply.status, 500);
    let error = error_text(&reply);
    assert!(error.starts_with("Invalid UTF-8 sequence: "));
    assert!(error.len() > "Invalid UTF-8 sequence: ".len());
}

#[test]
fn output_is_ignored_when_json_is_not_expected() {
    match classify(ran(true, "not-json", ""), false) {
        OperationOutcome::Success(None) => {}
        _ => panic!("expected a plain success"),
    }
}

#[test]
fn classify_gives_equal_outcomes_for_equal_inputs() {
    let cases = vec![
        (ran(true, "{\"total_size\": 12345}", ""), true),
        (ran(true, "not-json", ""), true),
        (ran(false, "", "repository not found"), true),
        (ran(true, "", ""), false),
    ];
    for (result, expect_json) in cases {
        let again = InvocationResult {
            exit_succeeded: result.exit_succeeded,
            stdout: result.stdout.clone(),
            stderr: result.stderr.clone(),
        };
        let a = classify(result, expect_json);
        let b = classify(again, expect_json);
        match (a, b) {
            (OperationOutcome::Success(x), OperationOutcome::Success(y)) => assert_eq!(x, y),
            (OperationOutcome::Failure(x), OperationOutcome::Failure(y)) => assert_eq!(x, y),
            _ => panic!("outcomes differ"),
        }
    }
}

#[test]
fn launch_errors_name_the_failed_step() {
    let create = finish(&Operation::Stats, Err(LaunchError::CredentialCreate("disk full".to_string())));
    assert_eq!(create.status, 500);
    assert_eq!(error_text(&create), "Failed to create temp file for password: disk full");
    assert_eq!(
        launch_error_message(&LaunchError::CredentialWrite("permission denied".to_string())),
        "Failed to write password to temp file: permission denied"
    );
    let spawn = finish(&delete("x"), Err(LaunchError::Spawn("not found".to_string())));
    assert_eq!(spawn.status, 500);
    assert_eq!(error_text(&spawn), "Failed to execute restic: not found");
}

#[test]
fn repository_config_needs_location_and_secret() {
    assert!(RepositoryConfig::new(String::new(), "pw".to_string()).is_none());
    assert!(RepositoryConfig::new("/repo".to_string(), String::new()).is_none());
    let c = RepositoryConfig::new("/repo".to_string(), "pw".to_string()).unwrap();
    assert_eq!(c.location, "/repo");
    assert_eq!(c.secret, "pw");
}

#[test]
fn config_file_lives_under_home() {
    assert_eq!(config_file_path("/home/ana"), "/home/ana/.config/resticapi/config.toml");
}

#[test]
fn blank_text_follows_unicode_white_space() {
    assert!(is_blank_text(""));
    assert!(is_blank_text(" \t\r\n\u{b}\u{c}\u{85}\u{2028}"));
    assert!(!is_blank_text("  a "));
    assert!(!is_blank_text("\u{200b}"));
    assert!(is_white_space_char('\u{2000}'));
    assert!(!is_white_space_char('x'));
}
