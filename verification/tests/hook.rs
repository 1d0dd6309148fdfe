use human_panic_logger::Metadata;
use human_panic_logger::hook::{HookPolicy, handle_failure};
use human_panic_logger::message::render_user_message;
use human_panic_logger::report::{FailureRecord, SourceLocation, StackFrame, Symbol};

fn meta(name: &str, authors: &str, homepage: &str) -> Metadata {
    Metadata {
        version: "1.2.3".to_string(),
        name: name.to_string(),
        authors: authors.to_string(),
        homepage: homepage.to_string(),
    }
}

fn oops_record() -> FailureRecord {
    FailureRecord {
        message: Some("oops".to_string()),
        location: Some(SourceLocation { file: "main.rs".to_string(), line: 5 }),
    }
}

fn oops_frames() -> Vec<StackFrame> {
    vec![
        StackFrame {
            address: 0x1000,
            symbols: vec![Symbol {
                name: Some("main".to_string()),
                filename: Some("app.src".to_string()),
                lineno: Some(10),
            }],
        },
        StackFrame { address: 0x2000, symbols: vec![] },
    ]
}

#[test]
fn release_failure_logs_one_block_and_messages_user() {
    let policy = HookPolicy { debug_build: false, verbose_env_set: false };
    let m = meta("myapp", "Ada <ada@example.com>", "example.com");
    let outcome = handle_failure(&oops_record(), &oops_frames(), &policy, "crash.log", &m);
    assert!(!outcome.invoke_default);
    let log = outcome.log_record.expect("release failures are logged");
    let expected = format!(
        "Panic! :: Panic occurred in file 'main.rs' at line 5\n\n   oops\n\n   0: 0x0000000000001000 - main\n{:24}at app.src:10\n   1: 0x0000000000002000 - <unresolved>",
        ""
    );
    assert_eq!(log, expected);
    assert_eq!(log.match_indices("Panic! :: ").count(), 1);
    assert_eq!(log.match_indices("oops").count(), 1);
    assert_eq!(log.match_indices("main.rs").count(), 1);
    assert_eq!(log.match_indices("app.src:10").count(), 1);
    assert_eq!(log.match_indices("<unresolved>").count(), 1);
    let msg = outcome.user_message.expect("release failures message the user");
    assert_eq!(msg, render_user_message("crash.log", &m));
}

#[test]
fn debug_failure_logs_and_runs_default_hook_without_user_message() {
    let policy = HookPolicy { debug_build: true, verbose_env_set: false };
    let m = meta("myapp", "", "");
    let outcome = handle_failure(&oops_record(), &oops_frames(), &policy, "crash.log", &m);
    assert!(outcome.invoke_default);
    assert!(outcome.log_record.is_some());
    assert!(outcome.user_message.is_none());
}

#[test]
fn verbose_env_opt_out_skips_log_and_message() {
    for debug_build in [false, true] {
        let policy = HookPolicy { debug_build, verbose_env_set: true };
        let m = meta("myapp", "", "");
        let outcome = handle_failure(&oops_record(), &oops_frames(), &policy, "crash.log", &m);
        assert!(outcome.invoke_default);
        assert!(outcome.log_record.is_none());
        assert!(outcome.user_message.is_none());
    }
}

#[test]
fn user_message_quotes_path_and_omits_empty_authors() {
    let m = meta("myapp", "", "example.com");
    let msg = render_user_message("/var/log/myapp-crash.log", &m);
    assert!(msg.contains("\"/var/log/myapp-crash.log\""));
    assert!(!msg.contains("- Authors:"));
    assert!(msg.contains("- Homepage: example.com\n"));
}

#[test]
fn user_message_full_text_with_all_fields() {
    let m = meta("myapp", "Ada <ada@example.com>", "example.com");
    let msg = render_user_message("crash.log", &m);
    let mut expected = String::new();
    expected.push_str("Well, this is embarrassing.\n\n");
    expected.push_str(
        "myapp had a problem and crashed. To help us diagnose the problem you can send us a crash report.\n\n",
    );
    expected.push_str("There is a log file of the crash at \"crash.log\". Please submit an issue ");
    expected.push_str(
        "or email with the subject of \"myapp Crash Report\" and include the log as an attachment.\n\n",
    );
    expected.push_str("- Homepage: example.com\n");
    expected.push_str("- Authors: Ada <ada@example.com>\n");
    expected.push_str(
        "\nWe take privacy seriously, and do not perform any automated error collection. ",
    );
    expected.push_str("In order to improve the software, we rely on people to submit reports.\n\n");
    expected.push_str("Thank you!\n");
    assert_eq!(msg, expected);
}

#[test]
fn user_message_omits_empty_homepage() {
    let m = meta("tool", "Someone", "");
    let msg = render_user_message("t.log", &m);
    assert!(!msg.contains("- Homepage:"));
    assert!(msg.contains("- Authors: Someone\n"));
}

#[test]
fn capture_returns_renderable_frames() {
    let frames = human_panic_logger::walker::capture(0);
    assert!(!frames.is_empty());
    let out = human_panic_logger::report::format_backtrace(&frames);
    assert!(out.starts_with("\n   0: 0x"));
}
