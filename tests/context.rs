use std::collections::BTreeSet;

use proctmux::command::{DriverError, Reply, TmuxCommand};
use proctmux::context::{context_queries, create_tmux_context, ContextError, Fatal, TmuxContext};
use proctmux::parse::{output_line, parse_usize};
use proctmux::run::CommandRun;

fn ok(s: &str) -> Reply {
    Ok(s.as_bytes().to_vec())
}

fn failed(msg: &str) -> Reply {
    Err(DriverError { message: msg.to_string() })
}

/// Feeds the replies in order while the run asks for commands; returns the
/// commands that were asked for.
fn drive(run: &mut CommandRun, replies: Vec<Reply>) -> Vec<TmuxCommand> {
    let mut issued = Vec::new();
    let mut replies = replies.into_iter();
    while let Some(cmd) = run.next_command() {
        issued.push(cmd.clone());
        run.record(replies.next().expect("a reply for every command"));
    }
    issued
}

fn context_from(session: Reply, window: Reply, pane: Reply) -> Result<TmuxContext, ContextError> {
    let mut run = context_queries();
    drive(&mut run, vec![session, window, pane]);
    create_tmux_context("holding".to_string(), run)
}

fn context(session: &str, window: &str, pane: &str) -> TmuxContext {
    context_from(ok(session), ok(window), ok(pane)).expect("a context")
}

#[test]
fn construction_reads_main_2_0() {
    let ctx = context("main\n", "2\n", "0\n");
    assert_eq!(ctx.session(), "main");
    assert_eq!(ctx.window(), 2);
    assert_eq!(ctx.pane(), 0);
    assert_eq!(ctx.detached_session(), "holding");
}

#[test]
fn construction_keeps_values_unmodified() {
    let ctx = context("work space\n", "17\n", "305\n");
    assert_eq!(ctx.session(), "work space");
    assert_eq!(ctx.window(), 17);
    assert_eq!(ctx.pane(), 305);
}

#[test]
fn construction_queries_in_order() {
    let mut run = context_queries();
    let issued = drive(&mut run, vec![ok("s\n"), ok("1\n"), ok("1\n")]);
    assert_eq!(
        issued,
        vec![TmuxCommand::CurrentSession, TmuxCommand::CurrentWindow, TmuxCommand::CurrentPane]
    );
}

#[test]
fn construction_non_numeric_window_is_fatal() {
    let r = context_from(ok("main\n"), ok("x\n"), ok("0\n"));
    assert!(matches!(r, Err(ContextError::Fatal(Fatal::WindowNotNumber))));
}

#[test]
fn construction_non_numeric_pane_is_fatal() {
    let r = context_from(ok("main\n"), ok("2\n"), ok("-1\n"));
    assert!(matches!(r, Err(ContextError::Fatal(Fatal::PaneNotNumber))));
}

#[test]
fn construction_invalid_text_is_fatal() {
    let r = context_from(Ok(vec![0xff, b'\n']), ok("2\n"), ok("0\n"));
    assert!(matches!(r, Err(ContextError::Fatal(Fatal::SessionNotText))));
    let r = context_from(ok("main\n"), Ok(vec![0xc3]), ok("0\n"));
    assert!(matches!(r, Err(ContextError::Fatal(Fatal::WindowNotText))));
    let r = context_from(ok("main\n"), ok("2\n"), Ok(vec![0x80]));
    assert!(matches!(r, Err(ContextError::Fatal(Fatal::PaneNotText))));
}

#[test]
fn construction_rejects_holding_session_name() {
    let r = context_from(ok("holding\n"), ok("2\n"), ok("0\n"));
    assert!(matches!(r, Err(ContextError::Fatal(Fatal::SameSession))));
}

#[test]
fn construction_stops_at_failed_query() {
    let mut run = context_queries();
    let issued = drive(&mut run, vec![ok("main\n"), failed("no server")]);
    assert_eq!(issued.len(), 2);
    let r = create_tmux_context("holding".to_string(), run);
    assert_eq!(
        r.err(),
        Some(ContextError::Io(DriverError { message: "no server".to_string() }))
    );
}

#[test]
fn create_pane_reads_index() {
    let ctx = context("main\n", "2\n", "0\n");
    let mut run = ctx.create_pane_request("top");
    let issued = drive(&mut run, vec![ok("7\n")]);
    assert_eq!(
        issued,
        vec![TmuxCommand::CreatePane {
            session: "main".to_string(),
            window: 2,
            pane: 0,
            command: "top".to_string(),
        }]
    );
    assert_eq!(ctx.create_pane("top", run), Ok(7));
}

#[test]
fn create_pane_non_numeric_is_error() {
    let ctx = context("main\n", "2\n", "0\n");
    let mut run = ctx.create_pane_request("top");
    drive(&mut run, vec![ok("abc\n")]);
    assert_eq!(ctx.create_pane("top", run), Err(ContextError::PaneOutputNotNumber));
}

#[test]
fn create_pane_extra_lines_are_error() {
    let ctx = context("main\n", "2\n", "0\n");
    for out in ["7\n\n", "1\n2\n", "\n"] {
        let mut run = ctx.create_pane_request("top");
        drive(&mut run, vec![ok(out)]);
        assert_eq!(ctx.create_pane("top", run), Err(ContextError::PaneOutputNotNumber));
    }
}

#[test]
fn construction_keeps_interior_line_feed() {
    let ctx = context("a\nb\n", "2\n", "0\n");
    assert_eq!(ctx.session(), "a\nb");
}

#[test]
fn create_pane_invalid_text_is_error() {
    let ctx = context("main\n", "2\n", "0\n");
    let mut run = ctx.create_pane_request("top");
    drive(&mut run, vec![Ok(vec![b'7', 0xfe])]);
    assert_eq!(ctx.create_pane("top", run), Err(ContextError::PaneOutputNotText));
}

#[test]
fn create_pane_failure_is_passed_on() {
    let ctx = context("main\n", "2\n", "0\n");
    let mut run = ctx.create_pane_request("top");
    drive(&mut run, vec![failed("broken pipe")]);
    assert_eq!(
        ctx.create_pane("top", run),
        Err(ContextError::Io(DriverError { message: "broken pipe".to_string() }))
    );
}

#[test]
fn join_pane_returns_anchor_plus_one() {
    let ctx = context("main\n", "1\n", "3\n");
    for target in [0usize, 5, 99] {
        let mut run = ctx.join_pane_request(target);
        let issued = drive(&mut run, vec![ok("")]);
        assert_eq!(
            issued,
            vec![TmuxCommand::JoinPane {
                src_session: "holding".to_string(),
                src_window: target,
                dest_session: "main".to_string(),
                dest_window: 1,
                dest_pane: 3,
            }]
        );
        assert_eq!(ctx.join_pane(target, run), Ok(4));
    }
}

#[test]
fn join_pane_failure_is_passed_on() {
    let ctx = context("main\n", "1\n", "3\n");
    let mut run = ctx.join_pane_request(2);
    drive(&mut run, vec![failed("gone")]);
    assert!(matches!(ctx.join_pane(2, run), Err(ContextError::Io(_))));
}

#[test]
fn break_pane_issues_break_then_remain_on_exit() {
    let ctx = context("main\n", "1\n", "0\n");
    let mut run = ctx.break_pane(4, 6, "server");
    let issued = drive(&mut run, vec![ok(""), ok("")]);
    assert_eq!(
        issued,
        vec![
            TmuxCommand::BreakPane {
                session: "main".to_string(),
                window: 1,
                source_pane: 4,
                dest_session: "holding".to_string(),
                dest_window: 6,
                label: "server".to_string(),
            },
            TmuxCommand::SetRemainOnExit { session: "holding".to_string(), window: 6, enabled: true },
        ]
    );
    assert!(run.is_finished());
    assert!(run.outcome().is_ok());
}

#[test]
fn break_pane_stops_when_break_fails() {
    let ctx = context("main\n", "1\n", "0\n");
    let mut run = ctx.break_pane(4, 6, "server");
    let issued = drive(&mut run, vec![failed("no pane"), ok("")]);
    assert_eq!(issued.len(), 1);
    assert!(matches!(issued[0], TmuxCommand::BreakPane { .. }));
    assert!(run.next_command().is_none());
    assert!(run.outcome().is_err());
}

/// Applies the commands that change which sessions exist.
fn apply_sessions(sessions: &mut BTreeSet<String>, issued: &[TmuxCommand]) {
    for cmd in issued {
        match cmd {
            TmuxCommand::StartDetachedSession { name } => {
                sessions.insert(name.clone());
            }
            TmuxCommand::KillSession { name } => {
                sessions.remove(name);
            }
            _ => {}
        }
    }
}

#[test]
fn prepare_then_cleanup_leaves_no_holding_session() {
    let ctx = context("main\n", "1\n", "0\n");
    let mut sessions: BTreeSet<String> = ["main".to_string()].into_iter().collect();
    let mut run = ctx.prepare();
    let prepared = drive(&mut run, vec![ok(""), ok("")]);
    assert_eq!(
        prepared,
        vec![
            TmuxCommand::StartDetachedSession { name: "holding".to_string() },
            TmuxCommand::SetRemainOnExit { session: "main".to_string(), window: 1, enabled: true },
        ]
    );
    apply_sessions(&mut sessions, &prepared);
    assert!(sessions.contains("holding"));
    let mut run = ctx.cleanup();
    let cleaned = drive(&mut run, vec![ok(""), ok("")]);
    assert_eq!(
        cleaned,
        vec![
            TmuxCommand::KillSession { name: "holding".to_string() },
            TmuxCommand::SetRemainOnExit { session: "main".to_string(), window: 1, enabled: false },
        ]
    );
    apply_sessions(&mut sessions, &cleaned);
    assert!(!sessions.contains("holding"));
    assert!(sessions.contains("main"));
}

#[test]
fn prepare_stops_when_session_cannot_start() {
    let ctx = context("main\n", "1\n", "0\n");
    let mut run = ctx.prepare();
    let issued = drive(&mut run, vec![failed("duplicate session"), ok("")]);
    assert_eq!(issued.len(), 1);
    assert!(run.outcome().is_err());
}

#[test]
fn parse_usize_cases() {
    assert_eq!(parse_usize("0"), Some(0));
    assert_eq!(parse_usize("42"), Some(42));
    assert_eq!(parse_usize("+5"), Some(5));
    assert_eq!(parse_usize("007"), Some(7));
    assert_eq!(parse_usize(""), None);
    assert_eq!(parse_usize("+"), None);
    assert_eq!(parse_usize("-0"), None);
    assert_eq!(parse_usize("1 2"), None);
    assert_eq!(parse_usize("١"), None);
    assert_eq!(parse_usize(&usize::MAX.to_string()), Some(usize::MAX));
    assert_eq!(parse_usize("99999999999999999999999"), None);
}

#[test]
fn parse_usize_agrees_with_std() {
    for s in ["0", "9", "+12", "-3", "", "+", "++1", "12a", "18446744073709551615", "18446744073709551616"] {
        assert_eq!(parse_usize(s), s.parse::<usize>().ok(), "input {:?}", s);
    }
}

#[test]
fn output_line_drops_trailing_line_feed() {
    assert_eq!(output_line(b"a\nb\n".to_vec()), Some("a\nb".to_string()));
    assert_eq!(output_line(b"ab".to_vec()), Some("ab".to_string()));
    assert_eq!(output_line(b"ab\n\n".to_vec()), Some("ab\n".to_string()));
    assert_eq!(output_line("caf\u{e9}\n".as_bytes().to_vec()), Some("caf\u{e9}".to_string()));
    assert_eq!(output_line(b"\n".to_vec()), Some(String::new()));
    assert_eq!(output_line(vec![0xe9, b'\n']), None);
}
