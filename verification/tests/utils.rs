use cargo_wasix::error::{Error, ErrorKind, ExitStatus, ProcessError};
use cargo_wasix::utils::{
    check_success, copy_path, exit_code, get_http_proxy, hide_normal_process_exit,
    needs_report, normal_process_exit_code, proxy_variables, CopyAction, FileKind,
};

fn status(code: Option<i32>) -> ExitStatus {
    let text = match code {
        Some(c) => format!("exit status: {}", c),
        None => "signal: 9 (SIGKILL)".to_string(),
    };
    ExitStatus { code, text }
}

fn failure(code: Option<i32>, stdout: &[u8], stderr: &[u8]) -> Error {
    check_success("\"cargo\" \"build\"", &status(code), stdout, stderr).unwrap_err()
}

fn process(e: &Error) -> &ProcessError {
    match &e.kind {
        ErrorKind::Process(p) => p,
        other => panic!("not a process failure: {:?}", other),
    }
}

#[test]
fn success_is_exit_code_zero() {
    assert!(status(Some(0)).success());
    assert!(!status(Some(1)).success());
    assert!(!status(None).success());
    assert_eq!(check_success("x", &status(Some(0)), b"out", b"err"), Ok(()));
}

#[test]
fn a_failed_process_carries_what_it_wrote() {
    let e = failure(Some(3), b"out", b"err");
    let p = process(&e);
    assert_eq!(p.status, status(Some(3)));
    assert!(!p.hidden);
    assert_eq!(p.stdout, b"out");
    assert_eq!(p.stderr, b"err");
    assert_eq!(p.cmd_desc, "\"cargo\" \"build\"");
    assert!(e.context.is_empty());
}

#[test]
fn a_normal_exit_is_hidden() {
    let e = hide_normal_process_exit(failure(Some(101), b"", b""), false);
    assert!(process(&e).hidden);
    assert_eq!(normal_process_exit_code(&e), Some(101));
    assert_eq!(exit_code(&Err(e.clone())), 101);
    assert!(!needs_report(&e));
}

#[test]
fn the_bounds_of_a_normal_exit_are_0_and_127() {
    for (code, hidden) in [(0, true), (1, true), (127, true), (128, false), (-1, false), (255, false)] {
        // Exit code 0 with a failure cannot come from `check_success`.
        let e = Error::process(ProcessError {
            status: status(Some(code)),
            hidden: false,
            stdout: vec![],
            stderr: vec![],
            cmd_desc: "x".to_string(),
        });
        let e = hide_normal_process_exit(e, false);
        assert_eq!(process(&e).hidden, hidden, "code {}", code);
        assert_eq!(normal_process_exit_code(&e), if hidden { Some(code) } else { None });
    }
}

#[test]
fn output_or_verbosity_or_a_signal_keep_the_failure_visible() {
    for e in [
        hide_normal_process_exit(failure(Some(1), b"x", b""), false),
        hide_normal_process_exit(failure(Some(1), b"", b"x"), false),
        hide_normal_process_exit(failure(Some(1), b"", b""), true),
        hide_normal_process_exit(failure(None, b"", b""), false),
    ] {
        assert!(!process(&e).hidden);
        assert_eq!(normal_process_exit_code(&e), None);
        assert_eq!(exit_code(&Err(e.clone())), 1);
        assert!(needs_report(&e));
    }
}

#[test]
fn other_failures_are_left_alone() {
    let e = Error::configuration("nope".to_string()).context("while testing");
    let again = hide_normal_process_exit(e.clone(), false);
    assert_eq!(again, e);
    assert_eq!(normal_process_exit_code(&e), None);
    assert_eq!(exit_code(&Err(e)), 1);
    assert_eq!(exit_code(&Ok(())), 0);
}

#[test]
fn the_message_of_a_failed_process() {
    let e = failure(Some(1), b"", b"");
    assert_eq!(
        process(&e).message(),
        "failed to execute \"cargo\" \"build\"\n    status: exit status: 1"
    );
    let e = failure(Some(1), b"a\nb", b"c\xff\n");
    assert_eq!(
        process(&e).message(),
        "failed to execute \"cargo\" \"build\"\n    status: exit status: 1\n    stdout:\n        a\n        b\n    stderr:\n        c\u{fffd}\n        "
    );
    assert_eq!(e.message_text(), process(&e).message());
}

#[test]
fn the_report_puts_the_outermost_context_first() {
    let e = Error::validation("root".to_string()).context("inner").context("outer");
    assert_eq!(e.context, vec!["inner".to_string(), "outer".to_string()]);
    assert_eq!(e.message_text(), "root");
    assert_eq!(e.report(), "outer: inner: root");
    assert_eq!(Error::network("plain".to_string()).report(), "plain");
}

#[test]
fn the_first_proxy_variable_that_is_set_wins() {
    assert_eq!(proxy_variables(), vec!["http_proxy", "HTTP_PROXY", "https_proxy", "HTTPS_PROXY"]);
    assert_eq!(get_http_proxy(&vec![None, None, None, None]), None);
    assert_eq!(
        get_http_proxy(&vec![None, Some("b".to_string()), None, Some("d".to_string())]),
        Some("b".to_string())
    );
    assert_eq!(get_http_proxy(&vec![Some("a".to_string())]), Some("a".to_string()));
    assert_eq!(get_http_proxy(&vec![]), None);
}

#[test]
fn what_is_copied() {
    assert_eq!(copy_path("a", "b", FileKind::File, false, false), Ok(CopyAction::CopyFile));
    assert_eq!(copy_path("a", "b", FileKind::File, true, true), Ok(CopyAction::Skip));
    assert_eq!(copy_path("a", "b", FileKind::Dir, true, false), Ok(CopyAction::Descend));
    let e = copy_path("a", "b", FileKind::File, true, false).unwrap_err();
    assert_eq!(e.message, "Could not copy from 'a' to 'b': destination already exists");
    let e = copy_path("a", "b", FileKind::Other, false, false).unwrap_err();
    assert_eq!(e.message, "Could not copy from 'a' to 'b': unknown file type");
}
