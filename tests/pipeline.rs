use exec_rs::{Action, Context, Event, ExecError, ExitReport, Phase, Pipeline, Stage};

fn expect_spawn(action: Action) -> (String, Vec<String>, bool) {
    match action {
        Action::Spawn { invocation, stdin_from_previous, .. } => {
            (invocation.program, invocation.args, stdin_from_previous)
        }
        Action::Wait => panic!("expected a spawn, got a wait"),
        Action::Finish(r) => panic!("expected a spawn, got the result {:?}", r),
    }
}

fn expect_finish(action: Action) -> Result<String, ExecError> {
    match action {
        Action::Finish(r) => r,
        Action::Wait => panic!("expected the result, got a wait"),
        Action::Spawn { invocation, .. } => panic!("expected the result, got a spawn of {}", invocation.program),
    }
}

fn strings(v: &[&str]) -> Vec<String> {
    v.iter().map(|s| s.to_string()).collect()
}

fn exited(code: Option<i32>, stdout: &[u8], stderr: &[u8]) -> Event {
    Event::Exited(ExitReport { code, stdout: stdout.to_vec(), stderr: stderr.to_vec() })
}

fn spawn_error() -> std::io::Error {
    std::io::Error::new(std::io::ErrorKind::NotFound, "no such program")
}

#[test]
fn empty_pipeline_is_chaining_error() {
    let stages: Vec<Stage> = vec![];
    let mut p = Pipeline::new(&stages);
    let r = expect_finish(p.step(Event::Start));
    assert!(matches!(r, Err(ExecError::Chaining)));
    assert!(matches!(p.current_phase(), Phase::Finished));
}

#[test]
fn cat_piped_into_grep_returns_matching_line() {
    let cat_args = ["file.txt"];
    let grep_args = ["needle"];
    let stages: Vec<Stage> = vec![("cat", &cat_args, None), ("grep", &grep_args, None)];
    let mut p = Pipeline::new(&stages);

    let (prog, args, from_prev) = expect_spawn(p.step(Event::Start));
    assert_eq!(prog, "cat");
    assert_eq!(args, strings(&["file.txt"]));
    assert!(!from_prev);

    let (prog, args, from_prev) = expect_spawn(p.step(Event::Spawned { stdout_piped: true }));
    assert_eq!(prog, "grep");
    assert_eq!(args, strings(&["needle"]));
    assert!(from_prev);

    assert!(matches!(p.step(Event::Spawned { stdout_piped: true }), Action::Wait));
    let r = expect_finish(p.step(exited(Some(0), b"a needle here\n", b"")));
    assert_eq!(r.unwrap(), "a needle here\n");
}

#[test]
fn single_stage_exit_two_with_empty_stderr() {
    let stages: Vec<Stage> = vec![("false-equivalent-command-returning-2", &[], None)];
    let mut p = Pipeline::new(&stages);
    let (prog, args, from_prev) = expect_spawn(p.step(Event::Start));
    assert_eq!(prog, "false-equivalent-command-returning-2");
    assert!(args.is_empty());
    assert!(!from_prev);
    assert!(matches!(p.step(Event::Spawned { stdout_piped: true }), Action::Wait));
    let r = expect_finish(p.step(exited(Some(2), b"", b"")));
    match r {
        Err(ExecError::TerminationWithError(code, msg)) => {
            assert_eq!(code, 2);
            assert_eq!(msg, "");
        }
        other => panic!("unexpected result: {:?}", other),
    }
}

#[test]
fn single_stage_exit_two_with_undecodable_stderr() {
    let stages: Vec<Stage> = vec![("false-equivalent-command-returning-2", &[], None)];
    let mut p = Pipeline::new(&stages);
    expect_spawn(p.step(Event::Start));
    assert!(matches!(p.step(Event::Spawned { stdout_piped: true }), Action::Wait));
    let r = expect_finish(p.step(exited(Some(2), b"", &[0xff, 0xfe])));
    assert!(matches!(r, Err(ExecError::TerminationWithErrorCode(2))));
}

#[test]
fn mixed_contexts_resolve_per_stage() {
    let alice = Context::Local { user: "alice".to_string() };
    let cat_args = ["Cargo.toml"];
    let grep_args = ["name"];
    let stages: Vec<Stage> =
        vec![("cat", &cat_args, Some(&alice)), ("grep", &grep_args, None)];
    let mut p = Pipeline::new(&stages);

    let (prog, args, from_prev) = expect_spawn(p.step(Event::Start));
    assert_eq!(prog, "sudo");
    assert_eq!(args, strings(&["-nu", "alice", "--", "cat", "Cargo.toml"]));
    assert!(!from_prev);

    let (prog, args, from_prev) = expect_spawn(p.step(Event::Spawned { stdout_piped: true }));
    assert_eq!(prog, "grep");
    assert_eq!(args, strings(&["name"]));
    assert!(from_prev);

    assert!(matches!(p.step(Event::Spawned { stdout_piped: true }), Action::Wait));
    let r = expect_finish(p.step(exited(Some(0), b"name = \"exec-rs\"\n", b"")));
    assert_eq!(r.unwrap(), "name = \"exec-rs\"\n");
}

#[test]
fn remote_stage_between_local_stages() {
    let remote = Context::Remote { host: "db1".to_string(), config: Some("cfg".to_string()) };
    let a: [&str; 0] = [];
    let b = ["-c"];
    let c = ["2"];
    let stages: Vec<Stage> =
        vec![("dmesg", &a, None), ("wc", &b, Some(&remote)), ("head", &c, None)];
    let mut p = Pipeline::new(&stages);
    let (prog, _, from_prev) = expect_spawn(p.step(Event::Start));
    assert_eq!(prog, "dmesg");
    assert!(!from_prev);
    let (prog, args, from_prev) = expect_spawn(p.step(Event::Spawned { stdout_piped: true }));
    assert_eq!(prog, "ssh");
    assert_eq!(args, strings(&["-F", "cfg", "db1", "wc", "-c"]));
    assert!(from_prev);
    let (prog, args, from_prev) = expect_spawn(p.step(Event::Spawned { stdout_piped: true }));
    assert_eq!(prog, "head");
    assert_eq!(args, strings(&["2"]));
    assert!(from_prev);
    assert!(matches!(p.step(Event::Spawned { stdout_piped: true }), Action::Wait));
    assert!(matches!(p.current_phase(), Phase::Waiting));
    let r = expect_finish(p.step(exited(Some(0), b"42\n", b"")));
    assert_eq!(r.unwrap(), "42\n");
}

#[test]
fn spawn_failure_of_first_stage_stops_pipeline() {
    let stages: Vec<Stage> = vec![("nope", &[], None), ("cat", &[], None)];
    let mut p = Pipeline::new(&stages);
    expect_spawn(p.step(Event::Start));
    let r = expect_finish(p.step(Event::SpawnFailed(spawn_error())));
    match r {
        Err(ExecError::Io(e)) => assert_eq!(e.kind(), std::io::ErrorKind::NotFound),
        other => panic!("unexpected result: {:?}", other),
    }
    let again = expect_finish(p.step(Event::Spawned { stdout_piped: true }));
    assert!(matches!(again, Err(ExecError::Chaining)));
}

#[test]
fn only_last_stage_captures_stderr() {
    let stages: Vec<Stage> = vec![("a", &[], None), ("b", &[], None), ("c", &[], None)];
    let mut p = Pipeline::new(&stages);
    let mut event = Event::Start;
    let mut captured = vec![];
    for _ in 0..3 {
        match p.step(event) {
            Action::Spawn { capture_stderr, .. } => captured.push(capture_stderr),
            _ => panic!("expected a spawn"),
        }
        event = Event::Spawned { stdout_piped: true };
    }
    assert_eq!(captured, vec![false, false, true]);
    assert!(matches!(p.step(event), Action::Wait));
}

#[test]
fn missing_output_pipe_is_chaining_error() {
    let stages: Vec<Stage> = vec![("ls", &[], None), ("cat", &[], None)];
    let mut p = Pipeline::new(&stages);
    expect_spawn(p.step(Event::Start));
    let r = expect_finish(p.step(Event::Spawned { stdout_piped: false }));
    assert!(matches!(r, Err(ExecError::Chaining)));
}

#[test]
fn wait_failure_is_io_error() {
    let stages: Vec<Stage> = vec![("ls", &[], None)];
    let mut p = Pipeline::new(&stages);
    expect_spawn(p.step(Event::Start));
    assert!(matches!(p.step(Event::Spawned { stdout_piped: true }), Action::Wait));
    let r = expect_finish(p.step(Event::WaitFailed(std::io::Error::new(
        std::io::ErrorKind::Interrupted,
        "interrupted",
    ))));
    assert!(matches!(r, Err(ExecError::Io(_))));
}

#[test]
fn event_out_of_order_is_chaining_error() {
    let stages: Vec<Stage> = vec![("ls", &[], None)];
    let mut p = Pipeline::new(&stages);
    let r = expect_finish(p.step(exited(Some(0), b"", b"")));
    assert!(matches!(r, Err(ExecError::Chaining)));
}

#[test]
fn signal_on_last_stage() {
    let stages: Vec<Stage> = vec![("sleep", &[], None)];
    let mut p = Pipeline::new(&stages);
    expect_spawn(p.step(Event::Start));
    p.step(Event::Spawned { stdout_piped: true });
    let r = expect_finish(p.step(exited(None, b"", b"")));
    assert!(matches!(r, Err(ExecError::TerminationBySignal)));
}
