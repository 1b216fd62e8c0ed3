use ai_agent_core::tools::executor::Action;
use ai_agent_core::tools::executor::Limits;
use ai_agent_core::tools::executor::Stop;
use ai_agent_core::tools::process::ProcessState;
use ai_agent_core::tools::process::Stream;
use ai_agent_core::ErrorKind;
use ai_agent_core::ProcessManager;
use ai_agent_core::ToolExecutor;
use ai_agent_core::Value;

fn executor() -> ToolExecutor {
    let mut executor = ToolExecutor::new();
    executor.register("echo");
    executor.register("sleep");
    executor
}

#[test]
fn echo_hello_runs_to_a_normal_result() {
    let executor = executor();
    let mut manager = ProcessManager::new();
    let args = vec!["hello".to_string()];
    let mut inv = executor.execute_tool(1, "echo", &args, Limits::default(), 0).unwrap();
    assert_eq!(inv.command, "echo");
    assert_eq!(inv.args, args);
    manager.spawn_process(inv.id, 4242).unwrap();
    assert_eq!(manager.wait(1), None);

    assert!(manager.capture(1, Stream::Stdout, b"hello\n".to_vec()));
    assert_eq!(inv.on_output(6), Action::Continue);
    assert_eq!(inv.on_tick(5), Action::Continue);
    assert!(manager.reap(1, 0));
    assert_eq!(manager.wait(1), Some(ProcessState::Exited(0)));

    let stdout = manager.read_output(1, Stream::Stdout);
    assert_eq!(stdout, vec![b"hello\n".to_vec()]);
    // reading again after exhaustion yields nothing, not an error
    assert_eq!(manager.read_output(1, Stream::Stdout), Vec::<Vec<u8>>::new());
    assert_eq!(manager.read_output(1, Stream::Stdout), Vec::<Vec<u8>>::new());

    let result = inv.finish(0, &stdout);
    assert_eq!(result.id, 1);
    assert_eq!(result.outcome, Ok(Value::Text("hello\n".to_string())));
    assert!(manager.release(1));
    assert_eq!(manager.handle_count(), 0);
}

#[test]
fn sleep_beyond_the_timeout_is_killed_reaped_and_times_out() {
    let executor = executor();
    let mut manager = ProcessManager::new();
    let limits = Limits { timeout_ms: 1000, max_output_bytes: 1024 };
    let mut inv = executor.execute_tool(2, "sleep", &vec!["10".to_string()], limits, 500).unwrap();
    manager.spawn_process(2, 77).unwrap();
    assert_eq!(inv.on_tick(1499), Action::Continue);
    assert_eq!(inv.on_tick(1500), Action::Kill);
    assert_eq!(inv.stop, Some(Stop::TimedOut));
    assert_eq!(manager.kill(2), Some(77));
    // later reports give no second order to kill
    assert_eq!(inv.on_tick(9000), Action::Continue);
    assert!(manager.reap(2, -9));
    assert_eq!(manager.wait(2), Some(ProcessState::Killed));
    let stdout = manager.read_output(2, Stream::Stdout);
    let result = inv.finish(-9, &stdout);
    assert_eq!(result.id, 2);
    assert_eq!(result.outcome.unwrap_err().kind, ErrorKind::Timeout);
    assert!(manager.release(2));
    assert!(!manager.has_handle(2));
    assert_eq!(manager.handle_count(), 0);
}

#[test]
fn unknown_tool_is_refused_before_anything_starts() {
    let executor = executor();
    let err = executor.execute_tool(3, "rm", &vec![], Limits::default(), 0).unwrap_err();
    assert_eq!(err.kind, ErrorKind::UnknownTool);
    assert!(!executor.is_registered("rm"));
    assert!(executor.is_registered("echo"));
    assert!(!ToolExecutor::new().is_registered("echo"));
    assert!(!ToolExecutor::default().is_registered(""));
}

#[test]
fn arguments_are_passed_on_verbatim() {
    let executor = executor();
    let args = vec!["; rm -rf /".to_string(), "$(whoami)".to_string(), "".to_string(), "a b".to_string()];
    let inv = executor.execute_tool(4, "echo", &args, Limits::default(), 0).unwrap();
    assert_eq!(inv.args, args);
    assert_eq!(inv.command, "echo");
    assert_eq!(inv.output_bytes, 0);
    assert_eq!(inv.stop, None);
    assert_eq!(inv.started_at, 0);
}

#[test]
fn default_limits_are_thirty_seconds_and_one_mebibyte() {
    let limits = Limits::default();
    assert_eq!(limits.timeout_ms, 30_000);
    assert_eq!(limits.max_output_bytes, 1_048_576);
}

#[test]
fn output_beyond_the_limit_forces_termination() {
    let executor = executor();
    let limits = Limits { timeout_ms: 1000, max_output_bytes: 10 };
    let mut inv = executor.execute_tool(5, "echo", &vec![], limits, 0).unwrap();
    assert_eq!(inv.on_output(10), Action::Continue);
    assert_eq!(inv.output_bytes, 10);
    assert_eq!(inv.on_output(1), Action::Kill);
    assert_eq!(inv.stop, Some(Stop::OutputLimit));
    assert_eq!(inv.on_output(100), Action::Continue);
    // the first reason stays even when the time runs out afterwards
    assert_eq!(inv.on_tick(5000), Action::Continue);
    let result = inv.finish(0, &vec![]);
    assert_eq!(result.outcome.unwrap_err().kind, ErrorKind::OutputLimitExceeded);
}

#[test]
fn output_counter_saturates_and_still_stops() {
    let executor = executor();
    let limits = Limits { timeout_ms: 1000, max_output_bytes: u64::MAX };
    let mut inv = executor.execute_tool(6, "echo", &vec![], limits, 0).unwrap();
    inv.output_bytes = u64::MAX - 1;
    assert_eq!(inv.on_output(1), Action::Continue);
    assert_eq!(inv.output_bytes, u64::MAX);
    assert_eq!(inv.on_output(1), Action::Kill);
    assert_eq!(inv.output_bytes, u64::MAX);
}

#[test]
fn failure_status_becomes_process_failure() {
    let executor = executor();
    let inv = executor.execute_tool(7, "echo", &vec![], Limits::default(), 0).unwrap();
    let result = inv.finish(3, &vec![b"partial".to_vec()]);
    assert_eq!(result.outcome.unwrap_err().kind, ErrorKind::ProcessFailure(3));
}

#[test]
fn cancelled_run_ends_in_cancelled() {
    let executor = executor();
    let mut inv = executor.execute_tool(8, "sleep", &vec![], Limits::default(), 0).unwrap();
    assert_eq!(inv.cancel(), Action::Kill);
    assert_eq!(inv.cancel(), Action::Continue);
    assert_eq!(inv.finish(0, &vec![]).outcome.unwrap_err().kind, ErrorKind::Cancelled);
}

#[test]
fn output_that_is_not_text_is_handed_on_as_bytes() {
    let executor = executor();
    let inv = executor.execute_tool(9, "echo", &vec![], Limits::default(), 0).unwrap();
    let chunks = vec![vec![0xff, 0x00], vec![0x01]];
    assert_eq!(inv.finish(0, &chunks).outcome, Ok(Value::Bytes(vec![0xff, 0x00, 0x01])));
    // text split across chunks is joined before it is read
    let chunks = vec![vec![b'h', 0xc3], vec![0xa9]];
    assert_eq!(inv.finish(0, &chunks).outcome, Ok(Value::Text("hé".to_string())));
    assert_eq!(inv.finish(0, &vec![]).outcome, Ok(Value::Text(String::new())));
}

#[test]
fn a_clock_that_runs_backwards_counts_as_no_time() {
    let executor = executor();
    let limits = Limits { timeout_ms: 10, max_output_bytes: 10 };
    let mut inv = executor.execute_tool(10, "echo", &vec![], limits, 1000).unwrap();
    assert_eq!(inv.on_tick(0), Action::Continue);
    assert_eq!(inv.on_tick(1009), Action::Continue);
    assert_eq!(inv.on_tick(1010), Action::Kill);
}

#[test]
fn supervisor_refuses_a_second_process_under_one_id() {
    let mut manager = ProcessManager::new();
    manager.spawn_process(1, 10).unwrap();
    let err = manager.spawn_process(1, 11).unwrap_err();
    assert_eq!(err.kind, ErrorKind::DuplicateTask);
    assert_eq!(manager.handle_count(), 1);
    assert_eq!(manager.kill(1), Some(10));
}

#[test]
fn a_running_process_cannot_be_released() {
    let mut manager = ProcessManager::default();
    manager.spawn_process(1, 10).unwrap();
    assert!(!manager.release(1));
    assert!(manager.has_handle(1));
    assert!(manager.reap(1, 5));
    assert_eq!(manager.wait(1), Some(ProcessState::Exited(5)));
    // a second report of the exit, or a late kill, changes nothing
    assert!(!manager.reap(1, 6));
    assert_eq!(manager.kill(1), None);
    assert_eq!(manager.wait(1), Some(ProcessState::Exited(5)));
    assert!(manager.release(1));
    assert!(!manager.release(1));
    assert_eq!(manager.wait(1), None);
}

#[test]
fn streams_are_captured_separately_and_in_order() {
    let mut manager = ProcessManager::new();
    manager.spawn_process(1, 10).unwrap();
    assert!(manager.capture(1, Stream::Stdout, vec![1]));
    assert!(manager.capture(1, Stream::Stderr, vec![9]));
    assert!(manager.capture(1, Stream::Stdout, vec![2, 3]));
    assert!(!manager.capture(2, Stream::Stdout, vec![7]));
    assert_eq!(manager.read_output(1, Stream::Stdout), vec![vec![1], vec![2, 3]]);
    assert!(manager.capture(1, Stream::Stdout, vec![4]));
    assert_eq!(manager.read_output(1, Stream::Stdout), vec![vec![4]]);
    assert_eq!(manager.read_output(1, Stream::Stderr), vec![vec![9]]);
    assert_eq!(manager.read_output(1, Stream::Stderr), Vec::<Vec<u8>>::new());
    assert_eq!(manager.read_output(5, Stream::Stdout), Vec::<Vec<u8>>::new());
}

#[test]
fn an_abandoned_process_is_still_reaped_and_then_forgotten() {
    let mut manager = ProcessManager::new();
    manager.spawn_process(1, 10).unwrap();
    manager.abandon(1);
    // it stays on the books while it runs, so the reaper still waits for it
    assert!(manager.has_handle(1));
    assert!(!manager.release(1));
    assert_eq!(manager.kill(1), Some(10));
    assert!(manager.reap(1, -9));
    assert!(!manager.has_handle(1));
    assert_eq!(manager.handle_count(), 0);
    // abandoning after the exit releases the handle at once
    manager.spawn_process(2, 20).unwrap();
    assert!(manager.reap(2, 0));
    assert!(manager.has_handle(2));
    manager.abandon(2);
    assert!(!manager.has_handle(2));
    manager.abandon(3);
    assert_eq!(manager.handle_count(), 0);
}
