use ai_agent_core::agent_core::TaskEvent;
use ai_agent_core::tools::executor::Limits;
use ai_agent_core::tools::process::Stream;
use ai_agent_core::AgentCore;
use ai_agent_core::AsyncBridge;
use ai_agent_core::ProcessManager;
use ai_agent_core::Step;
use ai_agent_core::ToolExecutor;
use ai_agent_core::Dispatch;
use ai_agent_core::ErrorKind;
use ai_agent_core::ErrorRecord;
use ai_agent_core::Target;
use ai_agent_core::TaskDescriptor;
use ai_agent_core::Value;

fn tool_task(id: u64, name: &str) -> TaskDescriptor {
    TaskDescriptor {
        id,
        payload: Value::Null,
        target: Target::LocalTool { name: name.to_string(), args: vec!["a".to_string(), "b".to_string()] },
        deadline: None,
    }
}

fn call_task(id: u64, routine: &str) -> TaskDescriptor {
    TaskDescriptor {
        id,
        payload: Value::Int(1),
        target: Target::DelegatedCall { routine: routine.to_string(), args: vec!["x".to_string()] },
        deadline: Some(99),
    }
}

fn rejection_kind(dispatch: Dispatch, id: u64) -> ErrorKind {
    match dispatch {
        Dispatch::Rejected(result) => {
            assert_eq!(result.id, id);
            result.outcome.unwrap_err().kind
        }
        other => panic!("expected a rejection, got {:?}", other),
    }
}

#[test]
fn admitted_tasks_are_routed_by_their_target() {
    let mut core = AgentCore::new();
    assert_eq!(
        core.submit(&tool_task(1, "echo")),
        Dispatch::RunTool { id: 1, name: "echo".to_string(), args: vec!["a".to_string(), "b".to_string()] }
    );
    assert_eq!(
        core.submit(&call_task(2, "infer")),
        Dispatch::Delegate { id: 2, routine: "infer".to_string(), args: vec!["x".to_string()], deadline: Some(99) }
    );
    assert!(core.is_in_flight(1));
    assert!(core.is_in_flight(2));
    assert!(!core.is_in_flight(3));
}

#[test]
fn malformed_descriptor_is_an_invalid_request() {
    let mut core = AgentCore::new();
    assert_eq!(rejection_kind(core.submit(&tool_task(1, "")), 1), ErrorKind::InvalidRequest);
    assert_eq!(rejection_kind(core.submit(&call_task(2, "")), 2), ErrorKind::InvalidRequest);
    assert!(!core.is_in_flight(1));
    assert!(core.take_events().is_empty());
    // malformed is judged before duplicate
    core.submit(&tool_task(3, "echo"));
    assert_eq!(rejection_kind(core.submit(&tool_task(3, "")), 3), ErrorKind::InvalidRequest);
}

#[test]
fn same_id_is_admitted_once() {
    let mut core = AgentCore::new();
    let first = core.submit(&tool_task(5, "echo"));
    let second = core.submit(&call_task(5, "infer"));
    assert!(!matches!(first, Dispatch::Rejected(_)));
    assert_eq!(rejection_kind(second, 5), ErrorKind::DuplicateTask);
    // the refused submission left no trace: one start, and one result later
    assert_eq!(core.take_events(), vec![TaskEvent::Started(5)]);
    let result = core.finish(5, Ok(Value::Int(9))).unwrap();
    assert_eq!(result.id, 5);
    assert_eq!(result.outcome, Ok(Value::Int(9)));
    assert!(core.finish(5, Ok(Value::Int(10))).is_none());
    // once the task has ended its id is free again
    assert!(!matches!(core.submit(&call_task(5, "infer")), Dispatch::Rejected(_)));
}

#[test]
fn result_bears_the_id_of_its_descriptor() {
    let mut core = AgentCore::new();
    for id in [0u64, 1, 77, u64::MAX] {
        match core.submit(&tool_task(id, "echo")) {
            Dispatch::RunTool { id: got, .. } => assert_eq!(got, id),
            other => panic!("unexpected {:?}", other),
        }
        let err = ErrorRecord::new(ErrorKind::ProcessFailure(1), "failed");
        let result = core.finish(id, Err(err.clone())).unwrap();
        assert_eq!(result.id, id);
        assert_eq!(result.outcome, Err(err));
    }
}

#[test]
fn start_and_end_are_reported_once_each_and_in_order() {
    let mut core = AgentCore::default();
    core.submit(&tool_task(1, "echo"));
    core.submit(&tool_task(2, "echo"));
    core.finish(2, Ok(Value::Null));
    core.finish(3, Ok(Value::Null));
    core.finish(1, Ok(Value::Null));
    assert_eq!(
        core.take_events(),
        vec![TaskEvent::Started(1), TaskEvent::Started(2), TaskEvent::Ended(2), TaskEvent::Ended(1)]
    );
    assert!(core.take_events().is_empty());
}

#[test]
fn plain_request_is_a_delegated_call() {
    let mut core = AgentCore::new();
    assert_eq!(
        core.execute_task(4, "summarise this", "auto"),
        Dispatch::Delegate {
            id: 4,
            routine: "auto".to_string(),
            args: vec!["summarise this".to_string()],
            deadline: None
        }
    );
    assert_eq!(rejection_kind(core.execute_task(4, "again", "auto"), 4), ErrorKind::DuplicateTask);
    assert_eq!(rejection_kind(core.execute_task(6, "task", ""), 6), ErrorKind::InvalidRequest);
}

fn limits() -> Limits {
    Limits { timeout_ms: 1000, max_output_bytes: 100 }
}

#[test]
fn dispatch_launches_an_allowed_tool_and_concludes_it() {
    let mut core = AgentCore::new();
    let mut bridge = AsyncBridge::new();
    let mut supervisor = ProcessManager::new();
    let mut executor = ToolExecutor::new();
    executor.register("echo");
    let invocation = match core.dispatch(&executor, &mut bridge, &tool_task(1, "echo"), limits(), 10) {
        Step::Launch(invocation) => invocation,
        other => panic!("unexpected {:?}", other),
    };
    assert_eq!(invocation.id, 1);
    assert_eq!(invocation.command, "echo");
    assert_eq!(invocation.args, vec!["a".to_string(), "b".to_string()]);
    assert_eq!(invocation.started_at, 10);
    assert_eq!(invocation.limits, limits());
    assert!(core.is_in_flight(1));
    assert_eq!(bridge.in_flight(), 0);

    supervisor.spawn_process(1, 500).unwrap();
    supervisor.capture(1, Stream::Stdout, b"a ".to_vec());
    supervisor.capture(1, Stream::Stderr, b"noise".to_vec());
    supervisor.capture(1, Stream::Stdout, b"b\n".to_vec());
    let result = core.conclude_tool(&mut supervisor, &invocation, 0).unwrap();
    assert_eq!(result.id, 1);
    assert_eq!(result.outcome, Ok(Value::Text("a b\n".to_string())));
    assert!(!core.is_in_flight(1));
    assert_eq!(supervisor.handle_count(), 0);
    assert_eq!(core.take_events(), vec![TaskEvent::Started(1), TaskEvent::Ended(1)]);
    // a task is concluded once
    assert!(core.conclude_tool(&mut supervisor, &invocation, 0).is_none());
}

#[test]
fn dispatch_refuses_an_unknown_tool_at_once() {
    let mut core = AgentCore::new();
    let mut bridge = AsyncBridge::new();
    let executor = ToolExecutor::new();
    match core.dispatch(&executor, &mut bridge, &tool_task(2, "rm"), limits(), 0) {
        Step::Done(result) => {
            assert_eq!(result.id, 2);
            assert_eq!(result.outcome.unwrap_err().kind, ErrorKind::UnknownTool);
        }
        other => panic!("unexpected {:?}", other),
    }
    assert!(!core.is_in_flight(2));
    assert_eq!(core.take_events(), vec![TaskEvent::Started(2), TaskEvent::Ended(2)]);
}

#[test]
fn dispatch_opens_a_ticket_for_a_delegated_call() {
    let mut core = AgentCore::new();
    let mut bridge = AsyncBridge::new();
    let executor = ToolExecutor::new();
    let step = core.dispatch(&executor, &mut bridge, &call_task(3, "infer"), limits(), 0);
    assert_eq!(
        step,
        Step::Call { id: 3, routine: "infer".to_string(), args: vec!["x".to_string()], deadline: Some(99) }
    );
    assert!(bridge.has_ticket(3));
    assert!(core.conclude_call(&mut bridge, 3).is_none());
    assert!(core.is_in_flight(3));
    assert!(bridge.has_ticket(3));
    assert!(bridge.complete(3, Ok(Value::Int(8))));
    let result = core.conclude_call(&mut bridge, 3).unwrap();
    assert_eq!(result.id, 3);
    assert_eq!(result.outcome, Ok(Value::Int(8)));
    assert!(!bridge.has_ticket(3));
    assert!(!core.is_in_flight(3));
}

#[test]
fn dispatch_passes_refusals_through() {
    let mut core = AgentCore::new();
    let mut bridge = AsyncBridge::new();
    let executor = ToolExecutor::new();
    core.dispatch(&executor, &mut bridge, &call_task(4, "infer"), limits(), 0);
    match core.dispatch(&executor, &mut bridge, &call_task(4, "infer"), limits(), 0) {
        Step::Done(result) => assert_eq!(result.outcome.unwrap_err().kind, ErrorKind::DuplicateTask),
        other => panic!("unexpected {:?}", other),
    }
    // the first task is untouched by the refusal of the second
    assert!(core.is_in_flight(4));
    assert!(bridge.has_ticket(4));
    match core.dispatch(&executor, &mut bridge, &call_task(5, ""), limits(), 0) {
        Step::Done(result) => assert_eq!(result.outcome.unwrap_err().kind, ErrorKind::InvalidRequest),
        other => panic!("unexpected {:?}", other),
    }
}

#[test]
fn a_timed_out_call_is_concluded_with_timeout() {
    let mut core = AgentCore::new();
    let mut bridge = AsyncBridge::new();
    let executor = ToolExecutor::new();
    core.dispatch(&executor, &mut bridge, &call_task(6, "infer"), limits(), 0);
    assert!(bridge.expire(6, 99));
    let result = core.conclude_call(&mut bridge, 6).unwrap();
    assert_eq!(result.id, 6);
    assert_eq!(result.outcome.unwrap_err().kind, ErrorKind::Timeout);
}

#[test]
fn request_descriptor_is_a_delegated_call_without_deadline() {
    let d = AgentCore::request(9, "do it", "gpt-2");
    assert_eq!(d.id, 9);
    assert_eq!(d.payload, Value::Text("do it".to_string()));
    assert_eq!(d.target, Target::DelegatedCall { routine: "gpt-2".to_string(), args: vec!["do it".to_string()] });
    assert_eq!(d.deadline, None);
}
