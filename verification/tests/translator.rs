use ai_agent_core::ErrorHandler;
use ai_agent_core::ErrorKind;
use ai_agent_core::ErrorRecord;
use ai_agent_core::ForeignException;
use ai_agent_core::Origin;

fn chain_of(kinds: Vec<ErrorKind>) -> ErrorRecord {
    let mut it = kinds.into_iter().rev();
    let mut record = ErrorRecord::new(it.next().unwrap(), "innermost");
    let mut depth = 0;
    for kind in it {
        depth += 1;
        record = ErrorRecord::new(kind, &format!("level {}", depth)).caused_by(record);
    }
    record
}

fn kinds_of(record: &ErrorRecord) -> Vec<ErrorKind> {
    let mut kinds = vec![record.kind.clone()];
    let mut cur = &record.cause;
    while let Some(inner) = cur {
        kinds.push(inner.kind.clone());
        cur = &inner.cause;
    }
    kinds
}

fn messages_of(record: &ErrorRecord) -> Vec<String> {
    let mut out = vec![record.message.clone()];
    let mut cur = &record.cause;
    while let Some(inner) = cur {
        out.push(inner.message.clone());
        cur = &inner.cause;
    }
    out
}

fn foreign(class: &str, message: &str, exit_code: Option<i32>) -> ForeignException {
    ForeignException {
        class: class.to_string(),
        message: message.to_string(),
        exit_code,
        context: String::new(),
        cause: None,
    }
}

#[test]
fn native_kinds_map_to_their_foreign_classes() {
    let table = vec![
        (ErrorKind::InvalidRequest, "ValueError", None),
        (ErrorKind::Timeout, "TimeoutError", None),
        (ErrorKind::ProcessFailure(3), "RuntimeError", Some(3)),
        (ErrorKind::DecodeError, "TypeError", None),
        (ErrorKind::Cancelled, "CancelledError", None),
        (ErrorKind::DuplicateTask, "DuplicateTaskError", None),
        (ErrorKind::UnknownTool, "UnknownToolError", None),
        (ErrorKind::OutputLimitExceeded, "OutputLimitExceededError", None),
        (ErrorKind::UnsupportedSchema, "UnsupportedSchemaError", None),
        (ErrorKind::TypeMismatch, "TypeMismatchError", None),
        (ErrorKind::EnvError, "EnvError", None),
        (ErrorKind::PathError, "PathError", None),
        (ErrorKind::ForeignUnmapped("KeyError".to_string()), "KeyError", None),
    ];
    for (kind, class, code) in table {
        let there = ErrorHandler::rust_error_to_python(&ErrorRecord::new(kind.clone(), "m"));
        assert_eq!(there.class, class);
        assert_eq!(there.exit_code, code);
        assert_eq!(there.message, "m");
        assert!(there.cause.is_none());
        let back = ErrorHandler::python_error_to_rust(&there);
        assert_eq!(back.kind, kind);
        assert_eq!(back.message, "m");
        assert_eq!(back.origin, Origin::Foreign);
    }
}

#[test]
fn unrecognized_foreign_exception_is_unmapped() {
    let native = ErrorHandler::python_error_to_rust(&foreign("ZeroDivisionError", "division by zero", None));
    assert_eq!(native.kind, ErrorKind::ForeignUnmapped("ZeroDivisionError".to_string()));
    assert_eq!(native.message, "division by zero");
    assert_eq!(native.origin, Origin::Foreign);
}

#[test]
fn runtime_error_is_a_process_failure_only_with_an_exit_code() {
    let with = ErrorHandler::python_error_to_rust(&foreign("RuntimeError", "boom", Some(-9)));
    assert_eq!(with.kind, ErrorKind::ProcessFailure(-9));
    let without = ErrorHandler::python_error_to_rust(&foreign("RuntimeError", "boom", None));
    assert_eq!(without.kind, ErrorKind::ForeignUnmapped("RuntimeError".to_string()));
    // an exit code on another class changes nothing
    let other = ErrorHandler::python_error_to_rust(&foreign("ValueError", "bad", Some(1)));
    assert_eq!(other.kind, ErrorKind::InvalidRequest);
}

#[test]
fn chain_round_trip_keeps_length_order_kinds_and_messages() {
    let kinds = vec![
        ErrorKind::Timeout,
        ErrorKind::ProcessFailure(2),
        ErrorKind::ForeignUnmapped("OSError".to_string()),
        ErrorKind::PathError,
    ];
    let record = chain_of(kinds.clone());
    let there = ErrorHandler::rust_error_to_python(&record);
    let mut len = 1;
    let mut cur = &there.cause;
    while let Some(inner) = cur {
        len += 1;
        cur = &inner.cause;
    }
    assert_eq!(len, 4);
    assert_eq!(there.class, "TimeoutError");
    assert_eq!(there.cause.as_ref().unwrap().class, "RuntimeError");
    assert_eq!(there.cause.as_ref().unwrap().exit_code, Some(2));
    let back = ErrorHandler::python_error_to_rust(&there);
    assert_eq!(kinds_of(&back), kinds);
    assert_eq!(messages_of(&back), messages_of(&record));
}

#[test]
fn foreign_context_is_carried_through_untouched() {
    let trace = "Traceback (most recent call last):\n  File \"x.py\", line 1";
    let mut inner = foreign("KeyError", "'k'", None);
    inner.context = "inner trace".to_string();
    let mut outer = foreign("ValueError", "bad value", None);
    outer.context = trace.to_string();
    outer.cause = Some(Box::new(inner));
    let native = ErrorHandler::python_error_to_rust(&outer);
    assert_eq!(native.context, trace);
    assert_eq!(native.cause.as_ref().unwrap().context, "inner trace");
    let again = ErrorHandler::rust_error_to_python(&native);
    assert_eq!(again, outer);
}

#[test]
fn unmapped_error_with_a_reserved_name_does_not_come_back() {
    // the one family of inputs on which the round trip changes the kind
    let record = ErrorRecord::new(ErrorKind::ForeignUnmapped("ValueError".to_string()), "m");
    let back = ErrorHandler::python_error_to_rust(&ErrorHandler::rust_error_to_python(&record));
    assert_eq!(back.kind, ErrorKind::InvalidRequest);
}

#[test]
fn error_record_constructors() {
    let e = ErrorRecord::new(ErrorKind::EnvError, "no env");
    assert_eq!(e.origin, Origin::Native);
    assert_eq!(e.context, "");
    assert!(e.cause.is_none());
    let c = ErrorRecord::new(ErrorKind::PathError, "no path");
    let e2 = e.clone().caused_by(c.clone());
    assert_eq!(e2.kind, ErrorKind::EnvError);
    assert_eq!(e2.message, "no env");
    assert_eq!(*e2.cause.clone().unwrap(), c);
    assert_eq!(e2.duplicate(), e2);
    assert_eq!(ErrorHandler::new(), ErrorHandler::default());
    assert_eq!(ErrorHandler::exception_name(&ErrorKind::Cancelled), "CancelledError");
    assert_eq!(ErrorHandler::kind_for(&"TypeError".to_string(), None), ErrorKind::DecodeError);
}
