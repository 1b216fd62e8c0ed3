use ai_agent_core::ErrorKind;
use ai_agent_core::ErrorRecord;

#[test]
fn report_shows_kind_and_message_of_the_outermost_error() {
    let e = ErrorRecord::new(ErrorKind::Timeout, "deadline elapsed");
    assert_eq!(e.report(), "Timeout: deadline elapsed");
    let e = ErrorRecord::new(ErrorKind::UnknownTool, "");
    assert_eq!(e.report(), "UnknownTool: ");
}

#[test]
fn report_condenses_the_cause_chain_to_kinds() {
    let inner = ErrorRecord::new(ErrorKind::PathError, "no such directory");
    let middle = ErrorRecord::new(ErrorKind::ProcessFailure(2), "tool failed").caused_by(inner);
    let outer = ErrorRecord::new(ErrorKind::InvalidRequest, "cannot run").caused_by(middle);
    assert_eq!(outer.report(), "InvalidRequest: cannot run <- ProcessFailure(2) <- PathError");
}

#[test]
fn report_never_shows_foreign_context() {
    let mut e = ErrorRecord::new(ErrorKind::ForeignUnmapped("KeyError".to_string()), "'k'");
    e.context = "Traceback (most recent call last): secret".to_string();
    assert_eq!(e.report(), "ForeignUnmapped(KeyError): 'k'");
}

#[test]
fn labels_of_all_kinds() {
    assert_eq!(ErrorKind::InvalidRequest.label(), "InvalidRequest");
    assert_eq!(ErrorKind::DuplicateTask.label(), "DuplicateTask");
    assert_eq!(ErrorKind::UnknownTool.label(), "UnknownTool");
    assert_eq!(ErrorKind::Timeout.label(), "Timeout");
    assert_eq!(ErrorKind::Cancelled.label(), "Cancelled");
    assert_eq!(ErrorKind::OutputLimitExceeded.label(), "OutputLimitExceeded");
    assert_eq!(ErrorKind::DecodeError.label(), "DecodeError");
    assert_eq!(ErrorKind::UnsupportedSchema.label(), "UnsupportedSchema");
    assert_eq!(ErrorKind::TypeMismatch.label(), "TypeMismatch");
    assert_eq!(ErrorKind::EnvError.label(), "EnvError");
    assert_eq!(ErrorKind::PathError.label(), "PathError");
    assert_eq!(ErrorKind::ForeignUnmapped("X".to_string()).label(), "ForeignUnmapped(X)");
}

#[test]
fn exit_codes_are_shown_in_decimal() {
    for code in [0, 1, 9, 10, 127, 255, 1000, i32::MAX, -1, -9, -10, -128, i32::MIN] {
        assert_eq!(ErrorKind::ProcessFailure(code).label(), format!("ProcessFailure({})", code));
    }
}
