//! The error taxonomy shared by every component, and the chained record in
//! which failures travel.

use vstd::prelude::*;

verus! {

/// Which runtime an error was first raised in.
#[derive(Debug, Clone, Copy, PartialEq, Eq, Structural)]
pub enum Origin {
    Native,
    Foreign,
}

/// The kinds of failure the bridge distinguishes.
#[derive(Debug, Clone, PartialEq, Eq)]
pub enum ErrorKind {
    InvalidRequest,
    DuplicateTask,
    UnknownTool,
    Timeout,
    Cancelled,
    ProcessFailure(i32),
    OutputLimitExceeded,
    DecodeError,
    UnsupportedSchema,
    TypeMismatch,
    EnvError,
    PathError,
    ForeignUnmapped(String),
}

/// Mathematical model of an [`ErrorKind`].
pub enum KindView {
    InvalidRequest,
    DuplicateTask,
    UnknownTool,
    Timeout,
    Cancelled,
    ProcessFailure(i32),
    OutputLimitExceeded,
    DecodeError,
    UnsupportedSchema,
    TypeMismatch,
    EnvError,
    PathError,
    ForeignUnmapped(Seq<char>),
}

impl ErrorKind {
    /// An independent copy of the kind.
    pub fn duplicate(&self) -> (r: ErrorKind)
        ensures
            r@ == self@,
    {
        match self {
            ErrorKind::InvalidRequest => ErrorKind::InvalidRequest,
            ErrorKind::DuplicateTask => ErrorKind::DuplicateTask,
            ErrorKind::UnknownTool => ErrorKind::UnknownTool,
            ErrorKind::Timeout => ErrorKind::Timeout,
            ErrorKind::Cancelled => ErrorKind::Cancelled,
            ErrorKind::ProcessFailure(code) => ErrorKind::ProcessFailure(*code),
            ErrorKind::OutputLimitExceeded => ErrorKind::OutputLimitExceeded,
            ErrorKind::DecodeError => ErrorKind::DecodeError,
            ErrorKind::UnsupportedSchema => ErrorKind::UnsupportedSchema,
            ErrorKind::TypeMismatch => ErrorKind::TypeMismatch,
            ErrorKind::EnvError => ErrorKind::EnvError,
            ErrorKind::PathError => ErrorKind::PathError,
            ErrorKind::ForeignUnmapped(text) => ErrorKind::ForeignUnmapped(text.clone()),
        }
    }
}

impl View for ErrorKind {
    type V = KindView;

    open spec fn view(&self) -> KindView {
        match self {
            ErrorKind::InvalidRequest => KindView::InvalidRequest,
            ErrorKind::DuplicateTask => KindView::DuplicateTask,
            ErrorKind::UnknownTool => KindView::UnknownTool,
            ErrorKind::Timeout => KindView::Timeout,
            ErrorKind::Cancelled => KindView::Cancelled,
            ErrorKind::ProcessFailure(code) => KindView::ProcessFailure(*code),
            ErrorKind::OutputLimitExceeded => KindView::OutputLimitExceeded,
            ErrorKind::DecodeError => KindView::DecodeError,
            ErrorKind::UnsupportedSchema => KindView::UnsupportedSchema,
            ErrorKind::TypeMismatch => KindView::TypeMismatch,
            ErrorKind::EnvError => KindView::EnvError,
            ErrorKind::PathError => KindView::PathError,
            ErrorKind::ForeignUnmapped(text) => KindView::ForeignUnmapped(text@),
        }
    }
}

/// One element of an error chain, as a plain mathematical value.
pub struct ErrorLink {
    pub kind: KindView,
    pub message: Seq<char>,
    pub context: Seq<char>,
    pub origin: Origin,
}

/// The chain of a native error that has no cause.
pub open spec fn native_failure(kind: KindView, message: Seq<char>) -> Seq<ErrorLink> {
    seq![
        (ErrorLink { kind, message, context: Seq::<char>::empty(), origin: Origin::Native }),
    ]
}

/// A failure together with the failures that caused it.
///
/// `context` carries whatever the foreign runtime attached to the error (a
/// stack trace, say); it is kept verbatim and never interpreted. The chain is
/// finite because each record owns its cause.
#[derive(Debug, PartialEq, Eq)]
pub struct ErrorRecord {
    pub kind: ErrorKind,
    pub message: String,
    pub context: String,
    pub cause: Option<Box<ErrorRecord>>,
    pub origin: Origin,
}

impl ErrorRecord {
    /// The outermost element of the chain.
    pub open spec fn head(&self) -> ErrorLink {
        ErrorLink {
            kind: self.kind@,
            message: self.message@,
            context: self.context@,
            origin: self.origin,
        }
    }

    /// The whole chain, outermost failure first.
    pub open spec fn chain(&self) -> Seq<ErrorLink>
        decreases self,
    {
        match self.cause {
            None => seq![self.head()],
            Some(inner) => seq![self.head()] + inner.chain(),
        }
    }

    /// A chain is never empty and starts with the record's own fields.
    pub proof fn lemma_chain_head(&self)
        ensures
            self.chain().len() >= 1,
            self.chain()[0] == self.head(),
            self.cause is None ==> self.chain().len() == 1,
            self.cause matches Some(inner) ==> self.chain().len() == 1 + inner.chain().len(),
        decreases self,
    {
        match self.cause {
            None => {},
            Some(inner) => {
                inner.lemma_chain_head();
            },
        }
    }

    /// A native error without a cause.
    pub fn new(kind: ErrorKind, message: &str) -> (r: Self)
        ensures
            r.kind == kind,
            r.message@ == message@,
            r.context@ == Seq::<char>::empty(),
            r.cause is None,
            r.origin == Origin::Native,
            r@ == native_failure(kind@, message@),
    {
        ErrorRecord {
            kind,
            message: message.to_owned(),
            context: String::new(),
            cause: None,
            origin: Origin::Native,
        }
    }

    /// The same error, now caused by `cause`. A cause the record already had
    /// is replaced.
    pub fn caused_by(self, cause: ErrorRecord) -> (r: Self)
        ensures
            r.kind == self.kind,
            r.message == self.message,
            r.context == self.context,
            r.origin == self.origin,
            r.cause == Some(Box::new(cause)),
            r@ == seq![self.head()] + cause@,
    {
        ErrorRecord {
            kind: self.kind,
            message: self.message,
            context: self.context,
            cause: Some(Box::new(cause)),
            origin: self.origin,
        }
    }
}

impl ErrorRecord {
    /// An independent copy of the whole chain.
    pub fn duplicate(&self) -> (r: ErrorRecord)
        ensures
            r@ == self@,
        decreases self,
    {
        let cause = match &self.cause {
            None => None,
            Some(inner) => Some(Box::new(inner.duplicate())),
        };
        ErrorRecord {
            kind: self.kind.duplicate(),
            message: self.message.clone(),
            context: self.context.clone(),
            cause,
            origin: self.origin,
        }
    }
}

impl Clone for ErrorRecord {
    fn clone(&self) -> Self {
        self.duplicate()
    }
}

impl View for ErrorRecord {
    type V = Seq<ErrorLink>;

    open spec fn view(&self) -> Seq<ErrorLink> {
        self.chain()
    }
}

} // verus!
