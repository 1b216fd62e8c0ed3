//! The error taxonomy translator: native error records to the exceptions of
//! the scripting runtime and back, chain by chain.

use crate::error::ErrorKind;
use crate::error::ErrorLink;
use crate::error::ErrorRecord;
use crate::error::KindView;
use crate::error::Origin;
use crate::text::same_text;
use vstd::prelude::*;

verus! {

/// An exception of the scripting runtime, captured as plain values: the name
/// of its type, its message, the exit code it carries (if any), whatever
/// context the runtime attached to it, and the exception that caused it.
///
/// Nothing here is interpreted except the type name and the exit code.
#[derive(Debug, PartialEq, Eq)]
pub struct ForeignException {
    pub class: String,
    pub message: String,
    pub exit_code: Option<i32>,
    pub context: String,
    pub cause: Option<Box<ForeignException>>,
}

/// One element of a chain of foreign exceptions, as a plain mathematical
/// value.
pub struct ForeignLink {
    pub class: Seq<char>,
    pub message: Seq<char>,
    pub exit_code: Option<i32>,
    pub context: Seq<char>,
}

impl ForeignException {
    /// The outermost element of the chain.
    pub open spec fn head(&self) -> ForeignLink {
        ForeignLink {
            class: self.class@,
            message: self.message@,
            exit_code: self.exit_code,
            context: self.context@,
        }
    }

    /// The whole chain, outermost exception first.
    pub open spec fn chain(&self) -> Seq<ForeignLink>
        decreases self,
    {
        match self.cause {
            None => seq![self.head()],
            Some(inner) => seq![self.head()] + inner.chain(),
        }
    }

    /// An independent copy of the whole chain.
    pub fn duplicate(&self) -> (r: ForeignException)
        ensures
            r@ == self@,
        decreases self,
    {
        let cause = match &self.cause {
            None => None,
            Some(inner) => Some(Box::new(inner.duplicate())),
        };
        ForeignException {
            class: self.class.clone(),
            message: self.message.clone(),
            exit_code: self.exit_code,
            context: self.context.clone(),
            cause,
        }
    }
}

impl Clone for ForeignException {
    fn clone(&self) -> Self {
        self.duplicate()
    }
}

impl View for ForeignException {
    type V = Seq<ForeignLink>;

    open spec fn view(&self) -> Seq<ForeignLink> {
        self.chain()
    }
}

/// The name of the foreign exception type that stands for a native kind.
/// An unmapped foreign exception goes back under the name it came with.
pub open spec fn class_name(kind: KindView) -> Seq<char> {
    match kind {
        KindView::InvalidRequest => "ValueError"@,
        KindView::Timeout => "TimeoutError"@,
        KindView::ProcessFailure(_) => "RuntimeError"@,
        KindView::DecodeError => "TypeError"@,
        KindView::Cancelled => "CancelledError"@,
        KindView::DuplicateTask => "DuplicateTaskError"@,
        KindView::UnknownTool => "UnknownToolError"@,
        KindView::OutputLimitExceeded => "OutputLimitExceededError"@,
        KindView::UnsupportedSchema => "UnsupportedSchemaError"@,
        KindView::TypeMismatch => "TypeMismatchError"@,
        KindView::EnvError => "EnvError"@,
        KindView::PathError => "PathError"@,
        KindView::ForeignUnmapped(name) => name,
    }
}

/// The native kind that a foreign exception stands for. A `RuntimeError`
/// is a process failure only where it carries an exit code; every exception
/// that is not recognized keeps its type name in `ForeignUnmapped`.
pub open spec fn kind_of(class: Seq<char>, exit_code: Option<i32>) -> KindView {
    if class == "ValueError"@ {
        KindView::InvalidRequest
    } else if class == "TimeoutError"@ {
        KindView::Timeout
    } else if class == "RuntimeError"@ && exit_code is Some {
        KindView::ProcessFailure(exit_code->0)
    } else if class == "TypeError"@ {
        KindView::DecodeError
    } else if class == "CancelledError"@ {
        KindView::Cancelled
    } else if class == "DuplicateTaskError"@ {
        KindView::DuplicateTask
    } else if class == "UnknownToolError"@ {
        KindView::UnknownTool
    } else if class == "OutputLimitExceededError"@ {
        KindView::OutputLimitExceeded
    } else if class == "UnsupportedSchemaError"@ {
        KindView::UnsupportedSchema
    } else if class == "TypeMismatchError"@ {
        KindView::TypeMismatch
    } else if class == "EnvError"@ {
        KindView::EnvError
    } else if class == "PathError"@ {
        KindView::PathError
    } else {
        KindView::ForeignUnmapped(class)
    }
}

/// The foreign form of one element of a native chain.
pub open spec fn foreign_link(link: ErrorLink) -> ForeignLink {
    ForeignLink {
        class: class_name(link.kind),
        message: link.message,
        exit_code: match link.kind {
            KindView::ProcessFailure(code) => Some(code),
            _ => None,
        },
        context: link.context,
    }
}

/// The native form of one element of a foreign chain.
pub open spec fn native_link(link: ForeignLink) -> ErrorLink {
    ErrorLink {
        kind: kind_of(link.class, link.exit_code),
        message: link.message,
        context: link.context,
        origin: Origin::Foreign,
    }
}

/// The foreign form of a native chain: element by element, in order.
pub open spec fn to_foreign(chain: Seq<ErrorLink>) -> Seq<ForeignLink> {
    chain.map_values(|link: ErrorLink| foreign_link(link))
}

/// The native form of a foreign chain: element by element, in order.
pub open spec fn to_native(chain: Seq<ForeignLink>) -> Seq<ErrorLink> {
    chain.map_values(|link: ForeignLink| native_link(link))
}

/// The type names that the translator itself gives out for kinds that carry
/// no data.
pub open spec fn is_reserved_name(name: Seq<char>) -> bool {
    ||| name == "ValueError"@
    ||| name == "TimeoutError"@
    ||| name == "TypeError"@
    ||| name == "CancelledError"@
    ||| name == "DuplicateTaskError"@
    ||| name == "UnknownToolError"@
    ||| name == "OutputLimitExceededError"@
    ||| name == "UnsupportedSchemaError"@
    ||| name == "TypeMismatchError"@
    ||| name == "EnvError"@
    ||| name == "PathError"@
}

/// A kind comes back unchanged from the foreign side unless it is an
/// unmapped exception that bears a reserved name.
pub open spec fn survives_translation(kind: KindView) -> bool {
    kind matches KindView::ForeignUnmapped(name) ==> !is_reserved_name(name)
}

/// The reserved names differ from one another: in length, or in their
/// first letter.
proof fn lemma_names_distinct()
    ensures
        "ValueError"@.len() == 10,
        "TimeoutError"@.len() == 12,
        "RuntimeError"@.len() == 12,
        "TypeError"@.len() == 9,
        "CancelledError"@.len() == 14,
        "DuplicateTaskError"@.len() == 18,
        "UnknownToolError"@.len() == 16,
        "OutputLimitExceededError"@.len() == 24,
        "UnsupportedSchemaError"@.len() == 22,
        "TypeMismatchError"@.len() == 17,
        "EnvError"@.len() == 8,
        "PathError"@.len() == 9,
        "TimeoutError"@[0] == 'T',
        "RuntimeError"@[0] == 'R',
        "TypeError"@[0] == 'T',
        "PathError"@[0] == 'P',
{
    reveal_strlit("ValueError");
    reveal_strlit("TimeoutError");
    reveal_strlit("RuntimeError");
    reveal_strlit("TypeError");
    reveal_strlit("CancelledError");
    reveal_strlit("DuplicateTaskError");
    reveal_strlit("UnknownToolError");
    reveal_strlit("OutputLimitExceededError");
    reveal_strlit("UnsupportedSchemaError");
    reveal_strlit("TypeMismatchError");
    reveal_strlit("EnvError");
    reveal_strlit("PathError");
}

/// One element survives the trip to the foreign side and back with its
/// kind, message and context; only its origin is then foreign.
pub proof fn lemma_link_round_trip(link: ErrorLink)
    requires
        survives_translation(link.kind),
    ensures
        native_link(foreign_link(link)) == (ErrorLink { origin: Origin::Foreign, ..link }),
{
    lemma_names_distinct();
    let there = foreign_link(link);
    assert(kind_of(there.class, there.exit_code) == link.kind);
}

/// Translating a chain to the foreign representation and back keeps its
/// length and, element by element, each kind, message and context.
pub proof fn lemma_chain_round_trip(chain: Seq<ErrorLink>)
    requires
        forall|i: int| 0 <= i < chain.len() ==> survives_translation(#[trigger] chain[i].kind),
    ensures
        to_native(to_foreign(chain)).len() == chain.len(),
        forall|i: int|
            0 <= i < chain.len() ==> {
                let back = #[trigger] to_native(to_foreign(chain))[i];
                &&& back.kind == chain[i].kind
                &&& back.message == chain[i].message
                &&& back.context == chain[i].context
                &&& back.origin == Origin::Foreign
            },
{
    assert forall|i: int| 0 <= i < chain.len() implies {
        let back = #[trigger] to_native(to_foreign(chain))[i];
        &&& back.kind == chain[i].kind
        &&& back.message == chain[i].message
        &&& back.context == chain[i].context
        &&& back.origin == Origin::Foreign
    } by {
        lemma_link_round_trip(chain[i]);
    }
}

/// The translator between the two error representations.
#[derive(Debug, Clone, Copy, PartialEq, Eq)]
pub struct ErrorHandler;

impl ErrorHandler {
    pub fn new() -> (r: Self)
        ensures
            r == ErrorHandler,
    {
        ErrorHandler
    }

    /// The name of the foreign exception type for a native kind.
    pub fn exception_name(kind: &ErrorKind) -> (name: String)
        ensures
            name@ == class_name(kind@),
    {
        match kind {
            ErrorKind::InvalidRequest => "ValueError".to_owned(),
            ErrorKind::Timeout => "TimeoutError".to_owned(),
            ErrorKind::ProcessFailure(_) => "RuntimeError".to_owned(),
            ErrorKind::DecodeError => "TypeError".to_owned(),
            ErrorKind::Cancelled => "CancelledError".to_owned(),
            ErrorKind::DuplicateTask => "DuplicateTaskError".to_owned(),
            ErrorKind::UnknownTool => "UnknownToolError".to_owned(),
            ErrorKind::OutputLimitExceeded => "OutputLimitExceededError".to_owned(),
            ErrorKind::UnsupportedSchema => "UnsupportedSchemaError".to_owned(),
            ErrorKind::TypeMismatch => "TypeMismatchError".to_owned(),
            ErrorKind::EnvError => "EnvError".to_owned(),
            ErrorKind::PathError => "PathError".to_owned(),
            ErrorKind::ForeignUnmapped(name) => name.clone(),
        }
    }

    /// The native kind for a foreign exception type and the exit code the
    /// exception carries.
    pub fn kind_for(class: &String, exit_code: Option<i32>) -> (kind: ErrorKind)
        ensures
            kind@ == kind_of(class@, exit_code),
    {
        if same_text(class.as_str(), "ValueError") {
            ErrorKind::InvalidRequest
        } else if same_text(class.as_str(), "TimeoutError") {
            ErrorKind::Timeout
        } else if same_text(class.as_str(), "RuntimeError") && exit_code.is_some() {
            ErrorKind::ProcessFailure(exit_code.unwrap())
        } else if same_text(class.as_str(), "TypeError") {
            ErrorKind::DecodeError
        } else if same_text(class.as_str(), "CancelledError") {
            ErrorKind::Cancelled
        } else if same_text(class.as_str(), "DuplicateTaskError") {
            ErrorKind::DuplicateTask
        } else if same_text(class.as_str(), "UnknownToolError") {
            ErrorKind::UnknownTool
        } else if same_text(class.as_str(), "OutputLimitExceededError") {
            ErrorKind::OutputLimitExceeded
        } else if same_text(class.as_str(), "UnsupportedSchemaError") {
            ErrorKind::UnsupportedSchema
        } else if same_text(class.as_str(), "TypeMismatchError") {
            ErrorKind::TypeMismatch
        } else if same_text(class.as_str(), "EnvError") {
            ErrorKind::EnvError
        } else if same_text(class.as_str(), "PathError") {
            ErrorKind::PathError
        } else {
            ErrorKind::ForeignUnmapped(class.clone())
        }
    }

    /// Translates a native error, with its whole cause chain, into the
    /// foreign representation.
    pub fn rust_error_to_python(error: &ErrorRecord) -> (r: ForeignException)
        ensures
            r@ == to_foreign(error@),
        decreases error,
    {
        let cause = match &error.cause {
            None => None,
            Some(inner) => Some(Box::new(Self::rust_error_to_python(inner))),
        };
        let exit_code = match &error.kind {
            ErrorKind::ProcessFailure(code) => Some(*code),
            _ => None,
        };
        let r = ForeignException {
            class: Self::exception_name(&error.kind),
            message: error.message.clone(),
            exit_code,
            context: error.context.clone(),
            cause,
        };
        assert(r@ =~= to_foreign(error@));
        r
    }

    /// Translates a foreign exception, with its whole cause chain, into a
    /// native error record. Every element is marked as of foreign origin.
    pub fn python_error_to_rust(error: &ForeignException) -> (r: ErrorRecord)
        ensures
            r@ == to_native(error@),
        decreases error,
    {
        let cause = match &error.cause {
            None => None,
            Some(inner) => Some(Box::new(Self::python_error_to_rust(inner))),
        };
        let r = ErrorRecord {
            kind: Self::kind_for(&error.class, error.exit_code),
            message: error.message.clone(),
            context: error.context.clone(),
            cause,
            origin: Origin::Foreign,
        };
        assert(r@ =~= to_native(error@));
        r
    }
}

impl Default for ErrorHandler {
    fn default() -> (r: Self)
        ensures
            r == ErrorHandler,
    {
        ErrorHandler::new()
    }
}

} // verus!
