//! Task descriptors and task results: what goes into the dispatcher and what
//! comes out of it.

use crate::error::ErrorLink;
use crate::error::ErrorRecord;
use crate::value::Value;
use crate::value::ValueView;
use vstd::prelude::*;

verus! {

/// What a sequence of strings holds, text by text.
pub open spec fn text_views(texts: Seq<String>) -> Seq<Seq<char>> {
    texts.map_values(|text: String| text@)
}

/// An independent copy of a list of strings.
pub fn copy_texts(texts: &Vec<String>) -> (r: Vec<String>)
    ensures
        text_views(r@) == text_views(texts@),
{
    let mut r: Vec<String> = Vec::new();
    let mut i: usize = 0;
    while i < texts.len()
        invariant
            i <= texts.len(),
            r@.len() == i,
            text_views(r@) == text_views(texts@.subrange(0, i as int)),
        decreases texts.len() - i,
    {
        let ghost before = r@;
        r.push(texts[i].clone());
        assert forall|k: int| 0 <= k < r@.len() implies text_views(r@)[k] == text_views(
            texts@.subrange(0, i + 1),
        )[k] by {
            if k < i {
                assert(text_views(before)[k] == text_views(texts@.subrange(0, i as int))[k]);
            }
        }
        assert(text_views(r@) =~= text_views(texts@.subrange(0, i + 1)));
        i += 1;
    }
    assert(texts@.subrange(0, i as int) =~= texts@);
    r
}

/// Where a task is to be carried out.
#[derive(Debug, Clone, PartialEq, Eq)]
pub enum Target {
    /// A registered tool, run as an external process with these arguments.
    LocalTool { name: String, args: Vec<String> },
    /// A routine of the scripting runtime, called with these arguments.
    DelegatedCall { routine: String, args: Vec<String> },
}

/// Mathematical model of a [`Target`].
pub enum TargetView {
    LocalTool { name: Seq<char>, args: Seq<Seq<char>> },
    DelegatedCall { routine: Seq<char>, args: Seq<Seq<char>> },
}

impl View for Target {
    type V = TargetView;

    open spec fn view(&self) -> TargetView {
        match self {
            Target::LocalTool { name, args } => TargetView::LocalTool {
                name: name@,
                args: text_views(args@),
            },
            Target::DelegatedCall { routine, args } => TargetView::DelegatedCall {
                routine: routine@,
                args: text_views(args@),
            },
        }
    }
}

impl TargetView {
    /// The name of the tool or routine.
    pub open spec fn name(self) -> Seq<char> {
        match self {
            TargetView::LocalTool { name, .. } => name,
            TargetView::DelegatedCall { routine, .. } => routine,
        }
    }
}

/// One unit of work. `id` is the caller's correlation token; `deadline` is an
/// instant on the caller's clock, in milliseconds.
#[derive(Debug, Clone, PartialEq, Eq)]
pub struct TaskDescriptor {
    pub id: u64,
    pub payload: Value,
    pub target: Target,
    pub deadline: Option<u64>,
}

/// Mathematical model of a [`TaskDescriptor`].
pub struct TaskDescriptorView {
    pub id: u64,
    pub payload: ValueView,
    pub target: TargetView,
    pub deadline: Option<u64>,
}

impl View for TaskDescriptor {
    type V = TaskDescriptorView;

    open spec fn view(&self) -> TaskDescriptorView {
        TaskDescriptorView {
            id: self.id,
            payload: self.payload@,
            target: self.target@,
            deadline: self.deadline,
        }
    }
}

/// Mathematical model of how a task ended: its value, or its error chain.
pub type OutcomeView = Result<ValueView, Seq<ErrorLink>>;

/// The model of an outcome.
pub open spec fn outcome_view(outcome: Result<Value, ErrorRecord>) -> OutcomeView {
    match outcome {
        Ok(value) => Ok(value@),
        Err(error) => Err(error@),
    }
}

/// An independent copy of an outcome.
pub fn copy_outcome(outcome: &Result<Value, ErrorRecord>) -> (r: Result<Value, ErrorRecord>)
    ensures
        outcome_view(r) == outcome_view(*outcome),
{
    match outcome {
        Ok(value) => Ok(value.duplicate()),
        Err(error) => Err(error.duplicate()),
    }
}

/// How a task ended, under the id of the descriptor it answers.
#[derive(Debug, PartialEq, Eq)]
pub struct TaskResult {
    pub id: u64,
    pub outcome: Result<Value, ErrorRecord>,
}

impl TaskResult {
    /// An independent copy of the result.
    pub fn duplicate(&self) -> (r: TaskResult)
        ensures
            r@ == self@,
    {
        TaskResult { id: self.id, outcome: copy_outcome(&self.outcome) }
    }
}

impl Clone for TaskResult {
    fn clone(&self) -> Self {
        self.duplicate()
    }
}

/// Mathematical model of a [`TaskResult`].
pub struct TaskResultView {
    pub id: u64,
    pub outcome: OutcomeView,
}

impl View for TaskResult {
    type V = TaskResultView;

    open spec fn view(&self) -> TaskResultView {
        TaskResultView { id: self.id, outcome: outcome_view(self.outcome) }
    }
}

} // verus!
