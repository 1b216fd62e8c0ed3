//! The task dispatcher: the one door through which work enters. It checks a
//! descriptor, admits at most one task per id at a time, says where the task
//! is to be carried out, and puts the task's id on the result.

use crate::async_bridge::delegated;
use crate::async_bridge::resolved;
use crate::async_bridge::taken;
use crate::async_bridge::AsyncBridge;
use crate::chunks::joined;
use crate::error::native_failure;
use crate::error::ErrorKind;
use crate::error::ErrorRecord;
use crate::error::KindView;
use crate::task::copy_texts;
use crate::task::outcome_view;
use crate::task::text_views;
use crate::task::OutcomeView;
use crate::task::Target;
use crate::task::TargetView;
use crate::task::TaskDescriptor;
use crate::task::TaskDescriptorView;
use crate::task::TaskResult;
use crate::task::TaskResultView;
use crate::tools::executor::admitted;
use crate::tools::executor::conclusion;
use crate::tools::executor::Invocation;
use crate::tools::executor::InvocationView;
use crate::tools::executor::Limits;
use crate::tools::executor::ToolExecutor;
use crate::tools::process::drained;
use crate::tools::process::readable;
use crate::tools::process::reaped;
use crate::tools::process::released;
use crate::tools::process::ProcessManager;
use crate::tools::process::Stream;
use crate::value::Value;
use crate::value::ValueView;
use std::collections::HashSet;
use vstd::prelude::*;

verus! {

broadcast use vstd::std_specs::hash::group_hash_axioms;

/// What the dispatcher reports for observers: the start and the end of the
/// execution of a task.
#[derive(Debug, Clone, Copy, PartialEq, Eq, Structural)]
pub enum TaskEvent {
    Started(u64),
    Ended(u64),
}

/// The dispatcher's answer to a submission.
#[derive(Debug, Clone, PartialEq, Eq)]
pub enum Dispatch {
    /// The task was not admitted; this is its result.
    Rejected(TaskResult),
    /// The task was admitted and is to run as a local tool.
    RunTool { id: u64, name: String, args: Vec<String> },
    /// The task was admitted and is to be handed to the scripting runtime.
    Delegate { id: u64, routine: String, args: Vec<String>, deadline: Option<u64> },
}

/// Mathematical model of a [`Dispatch`].
pub enum DispatchView {
    Rejected(TaskResultView),
    RunTool { id: u64, name: Seq<char>, args: Seq<Seq<char>> },
    Delegate { id: u64, routine: Seq<char>, args: Seq<Seq<char>>, deadline: Option<u64> },
}

impl View for Dispatch {
    type V = DispatchView;

    open spec fn view(&self) -> DispatchView {
        match self {
            Dispatch::Rejected(result) => DispatchView::Rejected(result@),
            Dispatch::RunTool { id, name, args } => DispatchView::RunTool {
                id: *id,
                name: name@,
                args: text_views(args@),
            },
            Dispatch::Delegate { id, routine, args, deadline } => DispatchView::Delegate {
                id: *id,
                routine: routine@,
                args: text_views(args@),
                deadline: *deadline,
            },
        }
    }
}

impl DispatchView {
    /// The id of the task that the answer is about.
    pub open spec fn id(self) -> u64 {
        match self {
            DispatchView::Rejected(result) => result.id,
            DispatchView::RunTool { id, .. } => id,
            DispatchView::Delegate { id, .. } => id,
        }
    }

    /// Whether the task was admitted.
    pub open spec fn admitted(self) -> bool {
        !(self is Rejected)
    }
}

/// What is to happen next with a task that was submitted.
#[derive(Debug, Clone, PartialEq, Eq)]
pub enum Step {
    /// Nothing: the task has its result already.
    Done(TaskResult),
    /// The process of this invocation is to be started.
    Launch(Invocation),
    /// The call is to be handed to the scripting runtime; its ticket is
    /// open.
    Call { id: u64, routine: String, args: Vec<String>, deadline: Option<u64> },
}

/// Mathematical model of a [`Step`].
pub enum StepView {
    Done(TaskResultView),
    Launch(InvocationView),
    Call { id: u64, routine: Seq<char>, args: Seq<Seq<char>>, deadline: Option<u64> },
}

impl View for Step {
    type V = StepView;

    open spec fn view(&self) -> StepView {
        match self {
            Step::Done(result) => StepView::Done(result@),
            Step::Launch(invocation) => StepView::Launch(invocation@),
            Step::Call { id, routine, args, deadline } => StepView::Call {
                id: *id,
                routine: routine@,
                args: text_views(args@),
                deadline: *deadline,
            },
        }
    }
}

impl StepView {
    /// The id of the task that the step is about.
    pub open spec fn id(self) -> u64 {
        match self {
            StepView::Done(result) => result.id,
            StepView::Launch(invocation) => invocation.id,
            StepView::Call { id, .. } => id,
        }
    }
}

/// Mathematical model of the dispatcher: the ids of the tasks in flight and
/// the events not yet handed to the observers, oldest first.
pub struct CoreView {
    pub in_flight: Set<u64>,
    pub events: Seq<TaskEvent>,
}

/// A descriptor is well formed when its target names a tool or a routine.
pub open spec fn well_formed(descriptor: TaskDescriptorView) -> bool {
    descriptor.target.name().len() > 0
}

/// The result of a task that was refused.
pub open spec fn refusal(id: u64, kind: KindView, message: Seq<char>) -> TaskResultView {
    TaskResultView { id, outcome: Err(native_failure(kind, message)) }
}

/// Where an admitted task goes.
pub open spec fn route(descriptor: TaskDescriptorView) -> DispatchView {
    match descriptor.target {
        TargetView::LocalTool { name, args } => DispatchView::RunTool {
            id: descriptor.id,
            name,
            args,
        },
        TargetView::DelegatedCall { routine, args } => DispatchView::Delegate {
            id: descriptor.id,
            routine,
            args,
            deadline: descriptor.deadline,
        },
    }
}

/// The dispatcher's answer to a submission. A malformed descriptor is
/// refused as `InvalidRequest`; a well-formed one whose id is in flight is
/// refused as `DuplicateTask`; any other is admitted and routed.
pub open spec fn answer(core: CoreView, descriptor: TaskDescriptorView) -> DispatchView {
    if !well_formed(descriptor) {
        DispatchView::Rejected(
            refusal(descriptor.id, KindView::InvalidRequest, "task target names nothing"@),
        )
    } else if core.in_flight.contains(descriptor.id) {
        DispatchView::Rejected(
            refusal(descriptor.id, KindView::DuplicateTask, "a task with this id is in flight"@),
        )
    } else {
        route(descriptor)
    }
}

/// The dispatcher after a submission: an admitted task is in flight and
/// its start has been reported; a refused one leaves no trace.
pub open spec fn submitted(core: CoreView, descriptor: TaskDescriptorView) -> CoreView {
    if answer(core, descriptor).admitted() {
        CoreView {
            in_flight: core.in_flight.insert(descriptor.id),
            events: core.events.push(TaskEvent::Started(descriptor.id)),
        }
    } else {
        core
    }
}

/// The result that is delivered when the execution of `id` ends with
/// `outcome`: one result for a task in flight, none for any other id.
pub open spec fn delivery(core: CoreView, id: u64, outcome: OutcomeView) -> Option<TaskResultView> {
    if core.in_flight.contains(id) {
        Some(TaskResultView { id, outcome })
    } else {
        None
    }
}

/// The dispatcher after the execution of `id` ended: the task is retired
/// and its end has been reported.
pub open spec fn finished(core: CoreView, id: u64) -> CoreView {
    if core.in_flight.contains(id) {
        CoreView {
            in_flight: core.in_flight.remove(id),
            events: core.events.push(TaskEvent::Ended(id)),
        }
    } else {
        core
    }
}

/// The descriptor that stands for a plain request to run `task` with the
/// routine `model`: a delegated call without a deadline.
pub open spec fn request_for(id: u64, task: Seq<char>, model: Seq<char>) -> TaskDescriptorView {
    TaskDescriptorView {
        id,
        payload: ValueView::Text(task),
        target: TargetView::DelegatedCall { routine: model, args: seq![task] },
        deadline: None,
    }
}

/// The next step for a submission, given the tools that are allowed and
/// the ids that have a ticket. A refused task is done. An admitted tool
/// task is launched if its tool is allowed and is done, as `UnknownTool`,
/// if it is not. An admitted call is handed over under a new ticket, and is
/// done, as `DuplicateTask`, if its id has a ticket already.
pub open spec fn next_step(
    core: CoreView,
    tools: Set<Seq<char>>,
    ticketed: Set<u64>,
    descriptor: TaskDescriptorView,
    limits: Limits,
    now: u64,
) -> StepView {
    match answer(core, descriptor) {
        DispatchView::Rejected(result) => StepView::Done(result),
        DispatchView::RunTool { id, name, args } => if tools.contains(name) {
            StepView::Launch(admitted(id, name, args, limits, now))
        } else {
            StepView::Done(refusal(id, KindView::UnknownTool, "tool is not on the allow-list"@))
        },
        DispatchView::Delegate { id, routine, args, deadline } => if ticketed.contains(id) {
            StepView::Done(
                refusal(id, KindView::DuplicateTask, "a call with this id is in flight"@),
            )
        } else {
            StepView::Call { id, routine, args, deadline }
        },
    }
}

/// The dispatcher after a submission was taken to its next step: a task
/// that is done has been retired again, and both its start and its end
/// have been reported if it had been admitted.
pub open spec fn stepped(
    core: CoreView,
    descriptor: TaskDescriptorView,
    step: StepView,
) -> CoreView {
    if step is Done && answer(core, descriptor).admitted() {
        finished(submitted(core, descriptor), descriptor.id)
    } else {
        submitted(core, descriptor)
    }
}

/// Every step bears the id of the descriptor it was made for.
pub proof fn lemma_step_bears_task_id(
    core: CoreView,
    tools: Set<Seq<char>>,
    ticketed: Set<u64>,
    descriptor: TaskDescriptorView,
    limits: Limits,
    now: u64,
)
    ensures
        next_step(core, tools, ticketed, descriptor, limits, now).id() == descriptor.id,
{
}

/// Whatever the dispatcher answers, and whatever result it later delivers,
/// bears the id of the descriptor it is about.
pub proof fn lemma_result_bears_task_id(
    core: CoreView,
    descriptor: TaskDescriptorView,
    outcome: OutcomeView,
)
    ensures
        answer(core, descriptor).id() == descriptor.id,
        delivery(submitted(core, descriptor), descriptor.id, outcome) matches Some(result)
            ==> result.id == descriptor.id,
{
}

/// Of two well-formed submissions under one id, whichever comes first is
/// admitted and the other is refused as `DuplicateTask`, leaving the
/// dispatcher as the first one left it: never two admissions.
pub proof fn lemma_same_id_admitted_once(
    core: CoreView,
    first: TaskDescriptorView,
    second: TaskDescriptorView,
)
    requires
        first.id == second.id,
        well_formed(first),
        well_formed(second),
        !core.in_flight.contains(first.id),
    ensures
        answer(core, first).admitted(),
        answer(submitted(core, first), second) == DispatchView::Rejected(
            refusal(second.id, KindView::DuplicateTask, "a task with this id is in flight"@),
        ),
        submitted(submitted(core, first), second) == submitted(core, first),
{
}

/// Once a task has ended its id is free again, and until then it is not.
pub proof fn lemma_id_is_free_after_end(core: CoreView, descriptor: TaskDescriptorView)
    requires
        well_formed(descriptor),
        !core.in_flight.contains(descriptor.id),
    ensures
        submitted(core, descriptor).in_flight.contains(descriptor.id),
        !finished(submitted(core, descriptor), descriptor.id).in_flight.contains(descriptor.id),
        finished(submitted(core, descriptor), descriptor.id).in_flight == core.in_flight,
        finished(submitted(core, descriptor), descriptor.id).events == core.events.push(
            TaskEvent::Started(descriptor.id),
        ).push(TaskEvent::Ended(descriptor.id)),
{
    assert(core.in_flight.insert(descriptor.id).remove(descriptor.id) =~= core.in_flight);
}

/// Tasks with distinct ids do not stand in each other's way.
pub proof fn lemma_distinct_ids_independent(
    core: CoreView,
    first: TaskDescriptorView,
    second: TaskDescriptorView,
)
    requires
        first.id != second.id,
    ensures
        answer(submitted(core, first), second) == answer(core, second),
        answer(finished(core, first.id), second) == answer(core, second),
{
}

/// The task dispatcher.
#[derive(Debug)]
pub struct AgentCore {
    in_flight: HashSet<u64>,
    events: Vec<TaskEvent>,
}

impl View for AgentCore {
    type V = CoreView;

    closed spec fn view(&self) -> CoreView {
        CoreView { in_flight: self.in_flight@, events: self.events@ }
    }
}

impl AgentCore {
    /// A dispatcher with nothing in flight and nothing to report.
    pub fn new() -> (r: Self)
        ensures
            r@.in_flight == Set::<u64>::empty(),
            r@.events == Seq::<TaskEvent>::empty(),
    {
        AgentCore { in_flight: HashSet::new(), events: Vec::new() }
    }

    /// Whether a task with this id is in flight.
    pub fn is_in_flight(&self, id: u64) -> (r: bool)
        ensures
            r == self@.in_flight.contains(id),
    {
        self.in_flight.contains(&id)
    }

    /// Submits a task. The answer bears the descriptor's id. It is either
    /// the task's result, where the task is refused, or the place where the
    /// admitted task is to be carried out; the result of an admitted task is
    /// delivered by [`AgentCore::finish`].
    pub fn submit(&mut self, descriptor: &TaskDescriptor) -> (r: Dispatch)
        ensures
            r@ == answer(old(self)@, descriptor@),
            r@.id() == descriptor.id,
            final(self)@ == submitted(old(self)@, descriptor@),
    {
        let named = match &descriptor.target {
            Target::LocalTool { name, .. } => !name.as_str().is_empty(),
            Target::DelegatedCall { routine, .. } => !routine.as_str().is_empty(),
        };
        if !named {
            return Dispatch::Rejected(
                TaskResult {
                    id: descriptor.id,
                    outcome: Err(
                        ErrorRecord::new(ErrorKind::InvalidRequest, "task target names nothing"),
                    ),
                },
            );
        }
        if self.in_flight.contains(&descriptor.id) {
            return Dispatch::Rejected(
                TaskResult {
                    id: descriptor.id,
                    outcome: Err(
                        ErrorRecord::new(
                            ErrorKind::DuplicateTask,
                            "a task with this id is in flight",
                        ),
                    ),
                },
            );
        }
        self.in_flight.insert(descriptor.id);
        self.events.push(TaskEvent::Started(descriptor.id));
        match &descriptor.target {
            Target::LocalTool { name, args } => Dispatch::RunTool {
                id: descriptor.id,
                name: name.clone(),
                args: copy_texts(args),
            },
            Target::DelegatedCall { routine, args } => Dispatch::Delegate {
                id: descriptor.id,
                routine: routine.clone(),
                args: copy_texts(args),
                deadline: descriptor.deadline,
            },
        }
    }

    /// The descriptor of a plain request: `task` is to be run by the routine
    /// `model` of the scripting runtime, with no deadline.
    pub fn request(id: u64, task: &str, model: &str) -> (descriptor: TaskDescriptor)
        ensures
            descriptor@ == request_for(id, task@, model@),
    {
        let mut args: Vec<String> = Vec::new();
        args.push(task.to_owned());
        let descriptor = TaskDescriptor {
            id,
            payload: Value::Text(task.to_owned()),
            target: Target::DelegatedCall { routine: model.to_owned(), args },
            deadline: None,
        };
        assert(descriptor@.target->DelegatedCall_args =~= seq![task@]);
        descriptor
    }

    /// Submits a plain request.
    pub fn execute_task(&mut self, id: u64, task: &str, model: &str) -> (r: Dispatch)
        ensures
            r@ == answer(old(self)@, request_for(id, task@, model@)),
            r@.id() == id,
            final(self)@ == submitted(old(self)@, request_for(id, task@, model@)),
    {
        let descriptor = Self::request(id, task, model);
        self.submit(&descriptor)
    }

    /// Ends the execution of a task with its outcome. A task in flight is
    /// retired and its result, under its own id, is handed out; for any
    /// other id there is no result and nothing changes, so no task has two.
    pub fn finish(&mut self, id: u64, outcome: Result<Value, ErrorRecord>) -> (r: Option<TaskResult>)
        ensures
            match r {
                Some(result) => delivery(old(self)@, id, outcome_view(outcome)) == Some(result@),
                None => delivery(old(self)@, id, outcome_view(outcome)) is None,
            },
            final(self)@ == finished(old(self)@, id),
    {
        if !self.in_flight.remove(&id) {
            assert(self.in_flight@ =~= old(self).in_flight@);
            return None;
        }
        self.events.push(TaskEvent::Ended(id));
        Some(TaskResult { id, outcome })
    }

    /// Submits a task and takes it to its next step: to its result where
    /// that is known at once, to the launch of its tool, or to the ticket of
    /// its delegated call.
    pub fn dispatch(
        &mut self,
        executor: &ToolExecutor,
        bridge: &mut AsyncBridge,
        descriptor: &TaskDescriptor,
        limits: Limits,
        now: u64,
    ) -> (step: Step)
        ensures
            step@ == next_step(
                old(self)@,
                executor@,
                old(bridge)@.dom(),
                descriptor@,
                limits,
                now,
            ),
            step@.id() == descriptor.id,
            final(self)@ == stepped(old(self)@, descriptor@, step@),
            final(bridge)@ == (if step@ is Call {
                delegated(old(bridge)@, descriptor.id, descriptor.deadline)
            } else {
                old(bridge)@
            }),
    {
        match self.submit(descriptor) {
            Dispatch::Rejected(result) => Step::Done(result),
            Dispatch::RunTool { id, name, args } => {
                match executor.execute_tool(id, name.as_str(), &args, limits, now) {
                    Ok(invocation) => Step::Launch(invocation),
                    Err(error) => {
                        let result = self.finish(id, Err(error));
                        Step::Done(result.unwrap())
                    },
                }
            },
            Dispatch::Delegate { id, routine, args, deadline } => {
                match bridge.delegate(id, deadline) {
                    Ok(()) => Step::Call { id, routine, args, deadline },
                    Err(error) => {
                        let result = self.finish(id, Err(error));
                        Step::Done(result.unwrap())
                    },
                }
            },
        }
    }

    /// Concludes a tool task once its process has exited: the exit is
    /// recorded, what the process wrote to standard output is read, the
    /// handle is released, and the task is retired with the invocation's
    /// conclusion. There is no result for a task that is not in flight.
    pub fn conclude_tool(
        &mut self,
        supervisor: &mut ProcessManager,
        invocation: &Invocation,
        code: i32,
    ) -> (r: Option<TaskResult>)
        ensures
            final(supervisor)@ == released(
                drained(reaped(old(supervisor)@, invocation.id, code), invocation.id, Stream::Stdout),
                invocation.id,
            ),
            final(self)@ == finished(old(self)@, invocation.id),
            ({
                let stdout = joined(
                    readable(reaped(old(supervisor)@, invocation.id, code), invocation.id, Stream::Stdout),
                );
                let outcome = conclusion(invocation@, code, stdout);
                match r {
                    Some(result) => delivery(old(self)@, invocation.id, outcome) == Some(result@),
                    None => delivery(old(self)@, invocation.id, outcome) is None,
                }
            }),
    {
        supervisor.reap(invocation.id, code);
        let stdout = supervisor.read_output(invocation.id, Stream::Stdout);
        let result = invocation.finish(code, &stdout);
        supervisor.release(invocation.id);
        self.finish(invocation.id, result.outcome)
    }

    /// Concludes a delegated call once its caller has been woken: the
    /// result is collected from the ticket, which is destroyed, and the task
    /// is retired with it. While the slot is empty nothing happens.
    pub fn conclude_call(&mut self, bridge: &mut AsyncBridge, id: u64) -> (r: Option<TaskResult>)
        ensures
            final(bridge)@ == taken(old(bridge)@, id),
            match resolved(old(bridge)@, id) {
                Some(collected) => {
                    &&& final(self)@ == finished(old(self)@, id)
                    &&& match r {
                        Some(result) => delivery(old(self)@, id, collected.outcome) == Some(result@),
                        None => delivery(old(self)@, id, collected.outcome) is None,
                    }
                },
                None => r is None && final(self)@ == old(self)@,
            },
    {
        match bridge.take(id) {
            Some(collected) => self.finish(id, collected.outcome),
            None => None,
        }
    }

    /// Hands out the events that have not been reported yet, oldest first.
    pub fn take_events(&mut self) -> (events: Vec<TaskEvent>)
        ensures
            events@ == old(self)@.events,
            final(self)@.events == Seq::<TaskEvent>::empty(),
            final(self)@.in_flight == old(self)@.in_flight,
    {
        let mut events: Vec<TaskEvent> = Vec::new();
        std::mem::swap(&mut events, &mut self.events);
        events
    }
}

impl Default for AgentCore {
    fn default() -> (r: Self)
        ensures
            r@.in_flight == Set::<u64>::empty(),
            r@.events == Seq::<TaskEvent>::empty(),
    {
        AgentCore::new()
    }
}

} // verus!
