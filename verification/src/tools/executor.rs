//! The tool executor: which tools may run, within which limits, and what
//! each invocation comes to.
//!
//! An invocation is followed event by event. The runtime around it reports
//! output as it is captured, the passing of time, and the exit; the executor
//! answers each report with what is to be done, and the exit with the task's
//! result.

use crate::chunks::chunk_views;
use crate::chunks::join_chunks;
use crate::chunks::joined;
use crate::error::native_failure;
use crate::error::ErrorKind;
use crate::error::ErrorRecord;
use crate::error::KindView;
use crate::task::copy_texts;
use crate::task::text_views;
use crate::task::OutcomeView;
use crate::task::TaskResult;
use crate::task::TaskResultView;
use crate::text::decode_text;
use crate::text::same_text;
use crate::tools::process::exit_status;
use crate::tools::process::is_running;
use crate::tools::process::kill_target;
use crate::tools::process::killed;
use crate::tools::process::lemma_killed_process_is_reclaimed;
use crate::tools::process::reaped;
use crate::tools::process::released;
use crate::tools::process::ProcessState;
use crate::tools::process::SupervisorView;
use crate::value::Value;
use crate::value::ValueView;
use vstd::prelude::*;
use vstd::utf8::*;

verus! {

/// The bounds within which a tool runs.
#[derive(Debug, Clone, Copy, PartialEq, Eq, Structural)]
pub struct Limits {
    /// Wall-clock time the process may take, in milliseconds.
    pub timeout_ms: u64,
    /// Output the process may write, both streams together, in bytes.
    pub max_output_bytes: u64,
}

impl Default for Limits {
    /// Thirty seconds and one mebibyte.
    fn default() -> (r: Self)
        ensures
            r == (Limits { timeout_ms: 30_000, max_output_bytes: 1_048_576 }),
    {
        Limits { timeout_ms: 30_000, max_output_bytes: 1_048_576 }
    }
}

/// Why the executor asked for a process to be terminated.
#[derive(Debug, Clone, Copy, PartialEq, Eq, Structural)]
pub enum Stop {
    TimedOut,
    OutputLimit,
    Cancelled,
}

/// What the runtime is to do after a report.
#[derive(Debug, Clone, Copy, PartialEq, Eq, Structural)]
pub enum Action {
    /// Nothing; keep supervising.
    Continue,
    /// Terminate the process now.
    Kill,
}

/// One run of a tool, as far as the executor has followed it.
#[derive(Debug, Clone, PartialEq, Eq)]
pub struct Invocation {
    /// The correlation id of the task; the supervisor knows the process
    /// under the same id.
    pub id: u64,
    pub command: String,
    pub args: Vec<String>,
    pub limits: Limits,
    /// The instant at which the invocation was admitted, in milliseconds.
    pub started_at: u64,
    /// Output seen so far, in bytes.
    pub output_bytes: u64,
    /// Set once termination has been asked for; the first reason stays.
    pub stop: Option<Stop>,
}

/// Mathematical model of an [`Invocation`].
pub struct InvocationView {
    pub id: u64,
    pub command: Seq<char>,
    pub args: Seq<Seq<char>>,
    pub limits: Limits,
    pub started_at: u64,
    pub output_bytes: u64,
    pub stop: Option<Stop>,
}

impl View for Invocation {
    type V = InvocationView;

    open spec fn view(&self) -> InvocationView {
        InvocationView {
            id: self.id,
            command: self.command@,
            args: text_views(self.args@),
            limits: self.limits,
            started_at: self.started_at,
            output_bytes: self.output_bytes,
            stop: self.stop,
        }
    }
}

/// The invocation that is admitted for a tool: the command is the tool's
/// name and the arguments are passed on verbatim.
pub open spec fn admitted(
    id: u64,
    tool_name: Seq<char>,
    args: Seq<Seq<char>>,
    limits: Limits,
    now: u64,
) -> InvocationView {
    InvocationView {
        id,
        command: tool_name,
        args,
        limits,
        started_at: now,
        output_bytes: 0,
        stop: None,
    }
}

/// Milliseconds that have passed since the invocation was admitted. A clock
/// that reads earlier than the start counts as no time passed.
pub open spec fn elapsed(inv: InvocationView, now: u64) -> int {
    if now >= inv.started_at {
        now - inv.started_at
    } else {
        0
    }
}

/// The first reason to stop stays; a new one counts only where there was
/// none.
pub open spec fn first_stop(current: Option<Stop>, reason: Option<Stop>) -> Option<Stop> {
    if current is Some {
        current
    } else {
        reason
    }
}

/// The invocation after `len` more bytes of output were seen. The limit is
/// judged on the true sum; the count that is kept saturates.
pub open spec fn after_output(inv: InvocationView, len: nat) -> InvocationView {
    let total: u64 = if inv.output_bytes + len > u64::MAX {
        u64::MAX
    } else {
        (inv.output_bytes + len) as u64
    };
    let reason = if inv.output_bytes + len > inv.limits.max_output_bytes {
        Some(Stop::OutputLimit)
    } else {
        None
    };
    InvocationView { output_bytes: total, stop: first_stop(inv.stop, reason), ..inv }
}

/// The invocation after the clock was read at `now`.
pub open spec fn after_tick(inv: InvocationView, now: u64) -> InvocationView {
    let reason = if elapsed(inv, now) >= inv.limits.timeout_ms {
        Some(Stop::TimedOut)
    } else {
        None
    };
    InvocationView { stop: first_stop(inv.stop, reason), ..inv }
}

/// The invocation after its cancellation was asked for.
pub open spec fn after_cancel(inv: InvocationView) -> InvocationView {
    InvocationView { stop: first_stop(inv.stop, Some(Stop::Cancelled)), ..inv }
}

/// What the runtime is to do after a report: kill the process exactly when
/// the report gave the first reason to stop.
pub open spec fn action_for(before: InvocationView, after: InvocationView) -> Action {
    if before.stop is None && after.stop is Some {
        Action::Kill
    } else {
        Action::Continue
    }
}

/// The value in which captured output is handed on: text where the bytes
/// are UTF-8, the bytes themselves where they are not.
pub open spec fn output_value(bytes: Seq<u8>) -> ValueView {
    if valid_utf8(bytes) {
        ValueView::Text(decode_utf8(bytes))
    } else {
        ValueView::Bytes(bytes)
    }
}

/// How an invocation ends, given the exit code of its process and all that
/// it wrote to standard output. A reason to stop outranks the exit code.
pub open spec fn conclusion(inv: InvocationView, code: i32, stdout: Seq<u8>) -> OutcomeView {
    match inv.stop {
        Some(Stop::TimedOut) => Err(
            native_failure(KindView::Timeout, "tool exceeded its wall-clock limit"@),
        ),
        Some(Stop::OutputLimit) => Err(
            native_failure(KindView::OutputLimitExceeded, "tool exceeded its output limit"@),
        ),
        Some(Stop::Cancelled) => Err(native_failure(KindView::Cancelled, "tool run was cancelled"@)),
        None => if code == 0 {
            Ok(output_value(stdout))
        } else {
            Err(native_failure(KindView::ProcessFailure(code), "tool exited with a failure status"@))
        },
    }
}

/// Once there is a reason to stop, no later report changes it.
pub proof fn lemma_stop_is_final(inv: InvocationView, len: nat, now: u64)
    requires
        inv.stop is Some,
    ensures
        after_output(inv, len).stop == inv.stop,
        after_tick(inv, now).stop == inv.stop,
        after_cancel(inv).stop == inv.stop,
        action_for(inv, after_output(inv, len)) == Action::Continue,
        action_for(inv, after_tick(inv, now)) == Action::Continue,
        action_for(inv, after_cancel(inv)) == Action::Continue,
{
}

/// A tool that is still running when its wall-clock limit is reached is
/// killed and reaped, its task ends in `Timeout` whatever the process does
/// afterwards, and no handle is left behind.
pub proof fn lemma_timeout_kills_and_reclaims(
    inv: InvocationView,
    handles: SupervisorView,
    now: u64,
    code: i32,
    stdout: Seq<u8>,
)
    requires
        inv.stop is None,
        elapsed(inv, now) >= inv.limits.timeout_ms,
        is_running(handles, inv.id),
        !handles[inv.id].abandoned,
    ensures
        action_for(inv, after_tick(inv, now)) == Action::Kill,
        kill_target(handles, inv.id) == Some(handles[inv.id].pid),
        exit_status(reaped(killed(handles, inv.id), inv.id, code), inv.id) == Some(
            ProcessState::Killed,
        ),
        conclusion(after_tick(inv, now), code, stdout) == Err::<ValueView, _>(
            native_failure(KindView::Timeout, "tool exceeded its wall-clock limit"@),
        ),
        released(reaped(killed(handles, inv.id), inv.id, code), inv.id) == handles.remove(inv.id),
        !released(reaped(killed(handles, inv.id), inv.id, code), inv.id).contains_key(inv.id),
{
    lemma_killed_process_is_reclaimed(handles, inv.id, code);
}

/// Output beyond the limit stops the invocation at once, and its task ends
/// in `OutputLimitExceeded`.
pub proof fn lemma_output_limit_stops(inv: InvocationView, len: nat, code: i32, stdout: Seq<u8>)
    requires
        inv.stop is None,
        inv.output_bytes + len > inv.limits.max_output_bytes,
    ensures
        action_for(inv, after_output(inv, len)) == Action::Kill,
        conclusion(after_output(inv, len), code, stdout) == Err::<ValueView, _>(
            native_failure(KindView::OutputLimitExceeded, "tool exceeded its output limit"@),
        ),
{
}

impl Invocation {
    /// Reports `len` more bytes of captured output.
    pub fn on_output(&mut self, len: usize) -> (action: Action)
        ensures
            final(self)@ == after_output(old(self)@, len as nat),
            action == action_for(old(self)@, final(self)@),
    {
        let len64: u64 = len as u64;
        let overflow = len64 > u64::MAX - self.output_bytes;
        let total: u64 = if overflow {
            u64::MAX
        } else {
            self.output_bytes + len64
        };
        self.output_bytes = total;
        if self.stop.is_none() && (overflow || total > self.limits.max_output_bytes) {
            self.stop = Some(Stop::OutputLimit);
            Action::Kill
        } else {
            Action::Continue
        }
    }

    /// Reports the time.
    pub fn on_tick(&mut self, now: u64) -> (action: Action)
        ensures
            final(self)@ == after_tick(old(self)@, now),
            action == action_for(old(self)@, final(self)@),
    {
        let passed: u64 = if now >= self.started_at {
            now - self.started_at
        } else {
            0
        };
        if self.stop.is_none() && passed >= self.limits.timeout_ms {
            self.stop = Some(Stop::TimedOut);
            Action::Kill
        } else {
            Action::Continue
        }
    }

    /// Asks for the run to be cancelled.
    pub fn cancel(&mut self) -> (action: Action)
        ensures
            final(self)@ == after_cancel(old(self)@),
            action == action_for(old(self)@, final(self)@),
    {
        if self.stop.is_none() {
            self.stop = Some(Stop::Cancelled);
            Action::Kill
        } else {
            Action::Continue
        }
    }

    /// Concludes the invocation once its process has been reaped: the
    /// task's result, under the task's id.
    pub fn finish(&self, code: i32, stdout: &Vec<Vec<u8>>) -> (result: TaskResult)
        ensures
            result@ == (TaskResultView {
                id: self.id,
                outcome: conclusion(self@, code, joined(chunk_views(stdout@))),
            }),
    {
        let outcome = match self.stop {
            Some(Stop::TimedOut) => Err(
                ErrorRecord::new(ErrorKind::Timeout, "tool exceeded its wall-clock limit"),
            ),
            Some(Stop::OutputLimit) => Err(
                ErrorRecord::new(ErrorKind::OutputLimitExceeded, "tool exceeded its output limit"),
            ),
            Some(Stop::Cancelled) => Err(
                ErrorRecord::new(ErrorKind::Cancelled, "tool run was cancelled"),
            ),
            None => if code == 0 {
                let bytes = join_chunks(stdout);
                match decode_text(bytes.as_slice()) {
                    Some(text) => Ok(Value::Text(text)),
                    None => Ok(Value::Bytes(bytes)),
                }
            } else {
                Err(
                    ErrorRecord::new(
                        ErrorKind::ProcessFailure(code),
                        "tool exited with a failure status",
                    ),
                )
            },
        };
        TaskResult { id: self.id, outcome }
    }
}

/// The policy layer over the supervisor: the allow-list of tools.
#[derive(Debug, Clone, PartialEq, Eq)]
pub struct ToolExecutor {
    allowed: Vec<String>,
}

impl View for ToolExecutor {
    type V = Set<Seq<char>>;

    /// The names on the allow-list.
    closed spec fn view(&self) -> Set<Seq<char>> {
        Set::new(
            |name: Seq<char>|
                exists|i: int| 0 <= i < self.allowed@.len() && (#[trigger] self.allowed@[i])@ == name,
        )
    }
}

impl ToolExecutor {
    /// An executor whose allow-list is empty: it admits nothing yet.
    pub fn new() -> (r: Self)
        ensures
            r@ == Set::<Seq<char>>::empty(),
    {
        let r = ToolExecutor { allowed: Vec::new() };
        assert(r@ =~= Set::<Seq<char>>::empty());
        r
    }

    /// Puts a tool on the allow-list.
    pub fn register(&mut self, tool_name: &str)
        ensures
            final(self)@ == old(self)@.insert(tool_name@),
    {
        self.allowed.push(tool_name.to_owned());
        proof {
            let last = self.allowed@.len() - 1;
            assert(self.allowed@[last]@ == tool_name@);
            assert forall|name: Seq<char>| self@.contains(name) <==> old(self)@.insert(
                tool_name@,
            ).contains(name) by {
                if old(self)@.contains(name) {
                    let i = choose|i: int|
                        0 <= i < old(self).allowed@.len() && (#[trigger] old(self).allowed@[i])@
                            == name;
                    assert(self.allowed@[i]@ == name);
                }
                if self@.contains(name) {
                    let i = choose|i: int|
                        0 <= i < self.allowed@.len() && (#[trigger] self.allowed@[i])@ == name;
                    if i < last {
                        assert(old(self).allowed@[i]@ == name);
                    }
                }
            }
            assert(self@ =~= old(self)@.insert(tool_name@));
        }
    }

    /// Whether a tool is on the allow-list.
    pub fn is_registered(&self, tool_name: &str) -> (r: bool)
        ensures
            r == self@.contains(tool_name@),
    {
        let mut i: usize = 0;
        while i < self.allowed.len()
            invariant
                i <= self.allowed.len(),
                forall|k: int| 0 <= k < i ==> (#[trigger] self.allowed@[k])@ != tool_name@,
            decreases self.allowed.len() - i,
        {
            if same_text(self.allowed[i].as_str(), tool_name) {
                return true;
            }
            i += 1;
        }
        false
    }

    /// Admits a tool invocation at the instant `now`. A tool that is not on
    /// the allow-list is refused as `UnknownTool`, and since nothing is
    /// handed back to start, nothing is started. An admitted invocation
    /// carries the tool's name as its command and the arguments exactly as
    /// they were given.
    pub fn execute_tool(
        &self,
        id: u64,
        tool_name: &str,
        args: &Vec<String>,
        limits: Limits,
        now: u64,
    ) -> (r: Result<Invocation, ErrorRecord>)
        ensures
            self@.contains(tool_name@) ==> r is Ok && r->Ok_0@ == admitted(
                id,
                tool_name@,
                text_views(args@),
                limits,
                now,
            ),
            !self@.contains(tool_name@) ==> r is Err && r->Err_0@ == native_failure(
                KindView::UnknownTool,
                "tool is not on the allow-list"@,
            ),
    {
        if !self.is_registered(tool_name) {
            return Err(ErrorRecord::new(ErrorKind::UnknownTool, "tool is not on the allow-list"));
        }
        Ok(
            Invocation {
                id,
                command: tool_name.to_owned(),
                args: copy_texts(args),
                limits,
                started_at: now,
                output_bytes: 0,
                stop: None,
            },
        )
    }
}

impl Default for ToolExecutor {
    fn default() -> (r: Self)
        ensures
            r@ == Set::<Seq<char>>::empty(),
    {
        ToolExecutor::new()
    }
}

} // verus!
