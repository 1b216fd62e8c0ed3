//! The process supervisor's books: one handle per external process, from
//! the moment it is started until its exit status has been reaped and its
//! output read.
//!
//! The supervisor decides and records; starting a process, signalling it and
//! waiting for it are done by the runtime around it, which reports back what
//! happened.

use crate::chunks::chunk_views;
use crate::error::native_failure;
use crate::error::ErrorKind;
use crate::error::ErrorRecord;
use crate::error::KindView;
use std::collections::HashMap;
use vstd::prelude::*;

verus! {

broadcast use vstd::std_specs::hash::group_hash_axioms;

/// Where a process stands.
#[derive(Debug, Clone, Copy, PartialEq, Eq, Structural)]
pub enum ProcessState {
    Running,
    Exited(i32),
    Killed,
}

/// One of the two captured output streams of a process.
#[derive(Debug, Clone, Copy, PartialEq, Eq, Structural)]
pub enum Stream {
    Stdout,
    Stderr,
}

/// The supervisor's record of one process. The two queues hold the output
/// that has been captured and not yet read, chunk by chunk.
#[derive(Debug, Clone, PartialEq, Eq)]
pub struct ProcessHandle {
    pub pid: u32,
    pub state: ProcessState,
    /// Whether termination of the process has been asked for.
    pub kill_sent: bool,
    /// Whether the caller has lost interest in the process. The reaper
    /// still waits for it, and its handle goes as soon as it is reaped.
    pub abandoned: bool,
    pub stdout: Vec<Vec<u8>>,
    pub stderr: Vec<Vec<u8>>,
}

/// Mathematical model of a [`ProcessHandle`].
pub struct HandleView {
    pub pid: u32,
    pub state: ProcessState,
    pub kill_sent: bool,
    pub abandoned: bool,
    pub stdout: Seq<Seq<u8>>,
    pub stderr: Seq<Seq<u8>>,
}

impl View for ProcessHandle {
    type V = HandleView;

    open spec fn view(&self) -> HandleView {
        HandleView {
            pid: self.pid,
            state: self.state,
            kill_sent: self.kill_sent,
            abandoned: self.abandoned,
            stdout: chunk_views(self.stdout@),
            stderr: chunk_views(self.stderr@),
        }
    }
}

impl HandleView {
    /// The unread chunks of one stream.
    pub open spec fn unread(self, stream: Stream) -> Seq<Seq<u8>> {
        match stream {
            Stream::Stdout => self.stdout,
            Stream::Stderr => self.stderr,
        }
    }

    /// The handle with the unread chunks of one stream replaced.
    pub open spec fn with_unread(self, stream: Stream, chunks: Seq<Seq<u8>>) -> HandleView {
        match stream {
            Stream::Stdout => HandleView { stdout: chunks, ..self },
            Stream::Stderr => HandleView { stderr: chunks, ..self },
        }
    }
}

/// The handles of the supervisor, by correlation id.
pub type SupervisorView = Map<u64, HandleView>;

/// The handle of a process that has just been started.
pub open spec fn fresh_handle(pid: u32) -> HandleView {
    HandleView {
        pid,
        state: ProcessState::Running,
        kill_sent: false,
        abandoned: false,
        stdout: Seq::<Seq<u8>>::empty(),
        stderr: Seq::<Seq<u8>>::empty(),
    }
}

/// Whether the process of `id` is on the books and has not been reaped.
pub open spec fn is_running(handles: SupervisorView, id: u64) -> bool {
    handles.contains_key(id) && handles[id].state == ProcessState::Running
}

/// The books after a process was started under a new id.
pub open spec fn spawned(handles: SupervisorView, id: u64, pid: u32) -> SupervisorView {
    handles.insert(id, fresh_handle(pid))
}

/// The books after a chunk of output was captured.
pub open spec fn captured(handles: SupervisorView, id: u64, stream: Stream, chunk: Seq<u8>) -> SupervisorView {
    if handles.contains_key(id) {
        handles.insert(id, handles[id].with_unread(stream, handles[id].unread(stream).push(chunk)))
    } else {
        handles
    }
}

/// The chunks that a read of one stream yields: all that are unread.
pub open spec fn readable(handles: SupervisorView, id: u64, stream: Stream) -> Seq<Seq<u8>> {
    if handles.contains_key(id) {
        handles[id].unread(stream)
    } else {
        Seq::<Seq<u8>>::empty()
    }
}

/// The books after one stream was read.
pub open spec fn drained(handles: SupervisorView, id: u64, stream: Stream) -> SupervisorView {
    if handles.contains_key(id) {
        handles.insert(id, handles[id].with_unread(stream, Seq::<Seq<u8>>::empty()))
    } else {
        handles
    }
}

/// The process to signal when `id` is killed: its pid while it runs, none
/// once it has been reaped.
pub open spec fn kill_target(handles: SupervisorView, id: u64) -> Option<u32> {
    if is_running(handles, id) {
        Some(handles[id].pid)
    } else {
        None
    }
}

/// The books after `id` was killed.
pub open spec fn killed(handles: SupervisorView, id: u64) -> SupervisorView {
    if is_running(handles, id) {
        handles.insert(id, HandleView { kill_sent: true, ..handles[id] })
    } else {
        handles
    }
}

/// The books after the caller of `id` lost interest in it. A process that
/// still runs is marked, so that its handle goes when it is reaped; one
/// that has been reaped goes at once.
pub open spec fn abandoned(handles: SupervisorView, id: u64) -> SupervisorView {
    if is_running(handles, id) {
        handles.insert(id, HandleView { abandoned: true, ..handles[id] })
    } else {
        handles.remove(id)
    }
}

/// The books after the exit of `id` was observed. A process that was
/// killed is recorded as killed, whatever status it left. The handle of an
/// abandoned process goes, since nobody will ask for its status.
pub open spec fn reaped(handles: SupervisorView, id: u64, code: i32) -> SupervisorView {
    if is_running(handles, id) {
        if handles[id].abandoned {
            handles.remove(id)
        } else {
            let state = if handles[id].kill_sent {
                ProcessState::Killed
            } else {
                ProcessState::Exited(code)
            };
            handles.insert(id, HandleView { state, ..handles[id] })
        }
    } else {
        handles
    }
}

/// The exit status of `id`, once it has been reaped.
pub open spec fn exit_status(handles: SupervisorView, id: u64) -> Option<ProcessState> {
    if handles.contains_key(id) && handles[id].state != ProcessState::Running {
        Some(handles[id].state)
    } else {
        None
    }
}

/// The books after release of `id` was asked for: a reaped handle goes, a
/// running one stays.
pub open spec fn released(handles: SupervisorView, id: u64) -> SupervisorView {
    if exit_status(handles, id) is Some {
        handles.remove(id)
    } else {
        handles
    }
}

/// A process that is killed receives its signal, is recorded as killed
/// when it is reaped, whatever status it left, and leaves nothing behind
/// once it is released.
pub proof fn lemma_killed_process_is_reclaimed(handles: SupervisorView, id: u64, code: i32)
    requires
        is_running(handles, id),
        !handles[id].abandoned,
    ensures
        kill_target(handles, id) == Some(handles[id].pid),
        exit_status(reaped(killed(handles, id), id, code), id) == Some(ProcessState::Killed),
        !released(reaped(killed(handles, id), id, code), id).contains_key(id),
        released(reaped(killed(handles, id), id, code), id) == handles.remove(id),
{
    assert(released(reaped(killed(handles, id), id, code), id) =~= handles.remove(id));
}

/// Every process on the books can be reaped and released; what goes is
/// exactly its handle.
pub proof fn lemma_every_process_is_reclaimed(handles: SupervisorView, id: u64, code: i32)
    requires
        handles.contains_key(id),
    ensures
        released(reaped(handles, id, code), id) == handles.remove(id),
{
    assert(released(reaped(handles, id, code), id) =~= handles.remove(id));
}

/// A process whose caller lost interest is reclaimed all the same: its
/// handle stays for as long as it runs, so that the reaper still waits for
/// it, and goes when its exit is observed, with nothing more to be done.
pub proof fn lemma_abandoned_process_is_reclaimed(handles: SupervisorView, id: u64, code: i32)
    requires
        is_running(handles, id),
    ensures
        is_running(abandoned(handles, id), id),
        kill_target(abandoned(handles, id), id) == Some(handles[id].pid),
        reaped(abandoned(handles, id), id, code) == handles.remove(id),
        reaped(killed(abandoned(handles, id), id), id, code) == handles.remove(id),
{
    assert(reaped(abandoned(handles, id), id, code) =~= handles.remove(id));
    assert(reaped(killed(abandoned(handles, id), id), id, code) =~= handles.remove(id));
}

/// The exit status that was recorded first stays: a second exit report, or
/// a kill after the exit, changes nothing.
pub proof fn lemma_exit_status_is_final(handles: SupervisorView, id: u64, code: i32)
    requires
        exit_status(handles, id) is Some,
    ensures
        reaped(handles, id, code) == handles,
        killed(handles, id) == handles,
        kill_target(handles, id) is None,
{
}

/// A stream that has been read to its end reads as empty, again and again.
pub proof fn lemma_read_after_exhaustion(handles: SupervisorView, id: u64, stream: Stream)
    ensures
        readable(drained(handles, id, stream), id, stream) == Seq::<Seq<u8>>::empty(),
        drained(drained(handles, id, stream), id, stream) == drained(handles, id, stream),
{
    assert(drained(drained(handles, id, stream), id, stream) =~= drained(handles, id, stream));
}

/// The process supervisor.
#[derive(Debug)]
pub struct ProcessManager {
    handles: HashMap<u64, ProcessHandle>,
}

impl View for ProcessManager {
    type V = SupervisorView;

    closed spec fn view(&self) -> SupervisorView {
        self.handles@.map_values(|handle: ProcessHandle| handle@)
    }
}

impl ProcessManager {
    /// A supervisor with no process on its books.
    pub fn new() -> (r: Self)
        ensures
            r@ == Map::<u64, HandleView>::empty(),
    {
        let r = ProcessManager { handles: HashMap::new() };
        assert(r@ =~= Map::<u64, HandleView>::empty());
        r
    }

    /// Whether a handle exists for `id`.
    pub fn has_handle(&self, id: u64) -> (r: bool)
        ensures
            r == self@.contains_key(id),
    {
        self.handles.contains_key(&id)
    }

    /// The number of handles on the books. Every one of them stands for a
    /// process that still has to be reaped or released.
    pub fn handle_count(&self) -> (n: usize)
        ensures
            n == self@.len(),
    {
        proof {
            assert(self@.dom() =~= self.handles@.dom());
        }
        self.handles.len()
    }

    /// Enters a process that has just been started, under the correlation
    /// id of the task it serves. An id that is already on the books is
    /// refused as `DuplicateTask` and nothing changes.
    pub fn spawn_process(&mut self, id: u64, pid: u32) -> (r: Result<(), ErrorRecord>)
        ensures
            old(self)@.contains_key(id) ==> final(self)@ == old(self)@ && r is Err && r->Err_0@
                == native_failure(KindView::DuplicateTask, "a process with this id is supervised"@),
            !old(self)@.contains_key(id) ==> r is Ok && final(self)@ == spawned(old(self)@, id, pid),
    {
        if self.handles.contains_key(&id) {
            return Err(
                ErrorRecord::new(ErrorKind::DuplicateTask, "a process with this id is supervised"),
            );
        }
        let handle = ProcessHandle {
            pid,
            state: ProcessState::Running,
            kill_sent: false,
            abandoned: false,
            stdout: Vec::new(),
            stderr: Vec::new(),
        };
        assert(handle@.stdout =~= Seq::<Seq<u8>>::empty());
        assert(handle@.stderr =~= Seq::<Seq<u8>>::empty());
        self.handles.insert(id, handle);
        assert(self@ =~= spawned(old(self)@, id, pid));
        Ok(())
    }

    /// Queues a chunk of output that was read from the process. Returns
    /// whether a handle took it.
    pub fn capture(&mut self, id: u64, stream: Stream, chunk: Vec<u8>) -> (taken: bool)
        ensures
            final(self)@ == captured(old(self)@, id, stream, chunk@),
            taken == old(self)@.contains_key(id),
    {
        match self.handles.remove(&id) {
            None => {
                assert(self@ =~= old(self)@);
                false
            },
            Some(handle) => {
                let mut handle = handle;
                let ghost before = handle@;
                match stream {
                    Stream::Stdout => {
                        handle.stdout.push(chunk);
                        assert(handle@.stdout =~= before.stdout.push(chunk@));
                    },
                    Stream::Stderr => {
                        handle.stderr.push(chunk);
                        assert(handle@.stderr =~= before.stderr.push(chunk@));
                    },
                }
                self.handles.insert(id, handle);
                assert(self@ =~= captured(old(self)@, id, stream, chunk@));
                true
            },
        }
    }

    /// Reads one stream: hands out the chunks captured since the last read,
    /// oldest first. A stream with nothing unread, and a handle that does
    /// not exist, read as empty.
    pub fn read_output(&mut self, id: u64, stream: Stream) -> (chunks: Vec<Vec<u8>>)
        ensures
            chunk_views(chunks@) == readable(old(self)@, id, stream),
            final(self)@ == drained(old(self)@, id, stream),
    {
        match self.handles.remove(&id) {
            None => {
                assert(self@ =~= old(self)@);
                let chunks: Vec<Vec<u8>> = Vec::new();
                assert(chunk_views(chunks@) =~= Seq::<Seq<u8>>::empty());
                chunks
            },
            Some(handle) => {
                let (chunks, rest) = match stream {
                    Stream::Stdout => (
                        handle.stdout,
                        ProcessHandle {
                            pid: handle.pid,
                            state: handle.state,
                            kill_sent: handle.kill_sent,
                            abandoned: handle.abandoned,
                            stdout: Vec::new(),
                            stderr: handle.stderr,
                        },
                    ),
                    Stream::Stderr => (
                        handle.stderr,
                        ProcessHandle {
                            pid: handle.pid,
                            state: handle.state,
                            kill_sent: handle.kill_sent,
                            abandoned: handle.abandoned,
                            stdout: handle.stdout,
                            stderr: Vec::new(),
                        },
                    ),
                };
                assert(rest@.unread(stream) =~= Seq::<Seq<u8>>::empty());
                self.handles.insert(id, rest);
                assert(self@ =~= drained(old(self)@, id, stream));
                chunks
            },
        }
    }

    /// Kills a process: returns the pid that is to receive the termination
    /// signal, and notes that it was sent. A process that has been reaped,
    /// or that is not on the books, has nothing left to signal.
    pub fn kill(&mut self, id: u64) -> (target: Option<u32>)
        ensures
            target == kill_target(old(self)@, id),
            final(self)@ == killed(old(self)@, id),
    {
        match self.handles.remove(&id) {
            None => {
                assert(self@ =~= old(self)@);
                None
            },
            Some(handle) => {
                let running = match handle.state {
                    ProcessState::Running => true,
                    _ => false,
                };
                let target = if running {
                    Some(handle.pid)
                } else {
                    None
                };
                let updated = ProcessHandle {
                    pid: handle.pid,
                    state: handle.state,
                    kill_sent: handle.kill_sent || running,
                    abandoned: handle.abandoned,
                    stdout: handle.stdout,
                    stderr: handle.stderr,
                };
                self.handles.insert(id, updated);
                assert(self@ =~= killed(old(self)@, id));
                target
            },
        }
    }

    /// Notes that the caller has lost interest in a process. The process
    /// stays on the books while it runs, so that it is still reaped; its
    /// handle goes when that happens, or at once if it has happened.
    pub fn abandon(&mut self, id: u64)
        ensures
            final(self)@ == abandoned(old(self)@, id),
    {
        match self.handles.remove(&id) {
            None => {
                assert(self@ =~= abandoned(old(self)@, id));
            },
            Some(handle) => {
                let running = match handle.state {
                    ProcessState::Running => true,
                    _ => false,
                };
                if running {
                    let updated = ProcessHandle {
                        pid: handle.pid,
                        state: handle.state,
                        kill_sent: handle.kill_sent,
                        abandoned: true,
                        stdout: handle.stdout,
                        stderr: handle.stderr,
                    };
                    self.handles.insert(id, updated);
                }
                assert(self@ =~= abandoned(old(self)@, id));
            },
        }
    }

    /// Records the exit of a process, as the reaper observed it. Returns
    /// whether this was the first report of its exit.
    pub fn reap(&mut self, id: u64, code: i32) -> (first: bool)
        ensures
            first == is_running(old(self)@, id),
            final(self)@ == reaped(old(self)@, id, code),
    {
        match self.handles.remove(&id) {
            None => {
                assert(self@ =~= old(self)@);
                false
            },
            Some(handle) => {
                let running = match handle.state {
                    ProcessState::Running => true,
                    _ => false,
                };
                if running && handle.abandoned {
                    assert(self@ =~= reaped(old(self)@, id, code));
                    return true;
                }
                let state = if !running {
                    handle.state
                } else if handle.kill_sent {
                    ProcessState::Killed
                } else {
                    ProcessState::Exited(code)
                };
                let updated = ProcessHandle {
                    pid: handle.pid,
                    state,
                    kill_sent: handle.kill_sent,
                    abandoned: handle.abandoned,
                    stdout: handle.stdout,
                    stderr: handle.stderr,
                };
                self.handles.insert(id, updated);
                assert(self@ =~= reaped(old(self)@, id, code));
                running
            },
        }
    }

    /// The exit status of a process: none while it runs, and none for an id
    /// that is not on the books.
    pub fn wait(&self, id: u64) -> (status: Option<ProcessState>)
        ensures
            status == exit_status(self@, id),
    {
        match self.handles.get(&id) {
            Some(handle) => match handle.state {
                ProcessState::Running => None,
                ProcessState::Exited(code) => Some(ProcessState::Exited(code)),
                ProcessState::Killed => Some(ProcessState::Killed),
            },
            None => None,
        }
    }

    /// Destroys the handle of a process that has been reaped. A process
    /// that still runs keeps its handle, so that it cannot be lost. Returns
    /// whether the handle went.
    pub fn release(&mut self, id: u64) -> (gone: bool)
        ensures
            gone == (exit_status(old(self)@, id) is Some),
            final(self)@ == released(old(self)@, id),
    {
        if self.wait(id).is_none() {
            return false;
        }
        self.handles.remove(&id);
        assert(self@ =~= released(old(self)@, id));
        true
    }
}

impl Default for ProcessManager {
    fn default() -> (r: Self)
        ensures
            r@ == Map::<u64, HandleView>::empty(),
    {
        ProcessManager::new()
    }
}

} // verus!
