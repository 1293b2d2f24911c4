//! Supervision of one external process: the command line it is launched
//! with and the handle of the live child, if any.
//!
//! The supervisor never touches the operating system itself. The caller
//! asks it for the argument vector, performs the spawn, and hands the
//! outcome back; whenever an operation releases a handle, the caller
//! receives it and must terminate that process. Under this protocol the
//! supervisor owns at most one live child at any observation point, which
//! `lemma_at_most_one_live` states over arbitrary operation sequences.

use vstd::prelude::*;

verus! {

use crate::OrchestratorError;

/// An opaque identifier for a spawned child process.
pub type ProcessHandle = u64;

/// Owns the command template and the handle of one external process.
pub struct CommandManager {
    /// The executable to launch.
    pub command: String,
    /// Its arguments, space-separated, if any.
    pub args: Option<String>,
    /// The live child, absent when nothing is running.
    pub handler: Option<ProcessHandle>,
}

/// One lifecycle operation on a supervisor, carrying the spawn outcome
/// where the operation launches a process.
pub enum SupervisorOp {
    Start(Option<ProcessHandle>),
    Replace(Seq<char>, Option<Seq<char>>, Option<ProcessHandle>),
    Stop,
}

/// What happens to child processes while an operation runs: a handle is
/// released to the caller to be terminated, or a fresh child is recorded.
pub enum HandleEvent {
    Released(ProcessHandle),
    Recorded(ProcessHandle),
}

/// The supervisor as the lifecycle model sees it.
pub struct SupervisorModel {
    pub command: Seq<char>,
    pub args: Option<Seq<char>>,
    pub handler: Option<ProcessHandle>,
}

impl View for CommandManager {
    type V = SupervisorModel;

    open spec fn view(&self) -> SupervisorModel {
        SupervisorModel {
            command: self.command@,
            args: match self.args {
                Some(a) => Some(a@),
                None => None,
            },
            handler: self.handler,
        }
    }
}

/// The handle events an operation performs, in order: the old child is
/// released before any new one is recorded.
pub open spec fn op_events(st: SupervisorModel, op: SupervisorOp) -> Seq<HandleEvent> {
    let released: Seq<HandleEvent> = match st.handler {
        Some(h) => seq![HandleEvent::Released(h)],
        None => Seq::empty(),
    };
    match op {
        SupervisorOp::Stop => released,
        SupervisorOp::Start(spawned) | SupervisorOp::Replace(_, _, spawned) => match spawned {
            Some(h) => released.push(HandleEvent::Recorded(h)),
            None => released,
        },
    }
}

/// The supervisor state after one operation.
pub open spec fn op_step(st: SupervisorModel, op: SupervisorOp) -> SupervisorModel {
    match op {
        SupervisorOp::Stop => SupervisorModel { handler: None, ..st },
        SupervisorOp::Start(spawned) => SupervisorModel { handler: spawned, ..st },
        SupervisorOp::Replace(command, args, spawned) => SupervisorModel {
            command,
            args,
            handler: spawned,
        },
    }
}

/// How many children recorded by this supervisor are still live after a
/// sequence of handle events, counting each recording as a birth and each
/// release as a termination performed by the caller.
pub open spec fn live_children(events: Seq<HandleEvent>) -> int
    decreases events.len(),
{
    if events.len() == 0 {
        0
    } else {
        live_children(events.drop_last()) + match events.last() {
            HandleEvent::Recorded(_) => 1int,
            HandleEvent::Released(_) => -1int,
        }
    }
}

/// The state reached from `st` by a sequence of operations.
pub open spec fn run_ops(st: SupervisorModel, ops: Seq<SupervisorOp>) -> SupervisorModel
    decreases ops.len(),
{
    if ops.len() == 0 {
        st
    } else {
        op_step(run_ops(st, ops.drop_last()), ops.last())
    }
}

/// All handle events performed while running `ops` from `st`, in order.
pub open spec fn run_events(st: SupervisorModel, ops: Seq<SupervisorOp>) -> Seq<HandleEvent>
    decreases ops.len(),
{
    if ops.len() == 0 {
        Seq::empty()
    } else {
        run_events(st, ops.drop_last()) + op_events(
            run_ops(st, ops.drop_last()),
            ops.last(),
        )
    }
}

proof fn lemma_live_children_add(a: Seq<HandleEvent>, b: Seq<HandleEvent>)
    ensures
        live_children(a + b) == live_children(a) + live_children(b),
    decreases b.len(),
{
    if b.len() == 0 {
        assert(a + b =~= a);
    } else {
        lemma_live_children_add(a, b.drop_last());
        assert((a + b).drop_last() =~= a + b.drop_last());
        assert((a + b).last() == b.last());
    }
}

proof fn lemma_op_live(st: SupervisorModel, op: SupervisorOp)
    ensures
        live_children(op_events(st, op)) == live_count(op_step(st, op).handler) - live_count(
            st.handler,
        ),
{
    reveal_with_fuel(live_children, 3);
}

/// 1 when a handle is held, 0 otherwise.
pub open spec fn live_count(handler: Option<ProcessHandle>) -> int {
    match handler {
        Some(_) => 1,
        None => 0,
    }
}

/// After any sequence of operations the number of live children equals 1
/// when a handle is held and 0 otherwise.
proof fn lemma_run_live(st: SupervisorModel, ops: Seq<SupervisorOp>)
    ensures
        live_children(run_events(st, ops)) == live_count(run_ops(st, ops).handler) - live_count(
            st.handler,
        ),
    decreases ops.len(),
{
    if ops.len() > 0 {
        lemma_run_live(st, ops.drop_last());
        lemma_live_children_add(
            run_events(st, ops.drop_last()),
            op_events(run_ops(st, ops.drop_last()), ops.last()),
        );
        lemma_op_live(run_ops(st, ops.drop_last()), ops.last());
    }
}

/// At most one live child per supervisor: for every sequence of start,
/// replace and stop operations from a supervisor holding no handle, and at
/// every observation point along it, at most one child recorded by this
/// supervisor is live, so no orphaned duplicate process ever exists.
pub proof fn lemma_at_most_one_live(st: SupervisorModel, ops: Seq<SupervisorOp>, k: int)
    requires
        st.handler is None,
        0 <= k <= ops.len(),
    ensures
        live_children(run_events(st, ops.take(k))) <= 1,
        live_children(run_events(st, ops.take(k))) == live_count(run_ops(st, ops.take(k)).handler),
{
    lemma_run_live(st, ops.take(k));
}

impl CommandManager {
    /// A supervisor for `command`, with nothing running yet.
    pub fn new(command: &str, args: Option<String>) -> (m: CommandManager)
        ensures
            m@.command == command@,
            m@.args == (match args {
                Some(a) => Some(a@),
                None => None::<Seq<char>>,
            }),
            m@.handler is None,
    {
        CommandManager { command: String::from_str(command), args, handler: None }
    }

    /// Record the outcome of launching the stored command: the fresh
    /// handle on success, or a spawn failure. The caller must hold no
    /// live child, having stopped or replaced any earlier one first.
    pub fn start_command(&mut self, spawned: Option<ProcessHandle>) -> (r: Result<
        (),
        OrchestratorError,
    >)
        requires
            old(self)@.handler is None,
        ensures
            final(self)@ == op_step(old(self)@, SupervisorOp::Start(spawned)),
            r is Ok <==> spawned is Some,
            r is Err ==> r == Err::<(), OrchestratorError>(OrchestratorError::SpawnFailed),
    {
        self.handler = spawned;
        match self.handler {
            Some(_) => Ok(()),
            None => Err(OrchestratorError::SpawnFailed),
        }
    }

    /// Swap in a new command line. The previous handle, if any, is
    /// released and returned; the caller must terminate that process
    /// before launching the new command.
    pub fn reset_command(&mut self, new_command: String, new_args: Option<String>) -> (released:
        Option<ProcessHandle>)
        ensures
            final(self)@ == op_step(
                old(self)@,
                SupervisorOp::Replace(
                    new_command@,
                    match new_args {
                        Some(a) => Some(a@),
                        None => None::<Seq<char>>,
                    },
                    None,
                ),
            ),
            released == old(self)@.handler,
    {
        let released = self.handler.take();
        self.command = new_command;
        self.args = new_args;
        released
    }

    /// Release the live handle, if any, for the caller to terminate.
    /// A no-op when nothing is running.
    pub fn stop_command(&mut self) -> (released: Option<ProcessHandle>)
        ensures
            final(self)@ == op_step(old(self)@, SupervisorOp::Stop),
            released == old(self)@.handler,
    {
        self.handler.take()
    }
}

} // verus!
