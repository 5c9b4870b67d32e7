use vstd::prelude::*;

use crate::command::{spec_needs_reply, EnclaveProcessCommandType};
use crate::enclave_event::{spec_handle_enclave_event, spec_hangup_bit, HandledEnclaveEvent};
use crate::errno::{eacces, eexist, einval, spec_eacces, spec_eexist, spec_einval};
use crate::listener::{ConnectionListener, ListenerState, ListenerView};

verus! {

/// The outside work that a command asks for before its status is known.
#[derive(Clone, Copy, Debug, PartialEq, Eq, Structural)]
pub enum Plan {
    /// No outside work: the status follows from the loop's state alone.
    Immediate,
    /// Read the run configuration, create the enclave, open the listening
    /// address and fetch the enclave hardware descriptor.
    RunEnclave,
    /// Open a completion channel and spawn the background termination task.
    SpawnTermination,
    /// Fetch the console identifier and write it to the connection.
    SendCid,
    /// Write the confirmation marker, then the enclave's description.
    DescribeEnclave,
}

/// What came of the outside work of a command.
pub enum Outcome {
    /// The work was done, or none was asked for.
    Served,
    /// The enclave runs, under this identity and hardware descriptor.
    EnclaveRunning { enclave_id: String, descriptor: i32 },
    /// The termination task runs and will report on this channel.
    TerminationStarted { channel: i32 },
    /// A step of the work failed.
    Failed,
}

/// The abstract value of an `Outcome`.
pub enum OutcomeView {
    Served,
    EnclaveRunning { enclave_id: Seq<char>, descriptor: i32 },
    TerminationStarted { channel: i32 },
    Failed,
}

impl View for Outcome {
    type V = OutcomeView;

    open spec fn view(&self) -> OutcomeView {
        match self {
            Outcome::Served => OutcomeView::Served,
            Outcome::EnclaveRunning { enclave_id, descriptor } => OutcomeView::EnclaveRunning {
                enclave_id: enclave_id@,
                descriptor: *descriptor,
            },
            Outcome::TerminationStarted { channel } => OutcomeView::TerminationStarted {
                channel: *channel,
            },
            Outcome::Failed => OutcomeView::Failed,
        }
    }
}

/// What the loop does once a command is handled.
#[derive(Clone, Copy, Debug, PartialEq, Eq, Structural)]
pub struct Conclusion {
    /// The status code of the command.
    pub status: i32,
    /// Whether the status is written back to the sender.
    pub reply: bool,
    /// Whether the loop ends; the listener is then already stopped.
    pub exit: bool,
    /// Whether the termination task must be joined before the reply.
    pub join_termination: bool,
}

/// What the loop does after looking at the event flags of a ready connection.
#[derive(Clone, Copy, Debug, PartialEq, Eq, Structural)]
pub enum LoopStep {
    /// The connection carries a command: read it.
    ReadCommand,
    /// Nothing more to do for this connection.
    Continue,
    /// The loop ends; join the termination task first if asked.
    Exit { join_termination: bool },
}

/// The state of one run of the event loop.
pub struct EventLoop {
    enclave_id: String,
    listener: ConnectionListener,
    termination_pending: bool,
    done: bool,
    failed: bool,
}

/// The abstract state of the event loop.
pub struct EventLoopView {
    /// The identity of the running enclave; empty while none runs.
    pub enclave_id: Seq<char>,
    pub listener: ListenerView,
    /// Whether a termination task runs that has not been joined.
    pub termination_pending: bool,
    /// Whether the loop has left its running state.
    pub done: bool,
    /// Whether the loop ended on an error.
    pub failed: bool,
}

impl View for EventLoop {
    type V = EventLoopView;

    closed spec fn view(&self) -> EventLoopView {
        EventLoopView {
            enclave_id: self.enclave_id@,
            listener: self.listener@,
            termination_pending: self.termination_pending,
            done: self.done,
            failed: self.failed,
        }
    }
}

impl EventLoopView {
    /// The listener is stopped exactly when the loop is done; a finished
    /// loop has joined its termination task; only a finished loop failed.
    pub open spec fn wf(&self) -> bool {
        &&& self.listener.wf()
        &&& self.done <==> self.listener.state == ListenerState::Stopped
        &&& self.done ==> !self.termination_pending
        &&& self.failed ==> self.done
    }

    /// Whether an enclave runs.
    pub open spec fn is_active(&self) -> bool {
        self.enclave_id.len() > 0
    }

    /// Leaves the running state: the listener is stopped, the termination
    /// task is joined.
    pub open spec fn finish(self, failed: bool) -> EventLoopView {
        EventLoopView {
            listener: self.listener.stop(),
            termination_pending: false,
            done: true,
            failed,
            ..self
        }
    }
}

/// The descriptors to wait on next, by way of the enclave descriptor to pass
/// along; `None` once the loop is done, when no wait may be issued.
pub open spec fn spec_next_wait(s: EventLoopView) -> Option<Option<i32>> {
    if s.done {
        None
    } else {
        Some(s.listener.enclave_fd)
    }
}

/// The loop's answer to the classified event flags of a ready connection;
/// `Err` when the flags could not be read.
pub open spec fn spec_after_enclave_event(
    s: EventLoopView,
    ev: Result<HandledEnclaveEvent, ()>,
) -> (EventLoopView, LoopStep) {
    match ev {
        Result::Err(_) => (s.finish(true), LoopStep::Exit { join_termination: s.termination_pending }),
        Result::Ok(HandledEnclaveEvent::HangUp(_)) => (
            s.finish(false),
            LoopStep::Exit { join_termination: s.termination_pending },
        ),
        Result::Ok(HandledEnclaveEvent::Unexpected(_)) => (s, LoopStep::Continue),
        Result::Ok(HandledEnclaveEvent::NoEvent) => (s, LoopStep::ReadCommand),
    }
}

/// The outside work that `cmd` asks for in state `s`.
pub open spec fn spec_plan(s: EventLoopView, cmd: EnclaveProcessCommandType) -> Plan {
    match cmd {
        EnclaveProcessCommandType::Run => if s.is_active() {
            Plan::Immediate
        } else {
            Plan::RunEnclave
        },
        EnclaveProcessCommandType::Terminate => Plan::SpawnTermination,
        EnclaveProcessCommandType::GetEnclaveCID => Plan::SendCid,
        EnclaveProcessCommandType::Describe => Plan::DescribeEnclave,
        _ => Plan::Immediate,
    }
}

/// The status of `cmd` and whether the loop ends, or `None` where handling
/// it failed: its work failed or came back with a result it did not ask for.
/// A command that asks for no work does not look at the outcome.
pub open spec fn spec_command_result(
    s: EventLoopView,
    cmd: EnclaveProcessCommandType,
    o: OutcomeView,
) -> Option<(i32, bool)> {
    match cmd {
        EnclaveProcessCommandType::Run => if s.is_active() {
            Some((spec_eexist(), false))
        } else {
            match o {
                OutcomeView::EnclaveRunning { enclave_id, .. } => if enclave_id.len() > 0 {
                    Some((0i32, false))
                } else {
                    None
                },
                _ => None,
            }
        },
        EnclaveProcessCommandType::Terminate => if o is TerminationStarted {
            Some((0i32, false))
        } else {
            None
        },
        EnclaveProcessCommandType::TerminateComplete => Some((0i32, true)),
        EnclaveProcessCommandType::GetEnclaveCID => if o is Served {
            Some((0i32, false))
        } else {
            None
        },
        EnclaveProcessCommandType::Describe => if o is Served {
            Some((0i32, false))
        } else {
            None
        },
        EnclaveProcessCommandType::ConnectionListenerStop => Some((0i32, true)),
        EnclaveProcessCommandType::NotPermitted => Some((spec_eacces(), false)),
    }
}

/// What a successfully handled command changes: a new enclave is adopted
/// and watched, a termination channel is watched.
pub open spec fn spec_apply(
    s: EventLoopView,
    cmd: EnclaveProcessCommandType,
    o: OutcomeView,
) -> EventLoopView {
    match (cmd, o) {
        (
            EnclaveProcessCommandType::Run,
            OutcomeView::EnclaveRunning { enclave_id, descriptor },
        ) => if s.is_active() {
            s
        } else {
            EventLoopView {
                enclave_id,
                listener: s.listener.start().register_enclave(descriptor),
                ..s
            }
        },
        (EnclaveProcessCommandType::Terminate, OutcomeView::TerminationStarted { channel }) => {
            EventLoopView { listener: s.listener.add(channel), termination_pending: true, ..s }
        },
        _ => s,
    }
}

/// The state after `cmd` was handled with outcome `o`, and what the loop
/// then does. A failure is answered with `EINVAL` and ends the loop; a loop
/// that ends stops its listener before any reply.
pub open spec fn spec_conclude(
    s: EventLoopView,
    cmd: EnclaveProcessCommandType,
    o: OutcomeView,
) -> (EventLoopView, Conclusion) {
    let (s1, status, exit) = match spec_command_result(s, cmd, o) {
        Option::Some((status, exit)) => (spec_apply(s, cmd, o), status, exit),
        Option::None => (s, spec_einval(), true),
    };
    let s2 = if exit {
        s1.finish(false)
    } else {
        s1
    };
    (
        s2,
        Conclusion {
            status,
            reply: spec_needs_reply(cmd),
            exit,
            join_termination: exit && s1.termination_pending,
        },
    )
}

/// The state after handling each command of `steps` with its outcome in turn,
/// up to the first that ends the loop.
pub open spec fn spec_run_commands(
    s: EventLoopView,
    steps: Seq<(EnclaveProcessCommandType, OutcomeView)>,
) -> EventLoopView
    decreases steps.len(),
{
    if steps.len() == 0 || s.done {
        s
    } else {
        spec_run_commands(spec_conclude(s, steps[0].0, steps[0].1).0, steps.drop_first())
    }
}

/// Once an enclave runs, no command changes its identity.
pub proof fn lemma_identity_kept(s: EventLoopView, steps: Seq<(EnclaveProcessCommandType, OutcomeView)>)
    requires
        s.is_active(),
    ensures
        spec_run_commands(s, steps).enclave_id == s.enclave_id,
    decreases steps.len(),
{
    if steps.len() > 0 && !s.done {
        lemma_identity_kept(spec_conclude(s, steps[0].0, steps[0].1).0, steps.drop_first());
    }
}

/// After a successful `Run`, whatever commands follow, another `Run` is
/// answered with `EEXIST` and leaves the enclave's identity as it was.
pub proof fn lemma_second_run_rejected(
    s: EventLoopView,
    first: OutcomeView,
    steps: Seq<(EnclaveProcessCommandType, OutcomeView)>,
    second: OutcomeView,
)
    requires
        s.wf(),
        !s.done,
        spec_conclude(s, EnclaveProcessCommandType::Run, first).1.status == 0,
    ensures
        ({
            let s1 = spec_conclude(s, EnclaveProcessCommandType::Run, first).0;
            let sn = spec_run_commands(s1, steps);
            let (s2, r) = spec_conclude(sn, EnclaveProcessCommandType::Run, second);
            &&& s1.is_active()
            &&& sn.enclave_id == s1.enclave_id
            &&& !sn.done ==> r.status == spec_eexist() && s2.enclave_id == s1.enclave_id
        }),
{
    let s1 = spec_conclude(s, EnclaveProcessCommandType::Run, first).0;
    lemma_identity_kept(s1, steps);
}

/// `Terminate` is answered with status 0 at once and leaves the loop running,
/// watching the channel on which completion will come; only the later
/// `TerminateComplete` ends the loop, after joining the termination task.
pub proof fn lemma_terminate_replies_at_once(s: EventLoopView, channel: i32)
    requires
        s.wf(),
        !s.done,
    ensures
        ({
            let (s1, r) = spec_conclude(
                s,
                EnclaveProcessCommandType::Terminate,
                OutcomeView::TerminationStarted { channel },
            );
            let (s2, r2) = spec_conclude(
                s1,
                EnclaveProcessCommandType::TerminateComplete,
                OutcomeView::Served,
            );
            &&& r.status == 0 && r.reply && !r.exit
            &&& !s1.done && s1.termination_pending
            &&& s1.listener.endpoints.contains(channel)
            &&& r2.exit && r2.join_termination && !r2.reply
            &&& s2.done && !s2.termination_pending
        }),
{
    let s1 = spec_conclude(
        s,
        EnclaveProcessCommandType::Terminate,
        OutcomeView::TerminationStarted { channel },
    ).0;
    if !s.listener.endpoints.contains(channel) {
        assert(s1.listener.endpoints.last() == channel);
        assert(s1.listener.endpoints.contains(channel));
    }
}

/// A finished loop watches no endpoint and issues no further wait.
pub proof fn lemma_done_is_final(s: EventLoopView)
    requires
        s.wf(),
        s.done,
    ensures
        s.listener.count() == 0,
        spec_next_wait(s) is None,
{
}

/// Flags that hold a hang-up together with other flags end the loop with
/// success; the other flags are kept for the log and are not fatal.
pub proof fn lemma_hangup_with_other_flags(s: EventLoopView, other: i32)
    requires
        s.wf(),
        !s.done,
        other != 0,
        other & spec_hangup_bit() == 0,
    ensures
        spec_handle_enclave_event(Some(spec_hangup_bit() | other)) == HandledEnclaveEvent::HangUp(
            other,
        ),
        ({
            let (s1, step) = spec_after_enclave_event(
                s,
                Ok(HandledEnclaveEvent::HangUp(other)),
            );
            &&& s1.done && !s1.failed
            &&& s1.listener.count() == 0
            &&& step is Exit
        }),
{
    assert((0x10i32 | other) != 0 && (0x10i32 | other) & 0x10i32 != 0
        && ((0x10i32 | other) & !0x10i32) == other)
        by (bit_vector)
        requires
            other & 0x10i32 == 0,
    ;
}

/// Once an enclave runs, no command replaces or resets its identity,
/// whatever came of the command's work.
pub proof fn lemma_active_identity_never_changes(
    s: EventLoopView,
    cmd: EnclaveProcessCommandType,
    o: OutcomeView,
)
    requires
        s.is_active(),
    ensures
        spec_conclude(s, cmd, o).0.enclave_id == s.enclave_id,
{
}

/// A `Run` while an enclave runs asks for no work (nothing is read, created
/// or registered) and is answered with `EEXIST`, leaving the whole state as
/// it was, whatever outcome is handed back.
pub proof fn lemma_run_while_active_changes_nothing(s: EventLoopView, o: OutcomeView)
    requires
        s.wf(),
        !s.done,
        s.is_active(),
    ensures
        spec_plan(s, EnclaveProcessCommandType::Run) == Plan::Immediate,
        spec_conclude(s, EnclaveProcessCommandType::Run, o) == (
            s,
            Conclusion { status: spec_eexist(), reply: true, exit: false, join_termination: false },
        ),
{
}

/// A `Run` with no enclave asks for the enclave to be created; once it runs
/// under a non-empty identity, the loop adopts that identity, opens the
/// listening address, watches the hardware descriptor, answers 0 and goes
/// on. A following `GetEnclaveCID` asks for the console identifier and,
/// once it is sent, changes nothing.
pub proof fn lemma_run_adopts_enclave(s: EventLoopView, enclave_id: Seq<char>, descriptor: i32)
    requires
        s.wf(),
        !s.done,
        !s.is_active(),
        enclave_id.len() > 0,
    ensures
        spec_plan(s, EnclaveProcessCommandType::Run) == Plan::RunEnclave,
        ({
            let (s1, r) = spec_conclude(
                s,
                EnclaveProcessCommandType::Run,
                OutcomeView::EnclaveRunning { enclave_id, descriptor },
            );
            &&& r == Conclusion { status: 0, reply: true, exit: false, join_termination: false }
            &&& s1.enclave_id == enclave_id
            &&& s1.listener.accepting
            &&& s1.listener.enclave_fd == Some(descriptor)
            &&& s1.listener.endpoints == s.listener.endpoints
            &&& s1.termination_pending == s.termination_pending
            &&& !s1.done
            &&& spec_plan(s1, EnclaveProcessCommandType::GetEnclaveCID) == Plan::SendCid
            &&& spec_conclude(s1, EnclaveProcessCommandType::GetEnclaveCID, OutcomeView::Served)
                == (s1, Conclusion { status: 0, reply: false, exit: false, join_termination: false })
        }),
{
}

/// `Terminate` asks for the termination task to be spawned and leaves the
/// enclave's identity to it; where spawning fails, the state is left as it
/// was apart from ending the loop with `EINVAL`.
pub proof fn lemma_terminate_plan(s: EventLoopView, channel: i32)
    requires
        s.wf(),
        !s.done,
    ensures
        spec_plan(s, EnclaveProcessCommandType::Terminate) == Plan::SpawnTermination,
        spec_conclude(
            s,
            EnclaveProcessCommandType::Terminate,
            OutcomeView::TerminationStarted { channel },
        ).0.enclave_id == s.enclave_id,
        spec_conclude(s, EnclaveProcessCommandType::Terminate, OutcomeView::Failed) == (
            s.finish(false),
            Conclusion {
                status: spec_einval(),
                reply: true,
                exit: true,
                join_termination: s.termination_pending,
            },
        ),
{
}

/// `ConnectionListenerStop` and `TerminateComplete` ask for no work, get no
/// reply, and end the loop with status 0; apart from stopping the listener
/// and joining the termination task, the state is left as it was.
pub proof fn lemma_internal_commands_end_loop(s: EventLoopView, o: OutcomeView)
    requires
        s.wf(),
        !s.done,
    ensures
        spec_plan(s, EnclaveProcessCommandType::ConnectionListenerStop) == Plan::Immediate,
        spec_plan(s, EnclaveProcessCommandType::TerminateComplete) == Plan::Immediate,
        spec_conclude(s, EnclaveProcessCommandType::ConnectionListenerStop, o) == (
            s.finish(false),
            Conclusion { status: 0, reply: false, exit: true, join_termination: s.termination_pending },
        ),
        spec_conclude(s, EnclaveProcessCommandType::TerminateComplete, o) == (
            s.finish(false),
            Conclusion { status: 0, reply: false, exit: true, join_termination: s.termination_pending },
        ),
{
}

/// While a termination task runs, `Describe` is served as usual: it asks
/// for the description, is answered with 0, does not join the task and
/// leaves the state as it was.
pub proof fn lemma_describe_while_terminating(s: EventLoopView)
    requires
        s.wf(),
        !s.done,
        s.termination_pending,
    ensures
        spec_plan(s, EnclaveProcessCommandType::Describe) == Plan::DescribeEnclave,
        spec_conclude(s, EnclaveProcessCommandType::Describe, OutcomeView::Served) == (
            s,
            Conclusion { status: 0, reply: true, exit: false, join_termination: false },
        ),
{
}

/// Queues an error message for the peer of a connection, ahead of closing
/// it; `conn` holds the lines not yet written to that peer, oldest first.
pub fn notify_error_with_conn(err_msg: &str, conn: &mut Vec<String>)
    ensures
        final(conn)@.len() == old(conn)@.len() + 1,
        final(conn)@.subrange(0, old(conn)@.len() as int) == old(conn)@,
        final(conn)@.last()@ == err_msg@,
{
    conn.push(String::from_str(err_msg));
    assert(conn@.subrange(0, old(conn)@.len() as int) =~= old(conn)@);
}

impl EventLoop {
    /// A running loop with no enclave and nothing registered.
    pub fn new() -> (r: EventLoop)
        ensures
            r@.wf(),
            !r@.done,
            !r@.failed,
            !r@.termination_pending,
            r@.enclave_id.len() == 0,
            r@.listener.is_empty(),
            r@.listener.state == ListenerState::Created,
            !r@.listener.accepting,
    {
        EventLoop {
            enclave_id: String::new(),
            listener: ConnectionListener::new(),
            termination_pending: false,
            done: false,
            failed: false,
        }
    }

    /// Leaves the running state and says whether to join the termination task.
    fn finish(&mut self, failed: bool) -> (join_termination: bool)
        requires
            old(self)@.wf(),
        ensures
            final(self)@ == old(self)@.finish(failed),
            final(self)@.wf(),
            join_termination == old(self)@.termination_pending,
    {
        self.listener.stop();
        let join_termination = self.termination_pending;
        self.termination_pending = false;
        self.done = true;
        self.failed = failed;
        join_termination
    }

    /// Registers the channel on which the signal thread reports.
    pub fn register_signal_channel(&mut self, fd: i32)
        requires
            old(self)@.wf(),
        ensures
            final(self)@ == (EventLoopView { listener: old(self)@.listener.add(fd), ..old(self)@ }),
            final(self)@.wf(),
    {
        self.listener.add_stream_to_epoll(fd);
    }

    /// Registers the launcher's inbound control channel.
    pub fn register_control_channel(&mut self, fd: i32)
        requires
            old(self)@.wf(),
        ensures
            final(self)@ == (EventLoopView {
                listener: old(self)@.listener.add_connection(fd),
                ..old(self)@
            }),
            final(self)@.wf(),
    {
        self.listener.handle_new_connection(fd);
    }

    /// The enclave descriptor to pass to the next wait for a ready
    /// connection, or `None` once the loop is done and must not wait again.
    pub fn next_wait(&self) -> (r: Option<Option<i32>>)
        ensures
            r == spec_next_wait(self@),
    {
        if self.done {
            None
        } else {
            Some(self.listener.enclave_descriptor())
        }
    }

    /// Acts on the classified flags of a ready connection: a hang-up of the
    /// enclave ends the loop with success, a failure to read the flags ends
    /// it with an error, other enclave flags are passed over.
    pub fn after_enclave_event(&mut self, ev: Result<HandledEnclaveEvent, ()>) -> (r: LoopStep)
        requires
            old(self)@.wf(),
            !old(self)@.done,
        ensures
            (final(self)@, r) == spec_after_enclave_event(old(self)@, ev),
            final(self)@.wf(),
            final(self)@.done ==> final(self)@.listener.count() == 0,
    {
        match ev {
            Err(_) => {
                let join_termination = self.finish(true);
                LoopStep::Exit { join_termination }
            },
            Ok(HandledEnclaveEvent::HangUp(_)) => {
                let join_termination = self.finish(false);
                LoopStep::Exit { join_termination }
            },
            Ok(HandledEnclaveEvent::Unexpected(_)) => LoopStep::Continue,
            Ok(HandledEnclaveEvent::NoEvent) => LoopStep::ReadCommand,
        }
    }

    /// Ends the loop with an error after a command could not be read from a
    /// connection.
    pub fn after_read_failure(&mut self) -> (join_termination: bool)
        requires
            old(self)@.wf(),
            !old(self)@.done,
        ensures
            final(self)@ == old(self)@.finish(true),
            final(self)@.wf(),
            join_termination == old(self)@.termination_pending,
    {
        self.finish(true)
    }

    /// The listener's bookkeeping.
    pub fn listener(&self) -> (r: &ConnectionListener)
        ensures
            r@ == self@.listener,
    {
        &self.listener
    }

    /// The identity of the running enclave; empty while none runs.
    pub fn enclave_id(&self) -> (r: &str)
        ensures
            r@ == self@.enclave_id,
    {
        self.enclave_id.as_str()
    }

    /// Whether an enclave runs.
    pub fn is_active(&self) -> (r: bool)
        ensures
            r == self@.is_active(),
    {
        !self.enclave_id.as_str().is_empty()
    }

    /// Whether a termination task runs that has not been joined.
    pub fn termination_pending(&self) -> (r: bool)
        ensures
            r == self@.termination_pending,
    {
        self.termination_pending
    }

    /// Whether the loop ended on an error.
    pub fn failed(&self) -> (r: bool)
        ensures
            r == self@.failed,
    {
        self.failed
    }

    /// The outside work that `cmd` asks for now.
    pub fn plan(&self, cmd: EnclaveProcessCommandType) -> (r: Plan)
        ensures
            r == spec_plan(self@, cmd),
    {
        match cmd {
            EnclaveProcessCommandType::Run => {
                if self.enclave_id.as_str().is_empty() {
                    Plan::RunEnclave
                } else {
                    Plan::Immediate
                }
            },
            EnclaveProcessCommandType::Terminate => Plan::SpawnTermination,
            EnclaveProcessCommandType::GetEnclaveCID => Plan::SendCid,
            EnclaveProcessCommandType::Describe => Plan::DescribeEnclave,
            _ => Plan::Immediate,
        }
    }

    /// Settles a command once its planned work came back with `outcome`:
    /// adopts a new enclave, watches a termination channel, and where the
    /// loop ends stops the listener before the status is sent. Only client
    /// commands are replied to.
    pub fn conclude(&mut self, cmd: EnclaveProcessCommandType, outcome: Outcome) -> (r: Conclusion)
        requires
            old(self)@.wf(),
            !old(self)@.done,
        ensures
            (final(self)@, r) == spec_conclude(old(self)@, cmd, outcome@),
            final(self)@.wf(),
            r.exit ==> final(self)@.listener.count() == 0 && spec_next_wait(final(self)@) is None,
            cmd is TerminateComplete ==> !r.reply,
            cmd is ConnectionListenerStop ==> !r.reply,
    {
        let active = !self.enclave_id.as_str().is_empty();
        let served = matches!(outcome, Outcome::Served);
        let result: Option<(i32, bool)> = match cmd {
            EnclaveProcessCommandType::Run => {
                if active {
                    Some((eexist(), false))
                } else {
                    match outcome {
                        Outcome::EnclaveRunning { enclave_id, descriptor } => {
                            if enclave_id.as_str().is_empty() {
                                None
                            } else {
                                self.enclave_id = enclave_id;
                                self.listener.start();
                                self.listener.register_enclave_descriptor(descriptor);
                                Some((0, false))
                            }
                        },
                        _ => None,
                    }
                }
            },
            EnclaveProcessCommandType::Terminate => match outcome {
                Outcome::TerminationStarted { channel } => {
                    self.listener.add_stream_to_epoll(channel);
                    self.termination_pending = true;
                    Some((0, false))
                },
                _ => None,
            },
            EnclaveProcessCommandType::TerminateComplete => Some((0, true)),
            EnclaveProcessCommandType::GetEnclaveCID => if served {
                Some((0, false))
            } else {
                None
            },
            EnclaveProcessCommandType::Describe => if served {
                Some((0, false))
            } else {
                None
            },
            EnclaveProcessCommandType::ConnectionListenerStop => Some((0, true)),
            EnclaveProcessCommandType::NotPermitted => Some((eacces(), false)),
        };
        let (status, exit) = match result {
            Some(p) => p,
            None => (einval(), true),
        };
        let join_termination = if exit {
            self.finish(false)
        } else {
            false
        };
        Conclusion { status, reply: cmd.needs_reply(), exit, join_termination }
    }
}

} // verus!
