use vstd::prelude::*;

verus! {

/// The lifecycle of the connection listener.
#[derive(Clone, Copy, Debug, PartialEq, Eq, Structural)]
pub enum ListenerState {
    /// Nothing but internal channels is registered yet.
    Created,
    /// The launcher's control channel is registered.
    Listening,
    /// Every endpoint was deregistered; the listener is not waited on again.
    Stopped,
}

/// The endpoints that the readiness multiplexer watches, by descriptor.
pub struct ConnectionListener {
    endpoints: Vec<i32>,
    enclave_fd: Option<i32>,
    accepting: bool,
    state: ListenerState,
}

/// The abstract contents of a `ConnectionListener`.
pub struct ListenerView {
    /// The registered client and internal endpoints, in order of registration.
    pub endpoints: Seq<i32>,
    /// The enclave hardware descriptor, tracked apart from the other endpoints.
    pub enclave_fd: Option<i32>,
    /// Whether the per-enclave listening address is open.
    pub accepting: bool,
    pub state: ListenerState,
}

impl View for ConnectionListener {
    type V = ListenerView;

    closed spec fn view(&self) -> ListenerView {
        ListenerView {
            endpoints: self.endpoints@,
            enclave_fd: self.enclave_fd,
            accepting: self.accepting,
            state: self.state,
        }
    }
}

impl ListenerView {
    /// Each endpoint is registered once, and a stopped listener holds nothing.
    pub open spec fn wf(&self) -> bool {
        &&& self.endpoints.no_duplicates()
        &&& self.state == ListenerState::Stopped ==> self.is_empty() && !self.accepting
    }

    /// No endpoint at all is registered, the enclave descriptor included.
    pub open spec fn is_empty(&self) -> bool {
        self.endpoints.len() == 0 && self.enclave_fd is None
    }

    /// The number of registered endpoints, the enclave descriptor included.
    pub open spec fn count(&self) -> nat {
        self.endpoints.len() + if self.enclave_fd is Some { 1nat } else { 0nat }
    }

    /// Registers `fd`, unless it is registered already or the listener is stopped.
    pub open spec fn add(self, fd: i32) -> ListenerView {
        if self.state == ListenerState::Stopped || self.endpoints.contains(fd) {
            self
        } else {
            ListenerView { endpoints: self.endpoints.push(fd), ..self }
        }
    }

    /// Registers the launcher's control channel, which makes the listener listen.
    pub open spec fn add_connection(self, fd: i32) -> ListenerView {
        if self.state == ListenerState::Stopped {
            self
        } else {
            ListenerView { state: ListenerState::Listening, ..self.add(fd) }
        }
    }

    /// Opens the per-enclave listening address.
    pub open spec fn start(self) -> ListenerView {
        if self.state == ListenerState::Stopped {
            self
        } else {
            ListenerView { accepting: true, ..self }
        }
    }

    /// Tracks `fd` as the enclave hardware descriptor, in place of any earlier one.
    pub open spec fn register_enclave(self, fd: i32) -> ListenerView {
        if self.state == ListenerState::Stopped {
            self
        } else {
            ListenerView { enclave_fd: Some(fd), ..self }
        }
    }

    /// Deregisters everything and closes the listening address.
    pub open spec fn stop(self) -> ListenerView {
        ListenerView {
            endpoints: Seq::empty(),
            enclave_fd: None,
            accepting: false,
            state: ListenerState::Stopped,
        }
    }
}

/// Stopping a stopped listener changes nothing, and a stopped listener
/// watches no endpoint.
pub proof fn lemma_stop_idempotent(l: ListenerView)
    ensures
        l.stop().stop() == l.stop(),
        l.stop().wf(),
        l.stop().count() == 0,
{
}

impl ConnectionListener {
    /// A listener that watches nothing yet.
    pub fn new() -> (r: ConnectionListener)
        ensures
            r@.wf(),
            r@.is_empty(),
            !r@.accepting,
            r@.state == ListenerState::Created,
    {
        ConnectionListener {
            endpoints: Vec::new(),
            enclave_fd: None,
            accepting: false,
            state: ListenerState::Created,
        }
    }

    /// Whether `fd` is among the registered endpoints.
    pub fn is_registered(&self, fd: i32) -> (r: bool)
        ensures
            r == self@.endpoints.contains(fd),
    {
        let mut i: usize = 0;
        while i < self.endpoints.len()
            invariant
                0 <= i <= self.endpoints@.len(),
                forall|j: int| 0 <= j < i ==> self.endpoints@[j] != fd,
            decreases self.endpoints@.len() - i,
        {
            if self.endpoints[i] == fd {
                return true;
            }
            i = i + 1;
        }
        false
    }

    /// Registers an internal endpoint (a signal or termination channel).
    pub fn add_stream_to_epoll(&mut self, fd: i32)
        requires
            old(self)@.wf(),
        ensures
            final(self)@ == old(self)@.add(fd),
            final(self)@.wf(),
    {
        if self.state != ListenerState::Stopped && !self.is_registered(fd) {
            self.endpoints.push(fd);
        }
    }

    /// Registers the launcher's inbound control channel.
    pub fn handle_new_connection(&mut self, fd: i32)
        requires
            old(self)@.wf(),
        ensures
            final(self)@ == old(self)@.add_connection(fd),
            final(self)@.wf(),
    {
        if self.state != ListenerState::Stopped {
            self.add_stream_to_epoll(fd);
            self.state = ListenerState::Listening;
        }
    }

    /// Records that the per-enclave listening address is open.
    pub fn start(&mut self)
        requires
            old(self)@.wf(),
        ensures
            final(self)@ == old(self)@.start(),
            final(self)@.wf(),
    {
        if self.state != ListenerState::Stopped {
            self.accepting = true;
        }
    }

    /// Tracks the enclave hardware descriptor.
    pub fn register_enclave_descriptor(&mut self, fd: i32)
        requires
            old(self)@.wf(),
        ensures
            final(self)@ == old(self)@.register_enclave(fd),
            final(self)@.wf(),
    {
        if self.state != ListenerState::Stopped {
            self.enclave_fd = Some(fd);
        }
    }

    /// Deregisters every endpoint and closes the listening address; calling
    /// it again does nothing more.
    pub fn stop(&mut self)
        ensures
            final(self)@ == old(self)@.stop(),
            final(self)@.wf(),
    {
        self.endpoints = Vec::new();
        self.enclave_fd = None;
        self.accepting = false;
        self.state = ListenerState::Stopped;
    }

    /// The number of registered endpoints, the enclave descriptor included.
    pub fn endpoint_count(&self) -> (r: usize)
        requires
            self@.count() <= usize::MAX,
        ensures
            r == self@.count(),
    {
        if self.enclave_fd.is_some() {
            self.endpoints.len() + 1
        } else {
            self.endpoints.len()
        }
    }

    /// The tracked enclave hardware descriptor, if any.
    pub fn enclave_descriptor(&self) -> (r: Option<i32>)
        ensures
            r == self@.enclave_fd,
    {
        self.enclave_fd
    }

    /// The pending event flags `events` of the endpoint `fd` when it is the
    /// tracked enclave hardware descriptor and some flag is set; `None` for
    /// any other endpoint, whose readiness carries a command.
    pub fn enclave_event_flags(&self, fd: i32, events: i32) -> (r: Option<i32>)
        ensures
            r == (if self@.enclave_fd == Some(fd) && events != 0 {
                Some(events)
            } else {
                None
            }),
    {
        match self.enclave_fd {
            Some(e) if e == fd && events != 0 => Some(events),
            _ => None,
        }
    }

    /// Whether the per-enclave listening address is open.
    pub fn is_accepting(&self) -> (r: bool)
        ensures
            r == self@.accepting,
    {
        self.accepting
    }

    /// The lifecycle state.
    pub fn state(&self) -> (r: ListenerState)
        ensures
            r == self@.state,
    {
        self.state
    }
}

} // verus!
