use vstd::prelude::*;

verus! {

/// The operations of the supervisor's control protocol.
#[derive(Clone, Copy, Debug, PartialEq, Eq, Structural)]
pub enum EnclaveProcessCommandType {
    /// Launch an enclave; a run configuration follows on the connection.
    Run,
    /// Tear the enclave down in the background.
    Terminate,
    /// The background teardown has finished (internal).
    TerminateComplete,
    /// Ask for the enclave's console identifier.
    GetEnclaveCID,
    /// Ask for a description of the enclave.
    Describe,
    /// Stop the connection listener and leave the loop (internal).
    ConnectionListenerStop,
    /// A command the caller may not issue.
    NotPermitted,
}

/// The ordinal that a command has on the wire.
pub open spec fn spec_wire_value(c: EnclaveProcessCommandType) -> u64 {
    match c {
        EnclaveProcessCommandType::Run => 0,
        EnclaveProcessCommandType::Terminate => 1,
        EnclaveProcessCommandType::TerminateComplete => 2,
        EnclaveProcessCommandType::GetEnclaveCID => 3,
        EnclaveProcessCommandType::Describe => 4,
        EnclaveProcessCommandType::ConnectionListenerStop => 5,
        EnclaveProcessCommandType::NotPermitted => 6,
    }
}

/// Whether the sender of a command is a client that waits for a status reply.
pub open spec fn spec_needs_reply(c: EnclaveProcessCommandType) -> bool {
    match c {
        EnclaveProcessCommandType::Run => true,
        EnclaveProcessCommandType::Terminate => true,
        EnclaveProcessCommandType::Describe => true,
        _ => false,
    }
}

impl EnclaveProcessCommandType {
    /// The ordinal of this command on the wire.
    pub fn wire_value(&self) -> (r: u64)
        ensures
            r == spec_wire_value(*self),
    {
        match self {
            EnclaveProcessCommandType::Run => 0,
            EnclaveProcessCommandType::Terminate => 1,
            EnclaveProcessCommandType::TerminateComplete => 2,
            EnclaveProcessCommandType::GetEnclaveCID => 3,
            EnclaveProcessCommandType::Describe => 4,
            EnclaveProcessCommandType::ConnectionListenerStop => 5,
            EnclaveProcessCommandType::NotPermitted => 6,
        }
    }

    /// The command with the given ordinal, or `None` for an ordinal that no command has.
    pub fn from_wire_value(v: u64) -> (r: Option<EnclaveProcessCommandType>)
        ensures
            r matches Some(c) ==> spec_wire_value(c) == v,
            r is None <==> v > 6,
    {
        match v {
            0 => Some(EnclaveProcessCommandType::Run),
            1 => Some(EnclaveProcessCommandType::Terminate),
            2 => Some(EnclaveProcessCommandType::TerminateComplete),
            3 => Some(EnclaveProcessCommandType::GetEnclaveCID),
            4 => Some(EnclaveProcessCommandType::Describe),
            5 => Some(EnclaveProcessCommandType::ConnectionListenerStop),
            6 => Some(EnclaveProcessCommandType::NotPermitted),
            _ => None,
        }
    }

    /// Whether a status reply goes back to the sender of this command: only
    /// client commands get one, internal ones never do.
    pub fn needs_reply(&self) -> (r: bool)
        ensures
            r == spec_needs_reply(*self),
    {
        match self {
            EnclaveProcessCommandType::Run => true,
            EnclaveProcessCommandType::Terminate => true,
            EnclaveProcessCommandType::Describe => true,
            _ => false,
        }
    }
}

/// Decoding the ordinal of a command gives the command back.
pub proof fn lemma_wire_value_round_trip(c: EnclaveProcessCommandType)
    ensures
        spec_wire_value(c) <= 6,
        forall|d: EnclaveProcessCommandType| spec_wire_value(d) == spec_wire_value(c) ==> d == c,
{
}

} // verus!
