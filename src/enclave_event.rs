use vstd::prelude::*;

verus! {

/// The epoll bit that reports a hang-up.
pub open spec fn spec_hangup_bit() -> i32 {
    0x10
}

/// Relies on `nix::sys::epoll::EpollFlags::EPOLLHUP`, whose bits are `libc::EPOLLHUP`.
#[verifier::external_body]
pub(crate) fn hangup_bit() -> (r: i32)
    ensures
        r == spec_hangup_bit(),
{
    nix::sys::epoll::EpollFlags::EPOLLHUP.bits()
}

/// What the loop makes of the readiness of a connection.
#[derive(Clone, Copy, Debug, PartialEq, Eq, Structural)]
pub enum HandledEnclaveEvent {
    /// The enclave hung up; the other flags that came with it are kept for the log.
    HangUp(i32),
    /// The enclave reported flags without a hang-up; they are kept for the log.
    Unexpected(i32),
    /// The connection is not the enclave's: it carries a command.
    NoEvent,
}

/// The flags other than the hang-up bit.
pub open spec fn spec_other_flags(flags: i32) -> i32 {
    flags & !spec_hangup_bit()
}

/// How the flags of a ready connection are handled: `None` for a connection
/// that is not the enclave hardware descriptor. No flag at all falls through
/// to command handling.
pub open spec fn spec_handle_enclave_event(flags: Option<i32>) -> HandledEnclaveEvent {
    match flags {
        Option::Some(f) => if f == 0 {
            HandledEnclaveEvent::NoEvent
        } else if f & spec_hangup_bit() != 0 {
            HandledEnclaveEvent::HangUp(spec_other_flags(f))
        } else {
            HandledEnclaveEvent::Unexpected(spec_other_flags(f))
        },
        Option::None => HandledEnclaveEvent::NoEvent,
    }
}

/// Classifies the event flags of a ready connection. A hang-up is fatal to
/// the loop; any other flag on the enclave descriptor is only logged; an
/// empty set of flags leaves the connection to command handling.
pub fn try_handle_enclave_event(flags: Option<i32>) -> (r: HandledEnclaveEvent)
    ensures
        r == spec_handle_enclave_event(flags),
{
    match flags {
        Some(0) => HandledEnclaveEvent::NoEvent,
        Some(f) => {
            let hup = hangup_bit();
            let others = f & !hup;
            if f & hup != 0 {
                HandledEnclaveEvent::HangUp(others)
            } else {
                HandledEnclaveEvent::Unexpected(others)
            }
        },
        None => HandledEnclaveEvent::NoEvent,
    }
}

} // verus!
