use enclave_proc::command::EnclaveProcessCommandType;
use enclave_proc::enclave_event::HandledEnclaveEvent;
use enclave_proc::event_loop::{notify_error_with_conn, Conclusion, EventLoop, LoopStep, Outcome, Plan};
use enclave_proc::listener::ListenerState;

const SIGNAL_FD: i32 = 3;
const COMM_FD: i32 = 4;
const ENCLAVE_FD: i32 = 9;

fn running_loop() -> EventLoop {
    let mut l = EventLoop::new();
    l.register_signal_channel(SIGNAL_FD);
    l.register_control_channel(COMM_FD);
    l
}

fn run_enclave(l: &mut EventLoop, id: &str) -> Conclusion {
    l.conclude(
        EnclaveProcessCommandType::Run,
        Outcome::EnclaveRunning { enclave_id: id.to_string(), descriptor: ENCLAVE_FD },
    )
}

#[test]
fn run_then_get_cid_is_served() {
    let mut l = running_loop();
    assert_eq!(l.plan(EnclaveProcessCommandType::Run), Plan::RunEnclave);
    let c = run_enclave(&mut l, "i-0123-enc42");
    assert_eq!(c, Conclusion { status: 0, reply: true, exit: false, join_termination: false });
    assert_eq!(l.next_wait(), Some(Some(ENCLAVE_FD)));
    assert_eq!(l.plan(EnclaveProcessCommandType::GetEnclaveCID), Plan::SendCid);
    let c = l.conclude(EnclaveProcessCommandType::GetEnclaveCID, Outcome::Served);
    assert_eq!(c.status, 0);
    assert!(!c.exit);
    assert!(!c.reply);
}

#[test]
fn second_run_is_rejected_with_eexist() {
    let mut l = running_loop();
    assert_eq!(run_enclave(&mut l, "i-0123-enc42").status, 0);
    assert_eq!(l.plan(EnclaveProcessCommandType::Run), Plan::Immediate);
    let c = run_enclave(&mut l, "i-9999-enc77");
    assert_eq!(c.status, libc::EEXIST);
    assert!(c.reply);
    assert!(!c.exit);
    // The second enclave's descriptor was not registered, nor was the first twice.
    assert_eq!(l.next_wait(), Some(Some(ENCLAVE_FD)));
    assert_eq!(l.listener().endpoint_count(), 3);
    let c = l.conclude(EnclaveProcessCommandType::Run, Outcome::Served);
    assert_eq!(c.status, libc::EEXIST);
}

#[test]
fn signal_stop_without_enclave_ends_loop() {
    let mut l = running_loop();
    assert_eq!(l.plan(EnclaveProcessCommandType::ConnectionListenerStop), Plan::Immediate);
    let c = l.conclude(EnclaveProcessCommandType::ConnectionListenerStop, Outcome::Served);
    assert_eq!(c, Conclusion { status: 0, reply: false, exit: true, join_termination: false });
    assert_eq!(l.next_wait(), None);
    assert_eq!(l.listener().state(), ListenerState::Stopped);
    assert_eq!(l.listener().endpoint_count(), 0);
    assert!(!l.failed());
}

#[test]
fn describe_is_served_while_terminating() {
    let mut l = running_loop();
    run_enclave(&mut l, "i-0123-enc42");
    assert_eq!(l.plan(EnclaveProcessCommandType::Terminate), Plan::SpawnTermination);
    let c = l.conclude(EnclaveProcessCommandType::Terminate, Outcome::TerminationStarted { channel: 11 });
    assert_eq!(c, Conclusion { status: 0, reply: true, exit: false, join_termination: false });
    assert!(l.next_wait().is_some());
    assert_eq!(l.plan(EnclaveProcessCommandType::Describe), Plan::DescribeEnclave);
    let c = l.conclude(EnclaveProcessCommandType::Describe, Outcome::Served);
    assert_eq!(c, Conclusion { status: 0, reply: true, exit: false, join_termination: false });
    let c = l.conclude(EnclaveProcessCommandType::TerminateComplete, Outcome::Served);
    assert_eq!(c, Conclusion { status: 0, reply: false, exit: true, join_termination: true });
    assert_eq!(l.next_wait(), None);
    assert_eq!(l.listener().endpoint_count(), 0);
}

#[test]
fn terminate_registers_completion_channel() {
    let mut l = running_loop();
    l.conclude(EnclaveProcessCommandType::Terminate, Outcome::TerminationStarted { channel: 11 });
    assert!(l.listener().is_registered(11));
    assert!(l.termination_pending());
}

#[test]
fn internal_commands_get_no_reply() {
    assert!(!EnclaveProcessCommandType::TerminateComplete.needs_reply());
    assert!(!EnclaveProcessCommandType::ConnectionListenerStop.needs_reply());
    assert!(EnclaveProcessCommandType::Run.needs_reply());
    let mut l = running_loop();
    let c = l.conclude(EnclaveProcessCommandType::TerminateComplete, Outcome::Served);
    assert!(!c.reply);
    assert!(c.exit);
}

#[test]
fn not_permitted_gets_eacces() {
    let mut l = running_loop();
    let c = l.conclude(EnclaveProcessCommandType::NotPermitted, Outcome::Served);
    assert_eq!(c.status, libc::EACCES);
    assert!(!c.exit);
    assert!(l.next_wait().is_some());
}

#[test]
fn failed_work_gives_einval_and_ends_loop() {
    let mut l = running_loop();
    let c = l.conclude(EnclaveProcessCommandType::Describe, Outcome::Failed);
    assert_eq!(c, Conclusion { status: libc::EINVAL, reply: true, exit: true, join_termination: false });
    assert_eq!(l.next_wait(), None);
    assert_eq!(l.listener().endpoint_count(), 0);
}

#[test]
fn failed_run_leaves_no_enclave() {
    let mut l = running_loop();
    let c = l.conclude(EnclaveProcessCommandType::Run, Outcome::Failed);
    assert_eq!(c.status, libc::EINVAL);
    assert!(c.exit);
    assert!(!l.is_active());
}

#[test]
fn run_with_empty_identity_fails() {
    let mut l = running_loop();
    let c = run_enclave(&mut l, "");
    assert_eq!(c.status, libc::EINVAL);
    assert!(c.exit);
}

#[test]
fn mismatched_outcome_fails() {
    let mut l = running_loop();
    let c = l.conclude(EnclaveProcessCommandType::Terminate, Outcome::Served);
    assert_eq!(c.status, libc::EINVAL);
    assert!(c.exit);
}

#[test]
fn hang_up_ends_loop_with_success() {
    let mut l = running_loop();
    run_enclave(&mut l, "i-0123-enc42");
    let flags = Some(libc::EPOLLHUP | libc::EPOLLIN);
    let ev = enclave_proc::enclave_event::try_handle_enclave_event(flags);
    assert_eq!(ev, HandledEnclaveEvent::HangUp(libc::EPOLLIN));
    let step = l.after_enclave_event(Ok(ev));
    assert_eq!(step, LoopStep::Exit { join_termination: false });
    assert!(!l.failed());
    assert_eq!(l.next_wait(), None);
    assert_eq!(l.listener().endpoint_count(), 0);
}

#[test]
fn hang_up_joins_pending_termination() {
    let mut l = running_loop();
    l.conclude(EnclaveProcessCommandType::Terminate, Outcome::TerminationStarted { channel: 11 });
    let step = l.after_enclave_event(Ok(HandledEnclaveEvent::HangUp(0)));
    assert_eq!(step, LoopStep::Exit { join_termination: true });
}

#[test]
fn other_enclave_flags_are_not_fatal() {
    let mut l = running_loop();
    let ev = enclave_proc::enclave_event::try_handle_enclave_event(Some(libc::EPOLLERR));
    assert_eq!(ev, HandledEnclaveEvent::Unexpected(libc::EPOLLERR));
    assert_eq!(l.after_enclave_event(Ok(ev)), LoopStep::Continue);
    assert!(l.next_wait().is_some());
}

#[test]
fn client_connection_reads_a_command() {
    let mut l = running_loop();
    let ev = enclave_proc::enclave_event::try_handle_enclave_event(None);
    assert_eq!(ev, HandledEnclaveEvent::NoEvent);
    assert_eq!(l.after_enclave_event(Ok(ev)), LoopStep::ReadCommand);
}

#[test]
fn unreadable_flags_end_loop_with_error() {
    let mut l = running_loop();
    assert_eq!(l.after_enclave_event(Err(())), LoopStep::Exit { join_termination: false });
    assert!(l.failed());
    assert_eq!(l.next_wait(), None);
}

#[test]
fn read_failure_ends_loop() {
    let mut l = running_loop();
    assert!(!l.after_read_failure());
    assert!(l.failed());
    assert_eq!(l.next_wait(), None);
    assert_eq!(l.listener().endpoint_count(), 0);
}

#[test]
fn error_message_is_queued_for_peer() {
    let mut conn: Vec<String> = vec!["earlier".to_string()];
    notify_error_with_conn("Error: boom", &mut conn);
    assert_eq!(conn, vec!["earlier".to_string(), "Error: boom".to_string()]);
}

#[test]
fn empty_enclave_flags_fall_through_to_command() {
    let ev = enclave_proc::enclave_event::try_handle_enclave_event(Some(0));
    assert_eq!(ev, HandledEnclaveEvent::NoEvent);
    let mut l = running_loop();
    assert_eq!(l.after_enclave_event(Ok(ev)), LoopStep::ReadCommand);
}

#[test]
fn read_failure_joins_pending_termination() {
    let mut l = running_loop();
    l.conclude(EnclaveProcessCommandType::Terminate, Outcome::TerminationStarted { channel: 11 });
    assert!(l.after_read_failure());
    assert!(l.failed());
    assert!(!l.termination_pending());
}
