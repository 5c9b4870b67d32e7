//! The command dispatcher of an enclave supervisor process: the decisions of
//! its event loop, the bookkeeping of the endpoints it waits on, the
//! classification of enclave hardware events and the logger identity.

pub mod command;
pub mod enclave_event;
pub mod errno;
pub mod event_loop;
pub mod listener;
pub mod logger_id;
