use vstd::prelude::*;

verus! {

/// The value of `EEXIST` on Linux.
pub open spec fn spec_eexist() -> i32 {
    17
}

/// The value of `EACCES` on Linux.
pub open spec fn spec_eacces() -> i32 {
    13
}

/// The value of `EINVAL` on Linux.
pub open spec fn spec_einval() -> i32 {
    22
}

/// Relies on `libc::EEXIST`: the status sent for a second `Run`.
#[verifier::external_body]
pub(crate) fn eexist() -> (r: i32)
    ensures
        r == spec_eexist(),
{
    libc::EEXIST
}

/// Relies on `libc::EACCES`: the status sent for a command that is not permitted.
#[verifier::external_body]
pub(crate) fn eacces() -> (r: i32)
    ensures
        r == spec_eacces(),
{
    libc::EACCES
}

/// Relies on `libc::EINVAL`: the status sent when handling a command failed.
#[verifier::external_body]
pub(crate) fn einval() -> (r: i32)
    ensures
        r == spec_einval(),
{
    libc::EINVAL
}

} // verus!
