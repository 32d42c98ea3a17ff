//! When to try connecting again. The socket of the VM's serial device may not
//! be listening yet when the client starts, so connecting races the boot:
//! attempts repeat at a fixed interval until a deadline.
use crate::session::ClientError;
use vstd::prelude::*;

verus! {

/// What to do after a failed attempt to connect.
#[derive(Debug, Clone, Copy, PartialEq, Eq, Structural)]
pub enum ConnectStep {
    /// Wait this many milliseconds, then try again.
    RetryAfter(u64),
    /// The deadline has passed.
    GiveUp(ClientError),
}

/// The next step after an attempt failed `elapsed_ms` milliseconds after the
/// first one began, for a deadline of `timeout_ms` and attempts
/// `interval_ms` apart. The wait never runs past the deadline, and the client
/// gives up only once the deadline is reached, with `ConnectTimeout`.
pub fn next_connect_step(elapsed_ms: u64, timeout_ms: u64, interval_ms: u64) -> (r: ConnectStep)
    ensures
        elapsed_ms >= timeout_ms ==> r == ConnectStep::GiveUp(ClientError::ConnectTimeout),
        elapsed_ms < timeout_ms ==> r == ConnectStep::RetryAfter(
            if interval_ms < timeout_ms - elapsed_ms {
                interval_ms
            } else {
                (timeout_ms - elapsed_ms) as u64
            },
        ),
{
    if elapsed_ms >= timeout_ms {
        ConnectStep::GiveUp(ClientError::ConnectTimeout)
    } else {
        let left = timeout_ms - elapsed_ms;
        if interval_ms < left {
            ConnectStep::RetryAfter(interval_ms)
        } else {
            ConnectStep::RetryAfter(left)
        }
    }
}

} // verus!
