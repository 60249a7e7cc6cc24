//! Tunable delays of the commands that wait: how long `send` waits before
//! checking delivery and how often `wait` polls.

use vstd::prelude::*;

verus! {

/// The delays, in milliseconds.
#[derive(Debug, Clone, Copy, PartialEq, Eq, Structural)]
pub struct Timings {
    /// Pause before `send` compares the pane to confirm delivery.
    pub send_verify_delay: u64,
    /// Pause between two polls of the idle marker in `wait`.
    pub wait_poll_interval: u64,
}

impl Timings {
    /// The delays used in production: half a second each.
    pub fn production() -> (r: Self)
        ensures
            r.send_verify_delay == 500,
            r.wait_poll_interval == 500,
    {
        Timings { send_verify_delay: 500, wait_poll_interval: 500 }
    }

    /// No delays, for tests.
    pub fn zero() -> (r: Self)
        ensures
            r.send_verify_delay == 0,
            r.wait_poll_interval == 0,
    {
        Timings { send_verify_delay: 0, wait_poll_interval: 0 }
    }
}

} // verus!
