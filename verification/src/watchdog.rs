//! What the background threads decide: the suspend detector's test, the
//! ticker's emission plan, and the reconfiguration message the IPC listener
//! accepts.
//!
//! The threads themselves — sleeping, reading the socket, posting into the
//! worker's channel — live outside the library and consult these functions.

use vstd::prelude::*;

use crate::config::Mode;
use crate::image::scaling::{Filter, Scaling};
use crate::messages::Frac;

verus! {

/// How long the sleep watchdog sleeps between wall-clock samples, in
/// seconds.
pub const POLL_INTERVAL_SEC: u64 = 60;

/// Whether an observed elapsed time betrays a suspend cycle: the process
/// slept `POLL_INTERVAL_SEC` but the wall clock advanced further.
pub fn sleep_cycle_detected(elapsed_secs: i64) -> (r: bool)
    ensures
        r == (elapsed_secs > POLL_INTERVAL_SEC),
{
    elapsed_secs > POLL_INTERVAL_SEC as i64
}

/// The ratios an animation ticker emits: one message per step, from
/// `offset / count` up to and including `count / count`.  The thread that
/// plays this plan sleeps one step between messages and stops early only
/// on cancellation.
pub fn ticker_messages(count: u64, offset: u64) -> (r: Vec<Frac>)
    requires
        offset <= count,
        count < u64::MAX,
    ensures
        r@.len() == count - offset + 1,
        forall|i: int|
            0 <= i < r@.len() ==> r@[i] == (Frac { num: (offset + i) as u64, den: count }),
{
    let mut r: Vec<Frac> = Vec::new();
    let mut n: u64 = offset;
    while n <= count
        invariant
            count < u64::MAX,
            offset <= n <= count + 1,
            r@.len() == n - offset,
            forall|i: int|
                0 <= i < r@.len() ==> r@[i] == (Frac { num: (offset + i) as u64, den: count }),
        decreases count + 1 - n,
    {
        r.push(Frac { num: n, den: count });
        n = n + 1;
    }
    r
}

/// A reconfiguration message received over the local socket.  Unset
/// options mean "keep the current value"; the mode, when unset, is inferred
/// from the path.
#[derive(Debug)]
pub struct Message {
    pub filter: Option<Filter>,
    pub scaling: Option<Scaling>,
    pub path: String,
    pub mode: Option<Mode>,
}

} // verus!
