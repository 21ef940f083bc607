//! The worker's unified event stream: everything the registry, the timers,
//! the watchdogs and the IPC listener may post.

use vstd::prelude::*;

use crate::outputs::Output;
use crate::watchdog::Message;

verus! {

/// An exact animation ratio `num / den`; the ticker emits `i / count` for
/// `i = offset ..= count`.
#[derive(Debug, Clone, Copy, PartialEq, Eq, Structural)]
pub struct Frac {
    pub num: u64,
    pub den: u64,
}

impl Frac {
    /// The ratio has reached (or passed) one.
    pub open spec fn spec_done(&self) -> bool {
        self.num >= self.den
    }

    pub fn done(&self) -> (r: bool)
        ensures
            r == self.spec_done(),
    {
        self.num >= self.den
    }
}

/// One message of the worker's event stream.
#[derive(Debug)]
pub enum WorkerMessage {
    /// A new or re-advertised output, as a snapshot of its properties.
    AddOutput(Output, u32),
    /// An output disappeared.
    RemoveOutput(u32),
    /// One animation tick at the given ratio.
    AnimationStep(Frac),
    /// Begin a transition of the given duration, in milliseconds.
    AnimationStart(u64),
    /// Re-sample the timeline and redraw everything.
    Refresh,
    /// A reconfiguration received over the local socket.
    IPCConfigUpdate(Message),
}

} // verus!
