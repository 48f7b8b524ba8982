//! The x86-side access observer: a window of physical memory whose reads and
//! writes the emulator records out of band.
//!
//! The emulator reports, per run, at most one caught read and one caught
//! write (address plus program counter). The decision which runs are worth
//! keeping — a fresh mailbox command that touched the window — is made here
//! from plain values; arming and polling the observer is the caller's task.

use vstd::prelude::*;

verus! {

/// The observed window, as begin and end physical addresses.
#[derive(Clone, Copy, Debug, PartialEq, Eq, Structural)]
pub struct AccessObserverConfig {
    pub start: u64,
    pub end: u64,
}

impl AccessObserverConfig {
    /// A window must be non-empty.
    pub open spec fn wf(self) -> bool {
        self.start < self.end
    }

    /// Size of the observed window.
    pub fn size(&self) -> (r: u64)
        requires
            self.wf(),
        ensures
            r == self.end - self.start,
    {
        self.end - self.start
    }
}

/// The same window shape under its earlier name; the crash configuration
/// still carries it.
#[derive(Clone, Copy, Debug, PartialEq, Eq, Structural)]
pub struct WriteCatcherConfig {
    pub start: u64,
    pub end: u64,
}

/// Handle for the emulator-side observer; its operations live with the
/// emulator bindings outside the library.
#[derive(Clone, Copy, Debug, PartialEq, Eq, Structural)]
pub struct AccessObserver {}

/// What the observer caught in one run: at most one read and one write, each
/// as (physical address, program counter).
#[derive(Clone, Copy, Debug)]
pub struct AccessObserverMetadata {
    pub caught_read: Option<(u64, u64)>,
    pub caught_write: Option<(u64, u64)>,
}

/// Decode one raw status answer: the emulator reports address zero when
/// nothing was caught.
pub fn decode_catch(addr: u64, pc: u64) -> (r: Option<(u64, u64)>)
    ensures
        r == (if addr != 0 {
            Some((addr, pc))
        } else {
            None::<(u64, u64)>
        }),
{
    if addr != 0 {
        Some((addr, pc))
    } else {
        None
    }
}

/// Decides which runs the observer makes interesting; remembers the mailbox
/// commands already reported so each command is reported once.
#[derive(Clone, Debug)]
pub struct AccessObserverFeedback {
    pub already_observed_messages: Vec<u32>,
}

impl AccessObserverFeedback {
    /// A feedback that has reported nothing yet.
    pub fn new() -> (r: Self)
        ensures
            r.already_observed_messages@ == Seq::<u32>::empty(),
    {
        AccessObserverFeedback { already_observed_messages: Vec::new() }
    }

    /// A run is interesting when the observer caught an access and the run's
    /// mailbox command has not been reported before; the command is then
    /// remembered.
    pub fn is_interesting(&mut self, mbox: u32, result: &AccessObserverMetadata) -> (r: bool)
        ensures
            r == (!old(self).already_observed_messages@.contains(mbox) && (result.caught_read
                is Some || result.caught_write is Some)),
            r ==> final(self).already_observed_messages@ == old(
                self,
            ).already_observed_messages@.push(mbox),
            !r ==> final(self).already_observed_messages@ == old(self).already_observed_messages@,
    {
        let mut i: usize = 0;
        while i < self.already_observed_messages.len()
            invariant
                i <= self.already_observed_messages@.len(),
                forall|j: int| 0 <= j < i ==> self.already_observed_messages@[j] != mbox,
        decreases self.already_observed_messages@.len() - i,
        {
            if self.already_observed_messages[i] == mbox {
                return false;
            }
            i = i + 1;
        }
        proof {
            assert(!self.already_observed_messages@.contains(mbox));
        }
        if result.caught_read.is_some() || result.caught_write.is_some() {
            self.already_observed_messages.push(mbox);
            true
        } else {
            false
        }
    }
}

} // verus!
