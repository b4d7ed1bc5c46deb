//! The stop signals shared by a recorder and its external trigger.
use vstd::prelude::*;

verus! {

/// The two stop requests. Once set, a request stays set.
#[derive(Clone, Copy, Debug, PartialEq, Eq, Structural)]
pub struct StopSignals {
    pub segment: bool,
    pub batch: bool,
}

impl StopSignals {
    /// No stop requested yet.
    pub fn new() -> (r: StopSignals)
        ensures
            !r.segment,
            !r.batch,
    {
        StopSignals { segment: false, batch: false }
    }

    /// Sets both requests: the current segment ends and no further batch
    /// segment starts.
    pub fn request_stop(&mut self)
        ensures
            final(self).segment,
            final(self).batch,
    {
        self.segment = true;
        self.batch = true;
    }

    /// Whether the current segment is asked to end.
    pub fn segment_should_stop(&self) -> (r: bool)
        ensures
            r == self.segment,
    {
        self.segment
    }

    /// Whether the batch loop is asked to end.
    pub fn batch_should_stop(&self) -> (r: bool)
        ensures
            r == self.batch,
    {
        self.batch
    }
}

/// A stop request leaves the signals in one state whatever they were: any
/// two states that a request can leave are equal, so a second request
/// changes nothing.
pub proof fn lemma_request_stop_idempotent(once: StopSignals, twice: StopSignals)
    requires
        once.segment && once.batch,
        twice.segment && twice.batch,
    ensures
        once == twice,
{
}

/// Why a trigger could not be installed.
#[derive(Clone, Copy, Debug, PartialEq, Eq, Structural)]
pub enum TriggerError {
    AlreadyInstalled,
}

/// Records whether the external stop trigger has been installed; it may be
/// installed once.
#[derive(Clone, Copy, Debug, PartialEq, Eq, Structural)]
pub struct TriggerSlot {
    pub installed: bool,
}

impl TriggerSlot {
    pub fn new() -> (r: TriggerSlot)
        ensures
            !r.installed,
    {
        TriggerSlot { installed: false }
    }

    /// Claims the slot. A second claim fails and leaves the slot as it was.
    pub fn install(&mut self) -> (r: Result<(), TriggerError>)
        ensures
            r.is_ok() <==> !old(self).installed,
            r.is_err() ==> r == Err::<(), TriggerError>(TriggerError::AlreadyInstalled),
            final(self).installed,
    {
        if self.installed {
            Err(TriggerError::AlreadyInstalled)
        } else {
            self.installed = true;
            Ok(())
        }
    }
}

} // verus!
