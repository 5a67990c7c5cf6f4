use vstd::prelude::*;

verus! {

/// The abstract state of a poll loop.
pub struct PollLoopView {
    /// How many futures wait for a result.
    pub outstanding: nat,
    /// Whether some future holds the right to poll the device.
    pub polling: bool,
    /// How many polls of the device have finished.
    pub polls: nat,
}

/// Whether a request for the right to poll is granted in state `v`.
pub open spec fn grants(v: PollLoopView) -> bool {
    !v.polling
}

/// The state after a request for the right to poll.
pub open spec fn after_begin(v: PollLoopView) -> PollLoopView {
    PollLoopView { polling: true, ..v }
}

/// The state after the holder of the right gives it back, one poll made.
pub open spec fn after_end(v: PollLoopView) -> PollLoopView {
    PollLoopView {
        polling: false,
        polls: if v.polls < u64::MAX { v.polls + 1 } else { v.polls },
        ..v
    }
}

/// The state after the holder of the right gives it back without a
/// finished poll.
pub open spec fn after_release(v: PollLoopView) -> PollLoopView {
    PollLoopView { polling: false, ..v }
}

/// The bookkeeping that one device's futures share: how many of them wait
/// for a result, whether one of them currently holds the right to poll the
/// device, and how many polls have finished.
pub struct PollLoop {
    outstanding: u64,
    polling: bool,
    polls: u64,
}

impl View for PollLoop {
    type V = PollLoopView;

    closed spec fn view(&self) -> PollLoopView {
        PollLoopView {
            outstanding: self.outstanding as nat,
            polling: self.polling,
            polls: self.polls as nat,
        }
    }
}

impl PollLoop {
    /// No registration, nobody polling, no poll made.
    pub fn new() -> (l: Self)
        ensures
            l@ == (PollLoopView { outstanding: 0, polling: false, polls: 0 }),
    {
        PollLoop { outstanding: 0, polling: false, polls: 0 }
    }

    /// How many futures wait for a result.
    pub fn outstanding(&self) -> (n: u64)
        ensures
            n == self@.outstanding,
    {
        self.outstanding
    }

    /// Whether a poll of the device is under way.
    pub fn is_polling(&self) -> (b: bool)
        ensures
            b == self@.polling,
    {
        self.polling
    }

    /// How many polls of the device have finished.
    pub fn polls(&self) -> (n: u64)
        ensures
            n == self@.polls,
    {
        self.polls
    }

    /// Whether the device has to be polled at all: only while some future waits.
    pub fn needs_polling(&self) -> (b: bool)
        ensures
            b == (self@.outstanding > 0),
    {
        self.outstanding > 0
    }

    /// Records one more waiting future. The count cannot pass `u64::MAX`:
    /// there the call changes nothing and returns false.
    pub fn register(&mut self) -> (ok: bool)
        ensures
            ok == (old(self)@.outstanding < u64::MAX),
            final(self)@ == (PollLoopView {
                outstanding: if ok { old(self)@.outstanding + 1 } else { old(self)@.outstanding },
                ..old(self)@
            }),
    {
        if self.outstanding < u64::MAX {
            self.outstanding = self.outstanding + 1;
            true
        } else {
            false
        }
    }

    /// Removes one waiting future; the count never drops below zero.
    pub fn deregister(&mut self)
        ensures
            final(self)@ == (PollLoopView {
                outstanding: if old(self)@.outstanding > 0 {
                    (old(self)@.outstanding - 1) as nat
                } else {
                    0
                },
                ..old(self)@
            }),
    {
        if self.outstanding > 0 {
            self.outstanding = self.outstanding - 1;
        }
    }

    /// Takes the right to poll the device if nobody holds it. Only the caller
    /// that got `true` may poll, and it gives the right back with `end_poll`.
    pub fn try_begin_poll(&mut self) -> (granted: bool)
        ensures
            granted == grants(old(self)@),
            final(self)@ == after_begin(old(self)@),
    {
        if self.polling {
            false
        } else {
            self.polling = true;
            true
        }
    }

    /// Gives the right to poll back and counts the poll that was made
    /// (the count stays at `u64::MAX` once there).
    pub fn end_poll(&mut self)
        ensures
            final(self)@ == after_end(old(self)@),
    {
        self.polling = false;
        if self.polls < u64::MAX {
            self.polls = self.polls + 1;
        }
    }
}

impl PollLoop {
    /// Gives the right to poll back when the poll was given up.
    pub fn release_poll(&mut self)
        ensures
            final(self)@ == after_release(old(self)@),
    {
        self.polling = false;
    }
}

/// The right to poll is exclusive: after one request is granted, every
/// further request is refused until the holder gives the right back, and
/// then the next request is granted.
pub proof fn lemma_poll_rights_exclusive(v: PollLoopView)
    ensures
        !grants(after_begin(v)),
        !grants(after_begin(after_begin(v))),
        grants(after_end(after_begin(v))),
        after_end(after_begin(v)).outstanding == v.outstanding,
{
}

} // verus!
