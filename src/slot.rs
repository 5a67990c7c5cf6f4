use vstd::prelude::*;

verus! {

/// Where the result of one asynchronous operation stands.
///
/// `Pending` is the initial phase. `Completed` holds the value that the
/// completion callback delivered. `Delivered` means that value was handed to
/// the waiter; it is still a completed phase, only emptied.
pub enum Phase<R> {
    Pending,
    Completed(R),
    Delivered,
}

impl<R> Phase<R> {
    /// True once the completion callback has stored a value.
    pub open spec fn is_done(self) -> bool {
        !(self is Pending)
    }
}

/// The phase after the completion callback fires with `r`: only a pending
/// slot accepts a value, a completed one keeps what it holds.
pub open spec fn fired<R>(p: Phase<R>, r: R) -> Phase<R> {
    match p {
        Phase::Pending => Phase::Completed(r),
        _ => p,
    }
}

/// The phase after the waiter collects the result.
pub open spec fn collected<R>(p: Phase<R>) -> Phase<R> {
    match p {
        Phase::Completed(_) => Phase::Delivered,
        _ => p,
    }
}

/// What the waiter gets when it collects from a slot in phase `p`.
pub open spec fn collected_value<R>(p: Phase<R>) -> Option<R> {
    match p {
        Phase::Completed(r) => Some(r),
        _ => None,
    }
}

/// The storage that a completion callback and its future share.
pub struct ResultSlot<R> {
    done: bool,
    value: Option<R>,
}

impl<R> ResultSlot<R> {
    pub closed spec fn phase(&self) -> Phase<R> {
        if !self.done {
            Phase::Pending
        } else {
            match self.value {
                Some(v) => Phase::Completed(v),
                None => Phase::Delivered,
            }
        }
    }

    /// A slot that waits for its value.
    pub fn new() -> (s: Self)
        ensures
            s.phase() is Pending,
    {
        ResultSlot { done: false, value: None }
    }

    /// Whether the completion callback has stored a value.
    pub fn is_done(&self) -> (b: bool)
        ensures
            b == self.phase().is_done(),
    {
        self.done
    }

    /// Stores `r` when the slot is pending and reports whether it did; a slot
    /// that was already completed is left as it is.
    pub fn fire(&mut self, r: R) -> (stored: bool)
        ensures
            final(self).phase() == fired(old(self).phase(), r),
            stored == (old(self).phase() is Pending),
    {
        if self.done {
            false
        } else {
            self.done = true;
            self.value = Some(r);
            true
        }
    }

    /// Hands the stored value out, once.
    pub fn take(&mut self) -> (r: Option<R>)
        ensures
            final(self).phase() == collected(old(self).phase()),
            r == collected_value(old(self).phase()),
    {
        if self.done {
            self.value.take()
        } else {
            None
        }
    }
}

/// Once a value is stored, a second firing does not change it: the phase
/// after two firings is the phase after the first.
pub proof fn lemma_fire_at_most_once<R>(p: Phase<R>, r1: R, r2: R)
    ensures
        fired(fired(p, r1), r2) == fired(p, r1),
        p is Pending ==> fired(fired(p, r1), r2) == Phase::Completed(r1),
{
}

/// A completed slot never goes back to pending, whatever fires or is collected.
pub proof fn lemma_done_is_terminal<R>(p: Phase<R>, r: R)
    requires
        p.is_done(),
    ensures
        fired(p, r).is_done(),
        collected(p).is_done(),
{
}

} // verus!
