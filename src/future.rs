use std::sync::Arc;
use vstd::prelude::*;
use vstd::rwlock::{RwLock, RwLockPredicate};
use crate::poll_loop::{after_begin, after_end, after_release, grants, PollLoop, PollLoopView};
use crate::slot::{collected, collected_value, Phase, ResultSlot};

verus! {

/// The locks put no condition on what they hold: no contract speaks of the
/// locked state, which other threads may change at any time. Only the step
/// functions applied to it while it is held carry contracts.
pub struct AnyState;

impl<V> RwLockPredicate<V> for AnyState {
    open spec fn inv(self, v: V) -> bool {
        true
    }
}

/// A poll loop shared by every future of one device.
pub type SharedLoop = Arc<RwLock<PollLoop, AnyState>>;

/// A result slot shared by a future and its completion callback.
pub type SharedSlot<R> = Arc<RwLock<ResultSlot<R>, AnyState>>;

/// A fresh shared poll loop.
pub fn new_shared_loop() -> SharedLoop {
    Arc::new(RwLock::new(PollLoop::new(), Ghost(AnyState)))
}

/// What the first half of an await turn decided.
#[derive(Debug, PartialEq, Eq)]
pub enum Turn<R> {
    /// The result was there: hand it out, without polling.
    Ready(R),
    /// The result is not there and this future holds the right to poll.
    Poll,
    /// The result is not there and another future is polling.
    Wait,
}

/// What the first half of a turn decides, given the slot's phase and the
/// poll loop's state.
pub open spec fn turn_of<R>(p: Phase<R>, v: PollLoopView) -> Turn<R> {
    match p {
        Phase::Completed(x) => Turn::Ready(x),
        _ => if grants(v) {
            Turn::Poll
        } else {
            Turn::Wait
        },
    }
}

/// The poll loop after one registration leaves it.
pub open spec fn without_one(v: PollLoopView) -> PollLoopView {
    PollLoopView {
        outstanding: if v.outstanding > 0 {
            (v.outstanding - 1) as nat
        } else {
            0
        },
        ..v
    }
}

/// Whether a future is registered after the first half of a turn.
pub open spec fn registered_after_start<R>(p: Phase<R>, registered: bool, v: PollLoopView) -> bool {
    match p {
        Phase::Completed(_) => false,
        _ => registered || v.outstanding < u64::MAX,
    }
}

/// The poll loop after the first half of a turn: a completed future gives
/// its registration up; a waiting one registers (once) and asks for the
/// right to poll.
pub open spec fn loop_after_start<R>(p: Phase<R>, registered: bool, v: PollLoopView) -> PollLoopView {
    match p {
        Phase::Completed(_) => if registered {
            without_one(v)
        } else {
            v
        },
        _ => after_begin(
            PollLoopView {
                outstanding: if !registered && v.outstanding < u64::MAX {
                    v.outstanding + 1
                } else {
                    v.outstanding
                },
                ..v
            },
        ),
    }
}

/// The poll loop after the second half of a turn; `polled` tells whether
/// this future held the right to poll and made its poll.
pub open spec fn loop_after_finish<R>(
    p: Phase<R>,
    registered: bool,
    polled: bool,
    v: PollLoopView,
) -> PollLoopView {
    let w = if polled {
        after_end(v)
    } else {
        v
    };
    if registered && p is Completed {
        without_one(w)
    } else {
        w
    }
}

/// The first half of an await turn, with the slot and the poll loop in hand.
///
/// A completed slot yields its value at once, gives up the registration and
/// takes no right to poll. A pending slot registers the future (once) and
/// asks for the right to poll.
pub fn start_turn<R>(slot: &mut ResultSlot<R>, lp: &mut PollLoop, registered: bool) -> (res: (
    Turn<R>,
    bool,
))
    ensures
        res.0 == turn_of(old(slot).phase(), old(lp)@),
        res.1 == registered_after_start(old(slot).phase(), registered, old(lp)@),
        final(slot).phase() == collected(old(slot).phase()),
        final(lp)@ == loop_after_start(old(slot).phase(), registered, old(lp)@),
{
    match slot.take() {
        Some(v) => {
            if registered {
                lp.deregister();
            }
            (Turn::Ready(v), false)
        },
        None => {
            let now_registered = if registered {
                true
            } else {
                lp.register()
            };
            if lp.try_begin_poll() {
                (Turn::Poll, now_registered)
            } else {
                (Turn::Wait, now_registered)
            }
        },
    }
}

/// The second half of a turn: a future that polled gives the right to poll
/// back, and the value, if it has come, is handed out.
pub fn finish_turn<R>(
    slot: &mut ResultSlot<R>,
    lp: &mut PollLoop,
    registered: bool,
    polled: bool,
) -> (res: (
    Option<R>,
    bool,
))
    ensures
        res.0 == collected_value(old(slot).phase()),
        res.1 == (registered && res.0 is None),
        final(slot).phase() == collected(old(slot).phase()),
        final(lp)@ == loop_after_finish(old(slot).phase(), registered, polled, old(lp)@),
{
    if polled {
        lp.end_poll();
    }
    let r = slot.take();
    match r {
        Some(v) => {
            if registered {
                lp.deregister();
            }
            (Some(v), false)
        },
        None => (None, registered),
    }
}

/// The poll loop after a future is given up.
pub open spec fn loop_after_give_up(registered: bool, polling: bool, v: PollLoopView) -> PollLoopView {
    let w = if polling {
        after_release(v)
    } else {
        v
    };
    if registered {
        without_one(w)
    } else {
        w
    }
}

/// The bookkeeping of a future that is given up: its registration, if it
/// holds one, leaves the poll loop, and so does the right to poll, if it
/// holds that; nothing else changes.
pub fn give_up(lp: &mut PollLoop, registered: bool, polling: bool)
    ensures
        final(lp)@ == loop_after_give_up(registered, polling, old(lp)@),
{
    if polling {
        lp.release_poll();
    }
    if registered {
        lp.deregister();
    }
}

/// Awaiting a completed future yields its value without polling: the turn
/// hands the value out, and the right to poll and the count of polls stay
/// as they were.
pub proof fn lemma_completed_skips_polling<R>(x: R, registered: bool, v: PollLoopView)
    ensures
        turn_of(Phase::Completed(x), v) == Turn::Ready(x),
        loop_after_start(Phase::Completed(x), registered, v).polling == v.polling,
        loop_after_start(Phase::Completed(x), registered, v).polls == v.polls,
{
}

/// Awaiting a pending future never yields a value in the same half-turn: it
/// polls or it waits for the future that polls, and it polls only when
/// nobody else is polling.
pub proof fn lemma_pending_polls_or_waits<R>(p: Phase<R>, registered: bool, v: PollLoopView)
    requires
        p is Pending,
    ensures
        turn_of(p, v) == Turn::<R>::Poll || turn_of(p, v) == Turn::<R>::Wait,
        turn_of(p, v) == Turn::<R>::Poll <==> grants(v),
        loop_after_start(p, registered, v).polling,
{
}

/// Two futures of one device never poll at the same time: once one turn
/// is granted the poll, the turn of any other pending future waits until
/// the poll has finished or the polling future was given up, and after
/// that the next one may poll.
pub proof fn lemma_polls_serialized<R>(
    first: Phase<R>,
    first_registered: bool,
    second: Phase<R>,
    second_registered: bool,
    v: PollLoopView,
)
    requires
        first is Pending,
        second is Pending,
        turn_of(first, v) == Turn::<R>::Poll,
    ensures
        turn_of(second, loop_after_start(first, first_registered, v)) == Turn::<R>::Wait,
        turn_of(
            second,
            loop_after_finish(first, first_registered, true, loop_after_start(first, first_registered, v)),
        ) == Turn::<R>::Poll,
        turn_of(
            second,
            loop_after_give_up(first_registered, true, loop_after_start(first, first_registered, v)),
        ) == Turn::<R>::Poll,
{
}

/// What the second half of a turn brought.
#[derive(Debug, PartialEq, Eq)]
pub enum Step<R> {
    /// The result of the operation.
    Ready(R),
    /// No result yet.
    Pending,
}

/// The one-shot completion callback of a `CallbackFuture`.
///
/// The device driver gets it when the operation starts and calls `complete`
/// when the operation ends. It keeps the result slot alive on its own, so it
/// may fire after its future was dropped.
pub struct Completer<R> {
    slot: SharedSlot<R>,
}

impl<R> Completer<R> {
    /// Whether this callback feeds the future `f`.
    pub closed spec fn feeds(&self, f: &CallbackFuture<R>) -> bool {
        self.slot == f.slot
    }

    /// Stores `result` for the future, if no result was stored before, and
    /// reports whether it did. A later result never replaces an earlier one.
    pub fn complete(self, result: R) -> bool {
        let (mut s, handle) = self.slot.acquire_write();
        let stored = s.fire(result);
        handle.release_write(s);
        stored
    }
}

/// An awaitable result of one asynchronous operation on a device.
///
/// An await is a sequence of turns. `begin_turn` hands the result out if it
/// is there, without polling; otherwise it registers the future with its
/// poll loop and asks for the right to poll. Where it grants that right
/// (`Turn::Poll`), the caller polls the device, so that pending callbacks
/// fire, and then calls `end_turn`, which gives the right back and looks for
/// the result again. One future at a time per device holds the right.
pub struct CallbackFuture<R> {
    device: Arc<wgpu::Device>,
    poll_loop: SharedLoop,
    slot: SharedSlot<R>,
    registered: bool,
    polling: bool,
}

impl<R> CallbackFuture<R> {
    /// Whether this future has registered with its poll loop and not yet
    /// given the registration up.
    pub closed spec fn is_registered(&self) -> bool {
        self.registered
    }

    /// Whether this future holds its device's right to poll.
    pub closed spec fn holds_poll(&self) -> bool {
        self.polling
    }

    /// The device that this future's operation runs on.
    pub closed spec fn device_of(&self) -> wgpu::Device {
        *self.device
    }

    /// Whether this future polls `device` under `poll_loop`.
    pub closed spec fn bound_to(&self, device: Arc<wgpu::Device>, poll_loop: SharedLoop) -> bool {
        self.device == device && self.poll_loop == poll_loop
    }

    /// Whether the two futures wait for the same operation, on the same
    /// device and poll loop.
    pub closed spec fn same_operation(self, other: Self) -> bool {
        self.device == other.device && self.poll_loop == other.poll_loop && self.slot == other.slot
    }

    /// A pending future of `device`, not yet registered with `poll_loop`.
    pub fn new(device: Arc<wgpu::Device>, poll_loop: SharedLoop) -> (f: Self)
        ensures
            f.bound_to(device, poll_loop),
            f.device_of() == *device,
            !f.is_registered(),
            !f.holds_poll(),
    {
        let slot = Arc::new(RwLock::new(ResultSlot::new(), Ghost(AnyState)));
        CallbackFuture { device, poll_loop, slot, registered: false, polling: false }
    }

    /// A completion callback for this future.
    pub fn callback(&self) -> (c: Completer<R>)
        ensures
            c.feeds(self),
    {
        Completer { slot: self.slot.clone() }
    }

    /// The device to poll when `begin_turn` grants the right to poll.
    pub fn device(&self) -> (d: &wgpu::Device)
        ensures
            *d == self.device_of(),
    {
        &self.device
    }

    /// Whether the result has arrived (or was already handed out).
    pub fn is_complete(&self) -> bool {
        let (s, handle) = self.slot.acquire_write();
        let done = s.is_done();
        handle.release_write(s);
        done
    }

    /// The first half of an await turn (see `start_turn`). A future that
    /// still holds the right to poll from an earlier turn keeps it and is
    /// told to poll again.
    pub fn begin_turn(&mut self) -> (t: Turn<R>)
        ensures
            final(self).same_operation(*old(self)),
            final(self).holds_poll() == (t is Poll),
            old(self).holds_poll() ==> t is Poll && final(self).is_registered()
                == old(self).is_registered(),
            t is Ready ==> !final(self).is_registered(),
    {
        if self.polling {
            return Turn::Poll;
        }
        let (mut s, slot_handle) = self.slot.acquire_write();
        let (mut l, loop_handle) = self.poll_loop.acquire_write();
        let (turn, registered) = start_turn(&mut s, &mut l, self.registered);
        loop_handle.release_write(l);
        slot_handle.release_write(s);
        self.registered = registered;
        match turn {
            Turn::Poll => {
                self.polling = true;
                Turn::Poll
            },
            other => other,
        }
    }

    /// The second half of an await turn (see `finish_turn`): the right to
    /// poll, if this future holds it, goes back to the poll loop, and the
    /// result, if it has come, is handed out.
    pub fn end_turn(&mut self) -> (st: Step<R>)
        ensures
            final(self).same_operation(*old(self)),
            !final(self).holds_poll(),
            st is Ready ==> !final(self).is_registered(),
            st is Pending ==> final(self).is_registered() == old(self).is_registered(),
    {
        let (mut s, slot_handle) = self.slot.acquire_write();
        let (mut l, loop_handle) = self.poll_loop.acquire_write();
        let (r, registered) = finish_turn(&mut s, &mut l, self.registered, self.polling);
        loop_handle.release_write(l);
        slot_handle.release_write(s);
        self.registered = registered;
        self.polling = false;
        match r {
            Some(v) => Step::Ready(v),
            None => Step::Pending,
        }
    }

    /// Gives the future up. Its registration and its right to poll, if it
    /// holds them, go back to the poll loop; its callback may still fire
    /// later, into a slot that nobody reads.
    pub fn cancel(self) {
        let (mut l, handle) = self.poll_loop.acquire_write();
        give_up(&mut l, self.registered, self.polling);
        handle.release_write(l);
    }
}

} // verus!
