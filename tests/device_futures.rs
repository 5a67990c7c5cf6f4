use std::cell::{Cell, RefCell};
use std::rc::Rc;
use std::sync::Arc;
use wgpu_async::future::Turn;
use wgpu_async::{AsyncBuffer, AsyncDevice, CallbackFuture, Completer, Step};

fn noop_device() -> AsyncDevice {
    let (device, _queue) = wgpu::Device::noop(&wgpu::DeviceDescriptor::default());
    AsyncDevice::new(Arc::new(device))
}

/// One await turn; `driver` stands for the device's driver during the poll.
fn turn<R>(fut: &mut CallbackFuture<R>, driver: &mut dyn FnMut()) -> Option<R> {
    match fut.begin_turn() {
        Turn::Ready(v) => Some(v),
        Turn::Wait => None,
        Turn::Poll => {
            let _ = fut.device().poll(wgpu::PollType::Poll);
            driver();
            match fut.end_turn() {
                Step::Ready(v) => Some(v),
                Step::Pending => None,
            }
        }
    }
}

type Stash<R> = Rc<RefCell<Option<Completer<R>>>>;

fn stash<R>() -> Stash<R> {
    Rc::new(RefCell::new(None))
}

fn fire<R>(s: &Stash<R>, v: R) {
    if let Some(c) = s.borrow_mut().take() {
        c.complete(v);
    }
}

#[test]
fn operation_runs_once_before_return() {
    let dev = noop_device();
    let calls = Cell::new(0u32);
    let fut = dev.do_async(|c: Completer<u32>| {
        calls.set(calls.get() + 1);
        drop(c);
    });
    assert_eq!(calls.get(), 1);
    assert!(!fut.is_complete());
    assert_eq!(dev.polls(), 0);
    assert_eq!(dev.outstanding(), 0);
    fut.cancel();
    assert_eq!(calls.get(), 1);
}

#[test]
fn synchronous_callback_needs_no_poll() {
    let dev = noop_device();
    let mut fut = dev.do_async(|c: Completer<u32>| {
        c.complete(42);
    });
    assert!(fut.is_complete());
    assert_eq!(fut.begin_turn(), Turn::Ready(42));
    assert_eq!(dev.polls(), 0);
    assert_eq!(dev.outstanding(), 0);
}

#[test]
fn second_firing_keeps_first_result() {
    let dev = noop_device();
    let mut fut = dev.do_async(|c: Completer<u32>| {
        assert!(c.complete(1));
    });
    let again = fut.callback();
    assert!(!again.complete(2));
    assert_eq!(fut.begin_turn(), Turn::Ready(1));
}

#[test]
fn second_firing_after_first_poll_keeps_first_result() {
    let dev = noop_device();
    let s = stash();
    let keep = s.clone();
    let mut fut = dev.do_async(move |c: Completer<u32>| {
        *keep.borrow_mut() = Some(c);
    });
    let again = fut.callback();
    let got = turn(&mut fut, &mut || fire(&s, 1));
    assert_eq!(got, Some(1));
    assert!(!again.complete(2));
    assert_eq!(dev.polls(), 1);
}

#[test]
fn completed_future_returns_without_polling() {
    let dev = noop_device();
    let s = stash();
    let keep = s.clone();
    let mut fut = dev.do_async(move |c: Completer<u32>| {
        *keep.borrow_mut() = Some(c);
    });
    assert_eq!(turn(&mut fut, &mut || {}), None);
    assert_eq!(dev.polls(), 1);
    assert_eq!(dev.outstanding(), 1);
    fire(&s, 9);
    assert_eq!(fut.begin_turn(), Turn::Ready(9));
    assert_eq!(dev.polls(), 1);
    assert_eq!(dev.outstanding(), 0);
}

#[test]
fn deferred_callback_after_three_polls() {
    let dev = noop_device();
    let s = stash();
    let keep = s.clone();
    let mut fut = dev.do_async(move |c: Completer<u32>| {
        *keep.borrow_mut() = Some(c);
    });
    let driver_polls = Cell::new(0u32);
    let mut driver = || {
        driver_polls.set(driver_polls.get() + 1);
        if driver_polls.get() == 3 {
            fire(&s, 7);
        }
    };
    let mut turns = 0u32;
    let value = loop {
        turns += 1;
        assert!(turns < 100);
        if let Some(v) = turn(&mut fut, &mut driver) {
            break v;
        }
        assert_eq!(dev.outstanding(), 1);
    };
    assert_eq!(value, 7);
    assert_eq!(driver_polls.get(), 3);
    assert_eq!(dev.polls(), 3);
    assert_eq!(dev.outstanding(), 0);
}

#[test]
fn two_futures_on_one_device() {
    let dev = noop_device();
    let first = stash();
    let second = stash();
    let k1 = first.clone();
    let k2 = second.clone();
    let mut f1 = dev.do_async(move |c| {
        *k1.borrow_mut() = Some(c);
    });
    let mut f2 = dev.do_async(move |c| {
        *k2.borrow_mut() = Some(c);
    });
    let driver_polls = Cell::new(0u32);
    let mut driver = || {
        driver_polls.set(driver_polls.get() + 1);
        if driver_polls.get() >= 2 {
            fire(&first, "first");
        }
        if driver_polls.get() >= 5 {
            fire(&second, "second");
        }
    };
    let mut r1 = None;
    let mut r2 = None;
    let mut turns = 0u32;
    while r1.is_none() || r2.is_none() {
        turns += 1;
        assert!(turns < 100);
        if r1.is_none() {
            r1 = turn(&mut f1, &mut driver);
        }
        if r2.is_none() {
            r2 = turn(&mut f2, &mut driver);
        }
    }
    assert_eq!(r1, Some("first"));
    assert_eq!(r2, Some("second"));
    assert_eq!(driver_polls.get(), 5);
    assert_eq!(dev.polls(), 5);
    assert_eq!(dev.outstanding(), 0);
}

#[test]
fn second_future_waits_while_first_holds_the_poll() {
    let dev = noop_device();
    let mut f1 = dev.do_async(|c: Completer<u32>| drop(c));
    let mut f2 = dev.do_async(|c: Completer<u32>| drop(c));
    assert_eq!(f1.begin_turn(), Turn::Poll);
    assert_eq!(f2.begin_turn(), Turn::Wait);
    assert_eq!(f1.begin_turn(), Turn::Poll);
    assert_eq!(f1.end_turn(), Step::Pending);
    assert_eq!(f2.begin_turn(), Turn::Poll);
    f2.cancel();
    assert_eq!(f1.begin_turn(), Turn::Poll);
    f1.cancel();
    assert_eq!(dev.outstanding(), 0);
}

#[test]
fn cancelled_poller_hands_the_poll_on() {
    let dev = noop_device();
    let mut f1 = dev.do_async(|c: Completer<u32>| drop(c));
    let mut f2 = dev.do_async(|c: Completer<u32>| {
        c.complete(5);
    });
    assert_eq!(f1.begin_turn(), Turn::Poll);
    f1.cancel();
    assert_eq!(dev.outstanding(), 0);
    assert_eq!(f2.begin_turn(), Turn::Ready(5));
}

#[test]
fn cancelled_future_tolerates_late_callback() {
    let dev = noop_device();
    let orphan = stash();
    let other = stash();
    let k1 = orphan.clone();
    let k2 = other.clone();
    let mut dropped = dev.do_async(move |c| {
        *k1.borrow_mut() = Some(c);
    });
    let mut kept = dev.do_async(move |c| {
        *k2.borrow_mut() = Some(c);
    });
    assert_eq!(turn(&mut dropped, &mut || {}), None);
    assert_eq!(turn(&mut kept, &mut || {}), None);
    assert_eq!(dev.outstanding(), 2);
    dropped.cancel();
    assert_eq!(dev.outstanding(), 1);
    assert!(orphan.borrow_mut().take().unwrap().complete(1));
    assert!(other.borrow_mut().take().unwrap().complete(2));
    assert_eq!(kept.begin_turn(), Turn::Ready(2));
    assert_eq!(dev.outstanding(), 0);
}

#[test]
fn clone_shares_poll_loop() {
    let dev = noop_device();
    let copy = dev.clone();
    let mut fut = copy.do_async(|c: Completer<u32>| drop(c));
    assert_eq!(turn(&mut fut, &mut || {}), None);
    assert_eq!(dev.polls(), 1);
    assert_eq!(dev.outstanding(), 1);
    fut.cancel();
    assert_eq!(dev.outstanding(), 0);
}

#[test]
fn buffer_keeps_its_device() {
    let dev = noop_device();
    let buffer = dev.device().create_buffer(&wgpu::BufferDescriptor {
        label: None,
        size: 256,
        usage: wgpu::BufferUsages::MAP_READ | wgpu::BufferUsages::COPY_DST,
        mapped_at_creation: false,
    });
    let buf = AsyncBuffer { device: dev.clone(), buffer };
    assert_eq!(buf.buffer.size(), 256);
    let mut fut = buf.device.do_async(|c: Completer<u8>| {
        c.complete(3);
    });
    assert_eq!(fut.begin_turn(), Turn::Ready(3));
    assert_eq!(dev.polls(), 0);
}

#[test]
fn other_operations_reach_the_device() {
    let dev = noop_device();
    assert_eq!(dev.features(), dev.device().features());
    assert_eq!(dev.limits(), dev.device().limits());
}

#[test]
fn polls_never_overlap_when_turns_interleave() {
    let dev = noop_device();
    let first = stash();
    let second = stash();
    let k1 = first.clone();
    let k2 = second.clone();
    let mut futs = vec![
        dev.do_async(move |c: Completer<u32>| {
            *k1.borrow_mut() = Some(c);
        }),
        dev.do_async(move |c: Completer<u32>| {
            *k2.borrow_mut() = Some(c);
        }),
    ];
    let in_poll = Cell::new(false);
    let driver_polls = Cell::new(0u32);
    let mut results: Vec<Option<u32>> = vec![None, None];
    let mut turns = 0u32;
    while results.iter().any(|r| r.is_none()) {
        turns += 1;
        assert!(turns < 100);
        for i in 0..2usize {
            if results[i].is_some() {
                continue;
            }
            let other = 1 - i;
            match futs[i].begin_turn() {
                Turn::Ready(v) => results[i] = Some(v),
                Turn::Wait => {}
                Turn::Poll => {
                    assert!(!in_poll.replace(true));
                    driver_polls.set(driver_polls.get() + 1);
                    // The other task runs a turn while this poll is under way.
                    if results[other].is_none() {
                        assert_eq!(futs[other].begin_turn(), Turn::Wait);
                    }
                    if driver_polls.get() >= 2 {
                        fire(&first, 10);
                    }
                    if driver_polls.get() >= 5 {
                        fire(&second, 11);
                    }
                    assert!(in_poll.replace(false));
                    if let Step::Ready(v) = futs[i].end_turn() {
                        results[i] = Some(v);
                    }
                }
            }
        }
    }
    assert_eq!(results, vec![Some(10), Some(11)]);
    assert_eq!(dev.outstanding(), 0);
    assert_eq!(dev.polls() as u32, driver_polls.get());
}
