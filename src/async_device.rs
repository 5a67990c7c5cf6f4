use std::sync::Arc;
use vstd::prelude::*;
use crate::future::{new_shared_loop, CallbackFuture, Completer, SharedLoop};

verus! {

/// A `wgpu::Device` together with the poll loop that its futures share, so
/// that its callback-and-poll operations can be awaited.
pub struct AsyncDevice {
    device: Arc<wgpu::Device>,
    poll_loop: SharedLoop,
}

impl Clone for AsyncDevice {
    /// Another handle on the same device and the same poll loop.
    fn clone(&self) -> (c: Self)
        ensures
            c.shares_with(*self),
            c.wrapped() == self.wrapped(),
    {
        AsyncDevice { device: self.device.clone(), poll_loop: self.poll_loop.clone() }
    }
}

impl AsyncDevice {
    /// The wrapped device.
    pub closed spec fn wrapped(self) -> wgpu::Device {
        *self.device
    }

    /// Whether both handles stand for the same device and poll loop.
    pub closed spec fn shares_with(self, other: Self) -> bool {
        self.device == other.device && self.poll_loop == other.poll_loop
    }

    /// Whether the future `f` polls this device under this device's poll loop.
    pub closed spec fn owns<R>(self, f: CallbackFuture<R>) -> bool {
        f.bound_to(self.device, self.poll_loop)
    }

    /// Wraps `device`, with a poll loop of its own.
    pub fn new(device: Arc<wgpu::Device>) -> (r: Self)
        ensures
            r.wrapped() == *device,
    {
        AsyncDevice { device, poll_loop: new_shared_loop() }
    }

    /// The wrapped device, for every operation that is not made async here.
    pub fn device(&self) -> (r: &wgpu::Device)
        ensures
            *r == self.wrapped(),
    {
        &self.device
    }

    /// Turns a callback-and-poll operation into a future.
    ///
    /// `f` runs at once, before this call returns, with the completion
    /// callback of the returned future; it should hand that callback to the
    /// device's asynchronous operation. The device is polled only while the
    /// future is awaited.
    pub fn do_async<F, R>(&self, f: F) -> (fut: CallbackFuture<R>)
        where
            F: FnOnce(Completer<R>),
            R: Send,
        requires
            forall|c: Completer<R>| f.requires((c,)),
        ensures
            self.owns(fut),
            fut.device_of() == self.wrapped(),
            !fut.holds_poll(),
            !fut.is_registered(),
            exists|c: Completer<R>| c.feeds(&fut) && f.ensures((c,), ()),
    {
        let future = CallbackFuture::new(self.device.clone(), self.poll_loop.clone());
        let callback = future.callback();
        f(callback);
        future
    }

    /// How many polls of the device have finished so far.
    pub fn polls(&self) -> u64 {
        let (l, handle) = self.poll_loop.acquire_write();
        let n = l.polls();
        handle.release_write(l);
        n
    }

    /// How many futures of this device currently wait for their result.
    pub fn outstanding(&self) -> u64 {
        let (l, handle) = self.poll_loop.acquire_write();
        let n = l.outstanding();
        handle.release_write(l);
        n
    }
}

impl std::ops::Deref for AsyncDevice {
    type Target = wgpu::Device;

    /// Every operation of the wrapped device that is not made async here is
    /// reached through it unchanged.
    fn deref(&self) -> (r: &wgpu::Device)
        ensures
            *r == self.wrapped(),
    {
        &self.device
    }
}

/// A buffer of an `AsyncDevice`, with a handle on that device so that its
/// own operations can be made async too.
pub struct AsyncBuffer {
    pub device: AsyncDevice,
    pub buffer: wgpu::Buffer,
}

} // verus!
