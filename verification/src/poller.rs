use vstd::prelude::*;
use crate::attrs::parse_value_snapshot;
use crate::errors::GpioError;
use crate::ev::event_context_create;
use crate::ev::event_context_register;
use crate::ev::event_wait;
use crate::fsio::close_fd;
use crate::fsio::open_rdonly;
use crate::fsio::read_text;
use crate::fsio::seek_start;
use crate::pin::Pin;
use crate::pin::attr_path;

verus! {

/// A blocking waiter for edge interrupts on one pin.
///
/// It exclusively owns an open descriptor on the pin's value attribute
/// and an event-notification context registered, for its whole lifetime,
/// for exactly that one descriptor.  It is meaningful only while the pin
/// stays exported with a non-`NoInterrupt` edge configuration — a caller
/// contract the poller does not enforce.
///
/// There is no implicit teardown: call [`PinPoller::close`], which
/// consumes the poller, so the context is released exactly once.
pub struct PinPoller {
    pin_num: u64,
    epoll_fd: i32,
    devfile_fd: i32,
}

impl View for PinPoller {
    type V = u64;

    closed spec fn view(&self) -> u64 {
        self.pin_num
    }
}

impl PinPoller {
    /// A fresh [`Pin`] handle carrying this poller's pin number; it
    /// shares no ownership with the poller's descriptors.
    pub fn get_pin(&self) -> (r: Pin)
        ensures
            r@ == self@,
    {
        Pin::new(self.pin_num)
    }

    /// Opens the pin's value attribute and registers it with a fresh
    /// event-notification context, waking on priority-data readability,
    /// edge-triggered.  When registration fails after the context was
    /// created, both the context and the value descriptor are released
    /// before the error returns — no leak on the failure path.
    pub fn new(pin_num: u64) -> (r: Result<PinPoller, GpioError>)
        ensures
            r matches Ok(p) ==> p@ == pin_num,
            r matches Err(e) ==> e is Os,
    {
        let path = attr_path(pin_num, "value");
        let devfile_fd = match open_rdonly(path.as_str()) {
            Ok(fd) => fd,
            Err(e) => {
                return Err(e);
            },
        };
        let epoll_fd = match event_context_create() {
            Ok(fd) => fd,
            Err(e) => {
                let _ = close_fd(devfile_fd);
                return Err(e);
            },
        };
        match event_context_register(epoll_fd, devfile_fd) {
            Ok(_) => Ok(PinPoller { pin_num, epoll_fd, devfile_fd }),
            Err(e) => {
                let _ = close_fd(epoll_fd);
                let _ = close_fd(devfile_fd);
                Err(e)
            },
        }
    }

    /// Blocks until an edge interrupt arrives on the pin or `timeout_ms`
    /// milliseconds pass (negative waits indefinitely, zero returns at
    /// once).  On an event, the value file is rewound, re-read, and its
    /// leading character returned as `Some(0)` or `Some(1)`: the pin's
    /// level at the moment of reading, not the direction of the edge, and
    /// not deduplicated against earlier polls.  A timeout is not an
    /// error: it returns `None`.
    ///
    /// Before waiting, buffered-but-unread bytes of the value file are
    /// read and discarded (up to 255): the attribute accumulates readable
    /// state, and without the flush the wait would wake at once on stale
    /// data instead of a genuine new edge.
    pub fn poll(&mut self, timeout_ms: isize) -> (r: Result<Option<u8>, GpioError>)
        ensures
            final(self)@ == old(self)@,
            r matches Ok(Some(v)) ==> v == 0 || v == 1,
    {
        match read_text(self.devfile_fd, 255) {
            Ok(_) => {},
            Err(e) => {
                return Err(e);
            },
        }
        match event_wait(self.epoll_fd, timeout_ms) {
            Ok(0) => Ok(None),
            Ok(_) => match self.read_value_snapshot() {
                Ok(v) => Ok(Some(v)),
                Err(e) => Err(e),
            },
            Err(e) => Err(e),
        }
    }

    /// Rewinds the value file and parses its leading character.
    fn read_value_snapshot(&self) -> (r: Result<u8, GpioError>)
        ensures
            r matches Ok(v) ==> v == 0 || v == 1,
    {
        match seek_start(self.devfile_fd) {
            Ok(_) => {},
            Err(e) => {
                return Err(e);
            },
        }
        match read_text(self.devfile_fd, 255) {
            Ok(content) => parse_value_snapshot(content.as_str()),
            Err(e) => Err(e),
        }
    }

    /// Tears the poller down, releasing the event-notification context
    /// exactly once (the poller is consumed) and closing the value
    /// descriptor.  A release failure is returned rather than swallowed:
    /// a leaked kernel-side registration would accumulate across
    /// construct-and-destroy cycles, so callers should treat it as fatal.
    pub fn close(self) -> (r: Result<(), GpioError>)
        ensures
            r matches Err(e) ==> e is Os,
    {
        let r = close_fd(self.epoll_fd);
        let _ = close_fd(self.devfile_fd);
        r
    }
}

} // verus!
