use vstd::prelude::*;
use crate::errors::GpioError;

verus! {

/// Relies on nix::sys::epoll::epoll_create: makes a fresh
/// event-notification context and returns its descriptor.
#[verifier::external_body]
pub(crate) fn event_context_create() -> (r: Result<i32, GpioError>)
    ensures
        r matches Err(e) ==> e is Os,
{
    match nix::sys::epoll::epoll_create() {
        Ok(fd) => Ok(fd),
        Err(e) => Err(GpioError::Os(e as i32)),
    }
}

/// Relies on nix::sys::epoll::epoll_ctl with EpollCtlAdd: registers `fd`
/// in the context for priority-data readability — how the kernel signals
/// a GPIO edge on a value file — edge-triggered, so one unconsumed change
/// does not re-signal.
#[verifier::external_body]
pub(crate) fn event_context_register(epfd: i32, fd: i32) -> (r: Result<(), GpioError>)
    ensures
        r matches Err(e) ==> e is Os,
{
    let flags = nix::sys::epoll::EpollFlags::EPOLLPRI | nix::sys::epoll::EpollFlags::EPOLLET;
    let mut ev = nix::sys::epoll::EpollEvent::new(flags, 0u64);
    match nix::sys::epoll::epoll_ctl(epfd, nix::sys::epoll::EpollOp::EpollCtlAdd, fd, &mut ev) {
        Ok(()) => Ok(()),
        Err(e) => Err(GpioError::Os(e as i32)),
    }
}

/// Relies on nix::sys::epoll::epoll_wait with a one-slot event buffer:
/// blocks until an event arrives or `timeout_ms` milliseconds pass
/// (negative waits indefinitely, zero returns at once) and on success
/// says how many events arrived — no more than the one slot offered.
#[verifier::external_body]
pub(crate) fn event_wait(epfd: i32, timeout_ms: isize) -> (r: Result<usize, GpioError>)
    ensures
        r matches Ok(n) ==> n <= 1,
        r matches Err(e) ==> e is Os,
{
    let mut events = [nix::sys::epoll::EpollEvent::empty()];
    match nix::sys::epoll::epoll_wait(epfd, &mut events, timeout_ms) {
        Ok(n) => Ok(n),
        Err(e) => Err(GpioError::Os(e as i32)),
    }
}

} // verus!
