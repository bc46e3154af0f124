use vstd::prelude::*;
use vstd::string::StrSliceExecFns;
use vstd::string::StringExecFns;
use vstd::utf8::is_ascii_chars;
use crate::errors::GpioError;

verus! {

/// Relies on nix::fcntl::open with O_RDONLY: on success the result is a
/// file descriptor open for reading; on failure the errno says why.
#[verifier::external_body]
pub(crate) fn open_rdonly(path: &str) -> (r: Result<i32, GpioError>)
    ensures
        r matches Err(e) ==> e is Os,
{
    match nix::fcntl::open(path, nix::fcntl::OFlag::O_RDONLY, nix::sys::stat::Mode::empty()) {
        Ok(fd) => Ok(fd),
        Err(e) => Err(GpioError::Os(e as i32)),
    }
}

/// Relies on nix::fcntl::open with O_WRONLY | O_CREAT | O_TRUNC (the mode
/// a plain file creation takes): on success the result is a file
/// descriptor open for writing.
#[verifier::external_body]
pub(crate) fn open_wronly(path: &str) -> (r: Result<i32, GpioError>)
    ensures
        r matches Err(e) ==> e is Os,
{
    let flags = nix::fcntl::OFlag::O_WRONLY | nix::fcntl::OFlag::O_CREAT
        | nix::fcntl::OFlag::O_TRUNC;
    match nix::fcntl::open(path, flags, nix::sys::stat::Mode::from_bits_truncate(0o666)) {
        Ok(fd) => Ok(fd),
        Err(e) => Err(GpioError::Os(e as i32)),
    }
}

/// Relies on nix::unistd::read: reads at most `max` bytes, taken as text
/// (an invalid byte sequence becomes a replacement character, so the text
/// has at most `max` characters).  What it holds depends on the file, so
/// nothing more is stated.
#[verifier::external_body]
pub(crate) fn read_text(fd: i32, max: usize) -> (r: Result<String, GpioError>)
    ensures
        r matches Ok(s) ==> s@.len() <= max,
        r matches Err(e) ==> e is Os,
{
    let mut buf = vec![0u8; max];
    match nix::unistd::read(fd, &mut buf) {
        Ok(n) => {
            buf.truncate(n);
            Ok(String::from_utf8_lossy(&buf).into_owned())
        },
        Err(e) => Err(GpioError::Os(e as i32)),
    }
}

/// Relies on nix::unistd::write: on success returns how many bytes were
/// written, never more than were offered (for ASCII text, bytes and
/// characters coincide).
#[verifier::external_body]
pub(crate) fn write_str(fd: i32, s: &str) -> (r: Result<usize, GpioError>)
    requires
        is_ascii_chars(s@),
    ensures
        r matches Ok(n) ==> n <= s@.len(),
        r matches Err(e) ==> e is Os,
{
    match nix::unistd::write(fd, s.as_bytes()) {
        Ok(n) => Ok(n),
        Err(e) => Err(GpioError::Os(e as i32)),
    }
}

/// Relies on nix::unistd::close.
#[verifier::external_body]
pub(crate) fn close_fd(fd: i32) -> (r: Result<(), GpioError>)
    ensures
        r matches Err(e) ==> e is Os,
{
    match nix::unistd::close(fd) {
        Ok(()) => Ok(()),
        Err(e) => Err(GpioError::Os(e as i32)),
    }
}

/// Relies on nix::unistd::lseek with SeekSet 0: rewinds the descriptor
/// to the start of the file.
#[verifier::external_body]
pub(crate) fn seek_start(fd: i32) -> (r: Result<(), GpioError>)
    ensures
        r matches Err(e) ==> e is Os,
{
    match nix::unistd::lseek(fd, 0, nix::unistd::Whence::SeekSet) {
        Ok(_) => Ok(()),
        Err(e) => Err(GpioError::Os(e as i32)),
    }
}

/// Relies on nix::sys::stat::stat: Ok exactly when the path is there to
/// be stat'ed.  Existence of the pin's directory is the export signal.
#[verifier::external_body]
pub(crate) fn path_exists(path: &str) -> bool {
    nix::sys::stat::stat(path).is_ok()
}

/// Reads what the file offers, in bounded chunks, until a read hands
/// back nothing more.  The total is bounded by a page, which is all a
/// sysfs attribute can hold.
pub(crate) fn read_all(fd: i32) -> (r: Result<String, GpioError>)
    ensures
        r matches Err(e) ==> e is Os,
{
    let mut s = String::new();
    let mut budget: usize = 16;
    while budget > 0
        decreases budget,
    {
        match read_text(fd, 256) {
            Ok(chunk) => {
                if chunk.as_str().is_empty() {
                    return Ok(s);
                }
                s = s.concat(chunk.as_str());
            },
            Err(e) => {
                return Err(e);
            },
        }
        budget = budget - 1;
    }
    Ok(s)
}

/// Writes all of `s`, retrying after a partial write.  A write that makes
/// no progress is reported as an I/O failure (errno 0) rather than
/// retried forever.
pub(crate) fn write_all(fd: i32, s: &str) -> (r: Result<(), GpioError>)
    requires
        is_ascii_chars(s@),
    ensures
        r matches Err(e) ==> e is Os,
{
    let mut rest: &str = s;
    loop
        invariant
            is_ascii_chars(rest@),
        decreases rest@.len(),
    {
        let len = rest.unicode_len();
        if len == 0 {
            return Ok(());
        }
        match write_str(fd, rest) {
            Ok(n) => {
                if n == 0 {
                    return Err(GpioError::Os(0));
                }
                if n >= len {
                    return Ok(());
                }
                rest = rest.substring_ascii(n, len);
            },
            Err(e) => {
                return Err(e);
            },
        }
    }
}

} // verus!
