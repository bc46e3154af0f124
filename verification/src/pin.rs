use vstd::prelude::*;
use vstd::string::StringExecFns;
use vstd::utf8::is_ascii_chars;
use crate::attrs::Direction;
use crate::attrs::Edge;
use crate::attrs::direction_str;
use crate::attrs::edge_str;
use crate::attrs::parse_direction;
use crate::attrs::parse_edge;
use crate::attrs::parse_value;
use crate::attrs::value_str;
use crate::attrs::direction_of_token;
use crate::attrs::edge_of_token;
use crate::attrs::value_of_token;
use crate::errors::GpioError;
use crate::fsio::close_fd;
use crate::fsio::open_rdonly;
use crate::fsio::open_wronly;
use crate::fsio::path_exists;
use crate::fsio::read_all;
use crate::fsio::write_all;
use crate::model::export_needs_write;
use crate::model::unexport_needs_write;
use crate::poller::PinPoller;
use crate::text::dec_rep;
use crate::text::dec_string;

verus! {

/// The sysfs directory of a pin: "/sys/class/gpio/gpio" followed by the
/// decimal pin number.  Its existence is the export signal.
pub open spec fn gpio_dir_spec(pin: u64) -> Seq<char> {
    "/sys/class/gpio/gpio"@ + dec_rep(pin as nat)
}

/// The path of one attribute file under the pin's directory.
pub open spec fn attr_path_spec(pin: u64, attr: Seq<char>) -> Seq<char> {
    gpio_dir_spec(pin) + "/"@ + attr
}

/// The pin's sysfs directory path.
pub fn gpio_dir_path(pin: u64) -> (r: String)
    ensures
        r@ == gpio_dir_spec(pin),
{
    let base = String::from_str("/sys/class/gpio/gpio");
    let num = dec_string(pin);
    let r = base.concat(num.as_str());
    proof {
        assert(r@ =~= gpio_dir_spec(pin));
    }
    r
}

/// The path of the named attribute file of the pin.
pub fn attr_path(pin: u64, attr: &str) -> (r: String)
    ensures
        r@ == attr_path_spec(pin, attr@),
{
    let r = gpio_dir_path(pin).concat("/").concat(attr);
    proof {
        assert(r@ =~= attr_path_spec(pin, attr@));
    }
    r
}

/// A stateless handle on one GPIO pin.  It holds only the pin number and
/// owns no OS resource: every attribute access re-opens the attribute
/// file, so handles stay valid across export and unexport cycles and many
/// handles may refer to the same pin.
#[derive(Debug)]
pub struct Pin {
    pin_num: u64,
}

impl View for Pin {
    type V = u64;

    closed spec fn view(&self) -> u64 {
        self.pin_num
    }
}

impl Pin {
    /// Makes a handle for `pin_num`.  Performs no I/O and does not imply
    /// that the pin is exported.
    pub fn new(pin_num: u64) -> (r: Pin)
        ensures
            r@ == pin_num,
    {
        Pin { pin_num }
    }

    /// The pin number the handle refers to.
    pub fn get_pin(&self) -> (r: u64)
        ensures
            r == self@,
    {
        self.pin_num
    }

    /// Writes the decimal pin number to a global control file.
    fn write_control(&self, control: &str) -> (r: Result<(), GpioError>)
        ensures
            r matches Err(e) ==> e is Os,
    {
        let num = dec_string(self.pin_num);
        match open_wronly(control) {
            Ok(fd) => {
                let r = write_all(fd, num.as_str());
                let _ = close_fd(fd);
                r
            },
            Err(e) => Err(e),
        }
    }

    /// Exports the pin.  If its sysfs directory does not exist yet, the
    /// decimal pin number is written to the global export control file;
    /// if the directory already exists the call succeeds without writing
    /// ("already exported" is success, not an error).  Fails only with an
    /// OS error: no sysfs support, a pin number the kernel rejects, or
    /// missing privilege.
    pub fn export(&self) -> (r: Result<(), GpioError>)
        ensures
            r matches Err(e) ==> e is Os,
    {
        let dir = gpio_dir_path(self.pin_num);
        if export_needs_write(path_exists(dir.as_str())) {
            self.write_control("/sys/class/gpio/export")
        } else {
            Ok(())
        }
    }

    /// Unexports the pin, symmetrically to [`Pin::export`]: the pin
    /// number is written to the unexport control file only if the pin's
    /// directory currently exists; otherwise the call succeeds without
    /// writing.  Whenever it returns Ok, the pin is not exported.
    pub fn unexport(&self) -> (r: Result<(), GpioError>)
        ensures
            r matches Err(e) ==> e is Os,
    {
        let dir = gpio_dir_path(self.pin_num);
        if unexport_needs_write(path_exists(dir.as_str())) {
            self.write_control("/sys/class/gpio/unexport")
        } else {
            Ok(())
        }
    }

    /// Runs `body` with the pin exported, and unexports it on every exit
    /// path.  A failing export short-circuits without invoking the body.
    /// When the closing unexport fails, its error surfaces even if the
    /// body had already failed — the body's error is then lost, a
    /// precedence kept for compatibility.
    pub fn with_exported<F: FnOnce() -> Result<(), GpioError>>(&self, body: F) -> (r: Result<
        (),
        GpioError,
    >)
        requires
            call_requires(body, ()),
        ensures
            r is Ok ==> exists|br: Result<(), GpioError>| call_ensures(body, (), br) && br is Ok,
            r matches Err(e) ==> e is Os || call_ensures(body, (), Err(e)),
    {
        match self.export() {
            Ok(_) => {
                let br = body();
                let ur = self.unexport();
                resolve_scoped(br, ur)
            },
            Err(e) => Err(e),
        }
    }

    /// Reads and parses the direction attribute.  Contents other than the
    /// four direction tokens (after trimming) are an `Unexpected` error
    /// carrying the offending text; everything else that can go wrong is
    /// an OS error.
    pub fn get_direction(&self) -> (r: Result<Direction, GpioError>)
        ensures
            r matches Err(e) ==> match e {
                GpioError::Os(_) => true,
                GpioError::Unexpected(raw) => direction_of_token(raw@) is None,
            },
    {
        match self.read_attr("direction") {
            Ok(content) => parse_direction(content.as_str()),
            Err(e) => Err(e),
        }
    }

    /// Writes the direction attribute.  `In` and `Out` switch the pin
    /// between input and output; `High` and `Low` configure an output and
    /// atomically initialize its level.  Fails with an OS error if the
    /// attribute is missing (the kernel does not allow changing this
    /// pin's direction) or not writable.
    pub fn set_direction(&self, dir: Direction) -> (r: Result<(), GpioError>)
        ensures
            r matches Err(e) ==> e is Os,
    {
        self.write_attr("direction", direction_str(dir))
    }

    /// Reads the value attribute: 1 when the pin is high, 0 when it is
    /// low.  Contents other than "0" or "1" (after trimming) are an
    /// `Unexpected` error carrying the offending text.
    pub fn get_value(&self) -> (r: Result<u8, GpioError>)
        ensures
            r matches Ok(v) ==> v == 0 || v == 1,
            r matches Err(e) ==> match e {
                GpioError::Os(_) => true,
                GpioError::Unexpected(raw) => value_of_token(raw@) is None,
            },
    {
        match self.read_attr("value") {
            Ok(content) => parse_value(content.as_str()),
            Err(e) => Err(e),
        }
    }

    /// Writes the value attribute: 0 sets the pin low, any other value
    /// sets it high.
    pub fn set_value(&self, value: u8) -> (r: Result<(), GpioError>)
        ensures
            r matches Err(e) ==> e is Os,
    {
        self.write_attr("value", value_str(value))
    }

    /// Reads and parses the edge attribute.  The attribute is only there
    /// when the pin can interrupt; its absence is an OS error.
    pub fn get_edge(&self) -> (r: Result<Edge, GpioError>)
        ensures
            r matches Err(e) ==> match e {
                GpioError::Os(_) => true,
                GpioError::Unexpected(raw) => edge_of_token(raw@) is None,
            },
    {
        match self.read_attr("edge") {
            Ok(content) => parse_edge(content.as_str()),
            Err(e) => Err(e),
        }
    }

    /// Writes the edge attribute, choosing which signal transitions make
    /// a poll on this pin wake up.  Fails with an OS error if the pin
    /// does not allow interrupts.
    pub fn set_edge(&self, edge: Edge) -> (r: Result<(), GpioError>)
        ensures
            r matches Err(e) ==> e is Os,
    {
        self.write_attr("edge", edge_str(edge))
    }

    /// Makes a [`PinPoller`] bound to this pin's number; see
    /// [`PinPoller::new`].
    pub fn get_poller(&self) -> (r: Result<PinPoller, GpioError>)
        ensures
            r matches Ok(p) ==> p@ == self@,
            r matches Err(e) ==> e is Os,
    {
        PinPoller::new(self.pin_num)
    }

    /// Opens the named attribute file of this pin and reads its contents.
    fn read_attr(&self, attr: &str) -> (r: Result<String, GpioError>)
        ensures
            r matches Err(e) ==> e is Os,
    {
        let path = attr_path(self.pin_num, attr);
        match open_rdonly(path.as_str()) {
            Ok(fd) => {
                let r = read_all(fd);
                let _ = close_fd(fd);
                r
            },
            Err(e) => Err(e),
        }
    }

    /// Opens the named attribute file of this pin and writes `value`.
    fn write_attr(&self, attr: &str, value: &str) -> (r: Result<(), GpioError>)
        requires
            is_ascii_chars(value@),
        ensures
            r matches Err(e) ==> e is Os,
    {
        let path = attr_path(self.pin_num, attr);
        match open_wronly(path.as_str()) {
            Ok(fd) => {
                let r = write_all(fd, value);
                let _ = close_fd(fd);
                r
            },
            Err(e) => Err(e),
        }
    }
}

/// The error precedence of the scoped export: a failure of the closing
/// unexport surfaces even when the body already failed; otherwise the
/// body's outcome stands.
fn resolve_scoped(body_outcome: Result<(), GpioError>, unexport_outcome: Result<
    (),
    GpioError,
>) -> (r: Result<(), GpioError>)
    ensures
        unexport_outcome matches Err(e) ==> r == Err::<(), GpioError>(e),
        unexport_outcome is Ok ==> r == body_outcome,
{
    match unexport_outcome {
        Err(e) => Err(e),
        Ok(_) => body_outcome,
    }
}

} // verus!
