//! GPIO access through the Linux sysfs interface.
//!
//! Each pin is a directory of text attribute files (`direction`, `value`,
//! `edge`) created on demand through the global `export` control file.
//! [`Pin`] performs the attribute reads and writes and the export
//! lifecycle; [`PinPoller`] owns an event-notification context over the
//! pin's value file and blocks, with a bounded timeout, until an edge
//! interrupt arrives.

pub mod attrs;
pub mod errors;
mod ev;
mod fsio;
pub mod model;
pub mod pin;
pub mod poller;
pub mod text;

pub use attrs::Direction;
pub use attrs::Edge;
pub use attrs::parse_direction;
pub use attrs::parse_edge;
pub use attrs::parse_value;
pub use attrs::parse_value_snapshot;
pub use attrs::direction_str;
pub use attrs::edge_str;
pub use attrs::value_str;
pub use errors::GpioError;
pub use pin::Pin;
pub use pin::attr_path;
pub use pin::gpio_dir_path;
pub use poller::PinPoller;
pub use text::dec_string;
pub use text::trim_str;
