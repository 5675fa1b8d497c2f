//! Formatting and alignment of directory listings.
//!
//! An entry of a directory is described by a [`Path`]: its name, its kind,
//! its size in human-readable units and its modification time. A [`Paths`]
//! value collects the entries of one listing, pads the name and size columns
//! to a common width and renders the rows that are to be shown.

pub mod clock;
pub mod path;
pub mod paths;
pub mod size;
pub mod style;
pub mod text;

pub use clock::{ClockError, Timestamp};
pub use path::{EntryError, Path, RawEntry};
pub use paths::Paths;
pub use style::Style;
