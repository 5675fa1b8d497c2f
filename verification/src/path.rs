//! The descriptor of one entry of a directory.

use crate::clock::{
    display_instant, display_view, instant_from_millis, time_display, ClockError, Timestamp,
};
use crate::size::{push_decimal, size_display, GIGABYTE, KILOBYTE, MEGABYTE, TERABYTE};
use crate::style::{
    color_code, is_painted, name_style, paint, size_style, style_of_name, style_of_size, Style,
};
use vstd::prelude::*;
use vstd::string::*;

verus! {

/// One entry of a directory, ready for display.
///
/// `size` and `time` are derived when the descriptor is built. `file_name`
/// and `size` are extended with trailing spaces when the listing that holds
/// the descriptor pads its columns.
#[derive(Debug)]
pub struct Path {
    pub file_name: String,
    pub is_dir: bool,
    pub size: String,
    pub time: String,
}

/// The mathematical content of a [`Path`].
pub struct PathView {
    pub name: Seq<char>,
    pub is_dir: bool,
    pub size: Seq<char>,
    pub time: Seq<char>,
}

impl View for Path {
    type V = PathView;

    open spec fn view(&self) -> PathView {
        PathView { name: self.file_name@, is_dir: self.is_dir, size: self.size@, time: self.time@ }
    }
}

/// What is known of an entry before its descriptor is built. A field is
/// `None` where it could not be read, or where the name is no valid text.
#[derive(Debug)]
pub struct RawEntry {
    pub name: Option<String>,
    pub is_dir: Option<bool>,
    pub size: Option<u64>,
    pub modified: Option<Timestamp>,
}

/// Why no descriptor could be built for an entry.
#[derive(Clone, Copy, Debug, PartialEq, Eq, Structural)]
pub enum EntryError {
    /// The name, the kind, the size or the modification time is missing.
    Metadata,
    /// The modification time has no display.
    Clock(ClockError),
}

/// The descriptor built from `entry`, or the reason why there is none. A
/// missing field is reported before a modification time without display.
pub open spec fn built(entry: RawEntry) -> Result<PathView, EntryError> {
    match (entry.name, entry.is_dir, entry.size, entry.modified) {
        (Some(name), Some(is_dir), Some(size), Some(modified)) => match time_display(modified) {
            Ok(time) => Ok(PathView { name: name@, is_dir, size: size_display(size as nat), time }),
            Err(e) => Err(EntryError::Clock(e)),
        },
        _ => Err(EntryError::Metadata),
    }
}

/// The view of a descriptor or of the error in its place.
pub open spec fn built_view(r: Result<Path, EntryError>) -> Result<PathView, EntryError> {
    match r {
        Ok(path) => Ok(path@),
        Err(e) => Err(e),
    }
}

/// The three fields of a row, separated by single spaces.
pub open spec fn row_text(name: Seq<char>, size: Seq<char>, time: Seq<char>) -> Seq<char> {
    name + seq![' '] + size + seq![' '] + time
}

/// Whether `line` is made of the renderings `name`, `size` and `time` of the
/// fields of `entry`, each in the style that the kind of the entry calls for.
pub open spec fn row_parts(
    line: Seq<char>,
    entry: PathView,
    name: Seq<char>,
    size: Seq<char>,
    time: Seq<char>,
) -> bool {
    &&& is_painted(name, entry.name, color_code(name_style(entry.is_dir)))
    &&& is_painted(size, entry.size, color_code(size_style(entry.is_dir)))
    &&& is_painted(time, entry.time, color_code(Style::Timestamp))
    &&& line == row_text(name, size, time)
}

/// Whether `line` is a row for `entry`: name, size and time in this order,
/// each rendered in its style.
pub open spec fn is_row(line: Seq<char>, entry: PathView) -> bool {
    exists|name: Seq<char>, size: Seq<char>, time: Seq<char>| #[trigger]
        row_parts(line, entry, name, size, time)
}

/// Joins the three rendered fields of a row with single spaces.
pub fn join_row(name: &str, size: &str, time: &str) -> (line: String)
    ensures
        line@ == row_text(name@, size@, time@),
{
    proof {
        reveal_strlit(" ");
    }
    let mut line = String::new();
    line.append(name);
    line.append(" ");
    line.append(size);
    line.append(" ");
    line.append(time);
    line
}

impl Path {
    /// Builds the descriptor of `entry`.
    ///
    /// Fails with `Metadata` where a field of `entry` is missing, and
    /// otherwise with `Clock` where the modification time has no display.
    pub fn new(entry: RawEntry) -> (r: Result<Path, EntryError>)
        ensures
            built_view(r) == built(entry),
    {
        match (entry.name, entry.is_dir, entry.size, entry.modified) {
            (Some(file_name), Some(is_dir), Some(size), Some(modified)) => {
                match Path::set_time(modified) {
                    Ok(time) => Ok(
                        Path { file_name, is_dir, size: Path::size_string_formatter(size), time },
                    ),
                    Err(e) => Err(EntryError::Clock(e)),
                }
            },
            _ => Err(EntryError::Metadata),
        }
    }

    /// The row of this entry: name, size and time, separated by single
    /// spaces. A directory has its name in blue and its size in white, a file
    /// its name in white and its size in yellow; the time is in bright cyan.
    pub fn print(&self) -> (line: String)
        ensures
            is_row(line@, self@),
    {
        let name = paint(self.file_name.as_str(), style_of_name(self.is_dir));
        let size = paint(self.size.as_str(), style_of_size(self.is_dir));
        let time = paint(self.time.as_str(), Style::Timestamp);
        let line = join_row(name.as_str(), size.as_str(), time.as_str());
        proof {
            assert(row_parts(line@, self@, name@, size@, time@));
        }
        line
    }

    /// The text shown for a size of `size` bytes: `"-"` for zero, and
    /// otherwise the size in the largest of the units B, KB, MB, GB and TB
    /// (each 1000 times the one before) that does not exceed it, rounded
    /// down to a whole number.
    pub fn size_string_formatter(size: u64) -> (text: String)
        ensures
            text@ == size_display(size as nat),
    {
        let mut text = String::new();
        if size == 0 {
            proof {
                reveal_strlit("-");
            }
            text.append("-");
        } else if size < KILOBYTE {
            proof {
                reveal_strlit("B");
            }
            push_decimal(&mut text, size);
            text.append("B");
        } else if size < MEGABYTE {
            proof {
                reveal_strlit("KB");
            }
            push_decimal(&mut text, size / KILOBYTE);
            text.append("KB");
        } else if size < GIGABYTE {
            proof {
                reveal_strlit("MB");
            }
            push_decimal(&mut text, size / MEGABYTE);
            text.append("MB");
        } else if size < TERABYTE {
            proof {
                reveal_strlit("GB");
            }
            push_decimal(&mut text, size / GIGABYTE);
            text.append("GB");
        } else {
            proof {
                reveal_strlit("TB");
            }
            push_decimal(&mut text, size / TERABYTE);
            text.append("TB");
        }
        text
    }

    /// The display of a modification time as a UTC calendar time, such as
    /// `"30 Jan 20:37"`.
    ///
    /// Fails with `BeforeEpoch` for an instant that predates the Unix epoch,
    /// and with `OutOfRange` for one whose milliseconds do not fit in an
    /// `i64` or lie beyond the calendar.
    pub fn set_time(sys_time: Timestamp) -> (r: Result<String, ClockError>)
        ensures
            display_view(r) == time_display(sys_time),
    {
        match sys_time.millis() {
            Ok(millis) => display_instant(instant_from_millis(millis)),
            Err(e) => Err(e),
        }
    }
}

} // verus!
