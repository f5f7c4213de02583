//! greend: samples system-wide energy usage per application and hands the
//! samples to a database writer.
//!
//! The library holds the decisions of the daemon: how the sampler is started
//! and when it is restarted, how processes are named and classified, how the
//! idle time is read and turned into a sampling interval, how samples are
//! batched for the database, and where the database lives.
use vstd::prelude::*;

use crate::text::digit_char;
use crate::text::digit_str;
use crate::text::join_path;
use crate::text::join_path_exec;
use crate::text::join_path_windows;
use crate::text::join_path_windows_exec;
use crate::text::str_equal;

pub mod db;
pub mod idle;
pub mod schema;
pub mod subprocess;
pub mod text;

verus! {

/// How many samples are buffered before they are written to the database.
pub const SAMPLE_BUFFER_SIZE: usize = 2000;

/// The smaller batch size used by debug builds of the daemon.
pub const DEBUG_SAMPLE_BUFFER_SIZE: usize = 100;

// ---------------------------------------------------------------------------
// Where the database lives
// ---------------------------------------------------------------------------

/// The name of the database file inside the data directory.
pub const DATABASE_FILE_NAME: &'static str = "energy_monitor.db";

/// The data directory depends on the home directory on every system but
/// Linux and Windows.
pub open spec fn needs_home(os: Seq<char>) -> bool {
    os != "linux"@ && os != "windows"@
}

/// The data directory on the system named `os` (as Rust names it) for a
/// user whose home directory is `home`.
pub open spec fn database_dir_spec(os: Seq<char>, home: Seq<char>) -> Seq<char> {
    if os == "linux"@ {
        "/var/lib/greenb"@
    } else if os == "macos"@ {
        join_path(home, "Library/Application Support/greenb"@)
    } else if os == "windows"@ {
        "C:/ProgramData/GreenB"@
    } else {
        join_path(home, ".greenb"@)
    }
}

/// The characters of an optional home directory (none counts as empty).
pub open spec fn home_chars(home: Option<&str>) -> Seq<char> {
    match home {
        Some(h) => h@,
        None => Seq::empty(),
    }
}

/// The data directory on the system `os` for the home directory `home`,
/// which must be known where the directory depends on it.
pub fn database_dir(os: &str, home: Option<&str>) -> (r: String)
    requires
        needs_home(os@) ==> home is Some,
    ensures
        r@ == database_dir_spec(os@, home_chars(home)),
{
    proof {
        reveal_strlit("linux");
        reveal_strlit("macos");
        reveal_strlit("windows");
        assert("macos"@[0] != "linux"@[0]);
        assert("macos"@.len() != "windows"@.len());
    }
    if str_equal(os, "linux") {
        String::from_str("/var/lib/greenb")
    } else if str_equal(os, "macos") {
        join_path_exec(home.unwrap(), "Library/Application Support/greenb")
    } else if str_equal(os, "windows") {
        String::from_str("C:/ProgramData/GreenB")
    } else {
        join_path_exec(home.unwrap(), ".greenb")
    }
}

/// Whether the data directory on the system `os` depends on the home
/// directory.
pub fn os_needs_home(os: &str) -> (r: bool)
    ensures
        r == needs_home(os@),
{
    !str_equal(os, "linux") && !str_equal(os, "windows")
}

/// The path of the database file inside the data directory `dir` on the
/// system `os`: Windows joins paths with `\`, every other system with `/`.
pub open spec fn database_file_spec(os: Seq<char>, dir: Seq<char>) -> Seq<char> {
    if os == "windows"@ {
        join_path_windows(dir, DATABASE_FILE_NAME@)
    } else {
        join_path(dir, DATABASE_FILE_NAME@)
    }
}

/// The path of the database file inside the data directory `dir` on the
/// system `os`.
pub fn database_file(os: &str, dir: &str) -> (r: String)
    ensures
        r@ == database_file_spec(os@, dir@),
{
    if str_equal(os, "windows") {
        join_path_windows_exec(dir, DATABASE_FILE_NAME)
    } else {
        join_path_exec(dir, DATABASE_FILE_NAME)
    }
}

// ---------------------------------------------------------------------------
// Log timestamps
// ---------------------------------------------------------------------------

/// The wall-clock time of day.
#[derive(Clone, Copy, Debug, PartialEq, Eq, Structural)]
pub struct ClockReading {
    pub hour: u32,
    pub minute: u32,
    pub second: u32,
    /// Nanoseconds past the second; from one billion on, the time is in a
    /// leap second.
    pub nanosecond: u32,
}

/// The ranges in which the fields of a time of day lie.
pub open spec fn clock_reading_ok(t: ClockReading) -> bool {
    &&& t.hour < 24
    &&& t.minute < 60
    &&& t.second < 60
    &&& t.nanosecond < 2_000_000_000
}

/// Whether the fields of `t` lie in their ranges.
pub fn clock_reading_in_range(t: ClockReading) -> (r: bool)
    ensures
        r == clock_reading_ok(t),
{
    t.hour < 24 && t.minute < 60 && t.second < 60 && t.nanosecond < 2_000_000_000
}

/// `n` as two decimal digits (for `n < 100`).
pub open spec fn two_digits(n: int) -> Seq<char> {
    seq![digit_char(n / 10), digit_char(n % 10)]
}

/// `n` as three decimal digits (for `n < 1000`).
pub open spec fn three_digits(n: int) -> Seq<char> {
    seq![digit_char(n / 100), digit_char((n / 10) % 10), digit_char(n % 10)]
}

/// A time of day as `HH:MM:SS.mmm`: hours, minutes, seconds (60 within a
/// leap second) and milliseconds, each zero-padded.
pub open spec fn clock_text(t: ClockReading) -> Seq<char> {
    two_digits(t.hour as int) + seq![':'] + two_digits(t.minute as int) + seq![':'] + two_digits(
        t.second + t.nanosecond / 1_000_000_000,
    ) + seq!['.'] + three_digits(((t.nanosecond / 1_000_000) % 1000) as int)
}

/// Writes a time of day as `HH:MM:SS.mmm`.
pub fn format_clock(t: ClockReading) -> (r: String)
    requires
        clock_reading_ok(t),
    ensures
        r@ == clock_text(t),
        r@.len() == 12,
{
    proof {
        reveal_strlit(":");
        reveal_strlit(".");
    }
    let sec = t.second + t.nanosecond / 1_000_000_000;
    let ms = (t.nanosecond / 1_000_000) % 1000;
    let mut out = String::new();
    out.append(digit_str((t.hour / 10) as u64));
    out.append(digit_str((t.hour % 10) as u64));
    out.append(":");
    out.append(digit_str((t.minute / 10) as u64));
    out.append(digit_str((t.minute % 10) as u64));
    out.append(":");
    out.append(digit_str((sec / 10) as u64));
    out.append(digit_str((sec % 10) as u64));
    out.append(".");
    out.append(digit_str((ms / 100) as u64));
    out.append(digit_str(((ms / 10) % 10) as u64));
    out.append(digit_str((ms % 10) as u64));
    assert(out@ =~= clock_text(t));
    out
}

/// The timer that stamps each log line with the local time of day. Reading
/// the local clock needs the system's time-zone data and is left to the
/// caller, which hands the reading in.
pub struct LocalTimer;

impl LocalTimer {
    /// The time of day `now` as `HH:MM:SS.mmm`.
    pub fn format_time(&self, now: ClockReading) -> (r: String)
        requires
            clock_reading_ok(now),
        ensures
            r@ == clock_text(now),
            r@.len() == 12,
    {
        format_clock(now)
    }
}

} // verus!
