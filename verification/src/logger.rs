//! The log: where it is kept, what a record looks like, and when the file
//! is thrown away.

use vstd::prelude::*;
use crate::text::join;

verus! {

/// A log that was last written longer ago than this many seconds is stale:
/// seven days.
pub const RETENTION_SECONDS: u64 = 604_800;

/// The path of the log file kept under `log_dir`.
pub open spec fn log_file(log_dir: Seq<char>) -> Seq<char> {
    log_dir + "/cleanup.log"@
}

/// The path of the log file kept under `log_dir`.
pub fn log_file_path(log_dir: &str) -> (result: String)
    ensures
        result@ == log_file(log_dir@),
{
    join(log_dir, "/cleanup.log")
}

/// The text that one message adds to the log: the message and a line break.
pub fn log_record(message: &str) -> (result: String)
    ensures
        result@ == message@ + "\n"@,
{
    join(message, "\n")
}

/// How long ago the log file was last written, as far as that is known.
#[derive(Clone, Copy, Debug, PartialEq, Eq)]
pub enum LogAge {
    /// There is no log file, or its time of last writing cannot be read.
    Unknown,
    /// The file was last written in the future, by this machine's clock.
    Ahead,
    /// The file was last written this long ago.
    Elapsed { seconds: u64, nanoseconds: u32 },
}

/// The log is stale: it is known to have been last written more than
/// [`RETENTION_SECONDS`] ago. A file of exactly that age is not stale, and
/// neither is one whose age is unknown or lies in the future.
pub open spec fn is_stale(age: LogAge) -> bool {
    age matches LogAge::Elapsed { seconds, nanoseconds } && seconds * 1_000_000_000 + nanoseconds
        > RETENTION_SECONDS * 1_000_000_000
}

/// Tells whether the log file is to be removed before anything is logged.
pub fn clean_log(age: LogAge) -> (remove: bool)
    ensures
        remove == is_stale(age),
{
    match age {
        LogAge::Elapsed { seconds, nanoseconds } => {
            let elapsed: u128 = (seconds as u128) * 1_000_000_000 + (nanoseconds as u128);
            let kept: u128 = (RETENTION_SECONDS as u128) * 1_000_000_000;
            elapsed > kept
        },
        _ => false,
    }
}

} // verus!
