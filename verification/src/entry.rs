//! What the watchdog does when it is started: report the free share and
//! decide whether the cleanup loop has to run.

use vstd::prelude::*;
use crate::percentage::Percentage;
use crate::text::join;

verus! {

/// The cleanup loop is started when less than this many percent of the
/// volume are free.
pub const START_BELOW_PERCENT: u8 = 20;

/// The line that reports the free share.
pub open spec fn share_line(share: Percentage) -> Seq<char> {
    "Current free space: "@ + share.numeral() + "%"@
}

/// The line logged when the cleanup loop is about to start.
pub open spec fn starting_line() -> Seq<char> {
    "Free space below threshold. Starting cleanup..."@
}

/// The line logged when enough is free.
pub open spec fn sufficient_line() -> Seq<char> {
    "Sufficient free space. No cleanup needed."@
}

/// The line logged when no volume holds the base directory.
pub open spec fn not_found_line() -> Seq<char> {
    "Disk not found for the base directory."@
}

/// The cleanup loop has to run: a volume was found and less than
/// [`START_BELOW_PERCENT`] percent of it are free.
pub open spec fn needs_cleanup(share: Option<Percentage>) -> bool {
    share matches Some(found) && found.is_below(START_BELOW_PERCENT as nat)
}

/// The lines to log at the start, in order.
pub open spec fn startup_lines(share: Option<Percentage>) -> Seq<Seq<char>> {
    match share {
        None => seq![not_found_line()],
        Some(found) => if needs_cleanup(share) {
            seq![share_line(found), starting_line()]
        } else {
            seq![share_line(found), sufficient_line()]
        },
    }
}

/// What is done at the start.
#[derive(Debug, PartialEq, Eq)]
pub struct Startup {
    /// The lines to append to the log, in order.
    pub lines: Vec<String>,
    /// Whether the cleanup loop is run after that.
    pub cleanup: bool,
}

/// Decides what is done at the start, given the free share of the volume
/// that holds the base directory, or `None` where there is no such volume.
pub fn startup(share: Option<Percentage>) -> (result: Startup)
    ensures
        result.lines@.len() == startup_lines(share).len(),
        forall|i: int|
            0 <= i < result.lines@.len() ==> (#[trigger] result.lines@[i])@ == startup_lines(
                share,
            )[i],
        result.cleanup == needs_cleanup(share),
{
    let mut lines: Vec<String> = Vec::new();
    let cleanup: bool = match share {
        None => {
            lines.push(String::from_str("Disk not found for the base directory."));
            false
        },
        Some(found) => {
            let numeral: String = found.text();
            let mut line: String = join("Current free space: ", numeral.as_str());
            line.append("%");
            lines.push(line);
            if found.below(START_BELOW_PERCENT) {
                lines.push(String::from_str("Free space below threshold. Starting cleanup..."));
                true
            } else {
                lines.push(String::from_str("Sufficient free space. No cleanup needed."));
                false
            }
        },
    };
    Startup { lines, cleanup }
}

} // verus!
