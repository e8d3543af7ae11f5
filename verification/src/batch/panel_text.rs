//! The texts of the batch panel and its job panel, from the checked files and the job's
//! progress.

use vstd::prelude::*;
use vstd::string::*;

use super::actions::{files, files_text};
use super::state::Progress;
use crate::text::{decimal, decimal_string};

verus! {

/// The panel's subtitle: "on 5 files checked".
pub open spec fn checked_heading_text(checked: nat) -> Seq<char> {
    "on "@ + files_text(checked) + " checked"@
}

/// The panel's subtitle, with the number of checked files.
pub fn checked_heading(checked: usize) -> (heading: String)
    ensures
        heading@ == checked_heading_text(checked as nat),
{
    proof {
        reveal_strlit("on ");
        reveal_strlit(" checked");
    }
    let mut heading = String::from_str("on ");
    let n = files(checked);
    heading.append(n.as_str());
    heading.append(" checked");
    heading
}

/// How far a running job is: "3 / 10".
pub open spec fn progress_count_text(p: Progress) -> Seq<char> {
    decimal(p.finished as nat) + " / "@ + decimal(p.total as nat)
}

/// How far a running job is, in files.
pub fn progress_count(progress: Progress) -> (count: String)
    ensures
        count@ == progress_count_text(progress),
{
    proof {
        reveal_strlit(" / ");
    }
    let mut count = decimal_string(progress.finished);
    count.append(" / ");
    let total = decimal_string(progress.total);
    count.append(total.as_str());
    count
}

/// What an ended job did: "Stopped after 2 of 5 files." when it was stopped before its last
/// file, else "Finished 5 files.".
pub open spec fn summary_text(p: Progress) -> Seq<char> {
    if p.finished < p.total {
        "Stopped after "@ + decimal(p.finished as nat) + " of "@ + files_text(p.total as nat) + "."@
    } else {
        "Finished "@ + files_text(p.total as nat) + "."@
    }
}

/// The summary of an ended job.
pub fn summary_line(progress: Progress) -> (line: String)
    ensures
        line@ == summary_text(progress),
{
    proof {
        reveal_strlit("Stopped after ");
        reveal_strlit(" of ");
        reveal_strlit("Finished ");
        reveal_strlit(".");
    }
    let total = files(progress.total);
    if progress.finished < progress.total {
        let mut line = String::from_str("Stopped after ");
        let finished = decimal_string(progress.finished);
        line.append(finished.as_str());
        line.append(" of ");
        line.append(total.as_str());
        line.append(".");
        line
    } else {
        let mut line = String::from_str("Finished ");
        line.append(total.as_str());
        line.append(".");
        line
    }
}

/// The button under a running job: "Cancel", or "Stopping…" and disabled once cancelled.
pub fn cancel_button(progress: Progress) -> (button: (&'static str, bool))
    ensures
        button.0@ == (if progress.cancelled { "Stopping…"@ } else { "Cancel"@ }),
        button.1 == !progress.cancelled,
{
    proof {
        reveal_strlit("Stopping…");
        reveal_strlit("Cancel");
    }
    if progress.cancelled {
        ("Stopping…", false)
    } else {
        ("Cancel", true)
    }
}

} // verus!
