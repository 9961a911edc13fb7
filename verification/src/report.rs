//! Aggregate reporting over the selected examples.
//!
//! One result entry is recorded per selected example, in selection order.  The
//! final report prints one line per entry, and the process exit code is 1
//! exactly when at least one entry failed.

use vstd::prelude::*;

use crate::run::RunOutcome;

verus! {

/// The recorded result of one example: its name and how its run ended.
pub struct ResultEntry {
    /// The example's name, as reported.
    pub name: String,
    /// How the run ended.
    pub outcome: RunOutcome,
}

/// Whether any recorded result is a failure.
pub open spec fn any_failed(results: Seq<ResultEntry>) -> bool {
    exists|i: int| 0 <= i < results.len() && results[i].outcome is Fail
}

/// The process exit code: 1 exactly when at least one example failed, and 0
/// when the result set is empty or every example passed.
pub fn exit_code(results: &Vec<ResultEntry>) -> (c: i32)
    ensures
        c == 1 <==> any_failed(results@),
        c == 0 <==> !any_failed(results@),
{
    let mut i: usize = 0;
    let mut failed = false;
    while i < results.len()
        invariant
            i <= results@.len(),
            failed == exists|k: int| 0 <= k < i && results@[k].outcome is Fail,
        decreases results@.len() - i,
    {
        match &results[i].outcome {
            RunOutcome::Fail { .. } => {
                failed = true;
            },
            RunOutcome::Pass => {},
        }
        i = i + 1;
    }
    if failed {
        1
    } else {
        0
    }
}

/// The report line printed for one entry: the name, then either the success
/// marker or the failure marker with the recorded error underneath.
pub open spec fn spec_report_line(name: Seq<char>, outcome: RunOutcome) -> Seq<char> {
    match outcome {
        RunOutcome::Pass => name + ": "@ + "OK"@,
        RunOutcome::Fail { message } => name + ": "@ + "Failed"@ + "\n"@ + message@,
    }
}

/// Renders the report line for one recorded result.
pub fn report_line(entry: &ResultEntry) -> (r: String)
    ensures
        r@ == spec_report_line(entry.name@, entry.outcome),
{
    let mut s = entry.name.clone();
    s.append(": ");
    match &entry.outcome {
        RunOutcome::Pass => {
            s.append("OK");
        },
        RunOutcome::Fail { message } => {
            s.append("Failed");
            s.append("\n");
            s.append(message.as_str());
        },
    }
    proof {
        assert(s@ =~= spec_report_line(entry.name@, entry.outcome));
    }
    s
}

} // verus!
