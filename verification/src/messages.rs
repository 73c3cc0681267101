//! The narration lines that task-style units of work produce.

use vstd::prelude::*;
use vstd::string::StringExecFns;

use crate::digits::dec_rep;
use crate::digits::decimal_string;

verus! {

/// The text narrated when the task with the given index starts running.
pub open spec fn running_line_text(i: nat) -> Seq<char> {
    "Task "@ + dec_rep(i) + " is running......"@
}

/// The text of the value the task with the given index produces.
pub open spec fn done_line_text(i: nat) -> Seq<char> {
    "Task "@ + dec_rep(i) + " is done."@
}

/// Builds the running-narration line for task `i`.
pub fn task_running_line(i: usize) -> (s: String)
    ensures
        s@ == running_line_text(i as nat),
{
    let mut s = String::from_str("Task ");
    let index = decimal_string(i);
    s.append(index.as_str());
    s.append(" is running......");
    assert(s@ =~= running_line_text(i as nat));
    s
}

/// Builds the completion value for task `i`.
pub fn task_done_line(i: usize) -> (s: String)
    ensures
        s@ == done_line_text(i as nat),
{
    let mut s = String::from_str("Task ");
    let index = decimal_string(i);
    s.append(index.as_str());
    s.append(" is done.");
    assert(s@ =~= done_line_text(i as nat));
    s
}

} // verus!
