//! Deferred computations.
//!
//! A deferred computation is a unit of work that performs nothing until it
//! is driven: a script of steps — narration lines and timed suspension
//! points — followed by the value it yields. Driving one performs the
//! steps in order and then produces the value.

use vstd::prelude::*;

verus! {

/// One step a deferred computation performs before yielding its value.
pub enum Step {
    /// Print a narration line.
    Narrate(String),
    /// Yield to the executor until the given number of seconds has
    /// elapsed (a simulated I/O wait).
    Suspend(u64),
}

/// A deferred computation: driving it performs `steps` in order, then
/// yields `value`.
pub struct Deferred {
    pub steps: Vec<Step>,
    pub value: String,
}

/// The narration lines that performing `steps` in order prints.
pub open spec fn narration_of(steps: Seq<Step>) -> Seq<Seq<char>>
    decreases steps.len(),
{
    if steps.len() == 0 {
        Seq::empty()
    } else {
        narration_of(steps.drop_last()) + (match steps.last() {
            Step::Narrate(line) => seq![line@],
            Step::Suspend(_) => Seq::<Seq<char>>::empty(),
        })
    }
}

/// How many suspension points performing `steps` passes.
pub open spec fn suspension_count(steps: Seq<Step>) -> nat
    decreases steps.len(),
{
    if steps.len() == 0 {
        0
    } else {
        suspension_count(steps.drop_last()) + (match steps.last() {
            Step::Narrate(_) => 0nat,
            Step::Suspend(_) => 1nat,
        })
    }
}

impl Deferred {
    /// The narration lines driving this computation prints, in order.
    pub open spec fn narration(self) -> Seq<Seq<char>> {
        narration_of(self.steps@)
    }

    /// How many timed suspension points driving this computation passes.
    pub open spec fn suspensions(self) -> nat {
        suspension_count(self.steps@)
    }

    /// The value driving this computation yields.
    pub open spec fn result(self) -> Seq<char> {
        self.value@
    }
}

/// Construction in the style of an inline deferred block: the script and
/// the final value are written in place.
pub fn deferred_block(steps: Vec<Step>, value: String) -> (d: Deferred)
    ensures
        d.steps@ == steps@,
        d.value == value,
{
    Deferred { steps, value }
}

/// Construction in the style of a named deferred-returning function: a
/// declared function wraps the same script and value.
pub fn deferred_named(steps: Vec<Step>, value: String) -> (d: Deferred)
    ensures
        d.steps@ == steps@,
        d.value == value,
{
    Deferred { steps, value }
}

/// Two deferred computations with equivalent bodies — the same script of
/// steps and the same final value — behave identically when driven: the
/// same narration lines, the same suspension points, and the same result,
/// whichever construction style produced each of them.
pub proof fn lemma_equivalent_bodies_drive_identically(a: Deferred, b: Deferred)
    requires
        a.steps@ == b.steps@,
        a.value@ == b.value@,
    ensures
        a.narration() == b.narration(),
        a.suspensions() == b.suspensions(),
        a.result() == b.result(),
{
}

/// Drives a deferred computation to completion: returns the narration
/// lines it prints, in order, and the value it yields.
pub fn drive(d: &Deferred) -> (r: (Vec<String>, String))
    ensures
        r.0.deep_view() == d.narration(),
        r.1@ == d.result(),
{
    let mut log: Vec<String> = Vec::new();
    let mut i: usize = 0;
    while i < d.steps.len()
        invariant
            i <= d.steps@.len(),
            log.deep_view() == narration_of(d.steps@.take(i as int)),
        decreases d.steps@.len() - i,
    {
        match &d.steps[i] {
            Step::Narrate(line) => {
                log.push(line.clone());
            },
            Step::Suspend(_) => {},
        }
        proof {
            let taken = d.steps@.take(i + 1 as int);
            assert(taken.drop_last() =~= d.steps@.take(i as int));
            assert(taken.last() == d.steps@[i as int]);
            assert(log.deep_view() =~= narration_of(taken));
        }
        i = i + 1;
    }
    proof {
        assert(d.steps@.take(d.steps@.len() as int) =~= d.steps@);
    }
    (log, d.value.clone())
}

/// Drives `d1` to completion, then `d2`: the combined log is `d1`'s
/// narration followed by `d2`'s, and each value is the one its own
/// computation yields.
pub fn drive_sequentially(d1: &Deferred, d2: &Deferred) -> (r: (Vec<String>, String, String))
    ensures
        r.0.deep_view() == d1.narration() + d2.narration(),
        r.1@ == d1.result(),
        r.2@ == d2.result(),
{
    let (mut log, v1) = drive(d1);
    let (mut log2, v2) = drive(d2);
    let ghost second = log2.deep_view();
    log.append(&mut log2);
    proof {
        assert(log.deep_view() =~= d1.narration() + second);
    }
    (log, v1, v2)
}

/// How many times `line` occurs in `log`.
pub open spec fn occurrences(log: Seq<Seq<char>>, line: Seq<char>) -> nat
    decreases log.len(),
{
    if log.len() == 0 {
        0
    } else {
        (if log[0] == line {
            1nat
        } else {
            0nat
        }) + occurrences(log.drop_first(), line)
    }
}

/// Occurrence counts distribute over concatenation of logs.
pub proof fn lemma_occurrences_add(a: Seq<Seq<char>>, b: Seq<Seq<char>>, line: Seq<char>)
    ensures
        occurrences(a + b, line) == occurrences(a, line) + occurrences(b, line),
    decreases a.len(),
{
    if a.len() == 0 {
        assert(a + b =~= b);
    } else {
        assert((a + b)[0] == a[0]);
        assert((a + b).drop_first() =~= a.drop_first() + b);
        lemma_occurrences_add(a.drop_first(), b, line);
    }
}

/// The occurrence count in a two-line log is the sum of two point counts.
pub proof fn lemma_occurrences_pair(x: Seq<char>, y: Seq<char>, line: Seq<char>)
    ensures
        occurrences(seq![x, y], line) == (if x == line {
            1nat
        } else {
            0nat
        }) + (if y == line {
            1nat
        } else {
            0nat
        }),
{
    let s = seq![x, y];
    assert(s.drop_first() =~= seq![y]);
    assert(seq![y].drop_first() =~= Seq::<Seq<char>>::empty());
    assert(occurrences(Seq::<Seq<char>>::empty(), line) == 0);
    assert(occurrences(seq![y], line) == (if y == line {
        1nat
    } else {
        0nat
    }));
}

/// Two independently constructed deferred computations, each narrating a
/// running line and then a done line, do not interleave when driven
/// sequentially: the combined log is the first computation's running and
/// done lines followed by the second's, and — provided the four lines are
/// pairwise distinct — each line appears in it exactly once, each running
/// line before its own done line.
pub proof fn lemma_sequential_narration_no_interleaving(
    d1: Deferred,
    d2: Deferred,
    run1: Seq<char>,
    fin1: Seq<char>,
    run2: Seq<char>,
    fin2: Seq<char>,
)
    requires
        d1.narration() == seq![run1, fin1],
        d2.narration() == seq![run2, fin2],
        run1 != fin1,
        run1 != run2,
        run1 != fin2,
        fin1 != run2,
        fin1 != fin2,
        run2 != fin2,
    ensures
        d1.narration() + d2.narration() == seq![run1, fin1, run2, fin2],
        occurrences(d1.narration() + d2.narration(), run1) == 1,
        occurrences(d1.narration() + d2.narration(), fin1) == 1,
        occurrences(d1.narration() + d2.narration(), run2) == 1,
        occurrences(d1.narration() + d2.narration(), fin2) == 1,
{
    assert(d1.narration() + d2.narration() =~= seq![run1, fin1, run2, fin2]);
    lemma_occurrences_add(d1.narration(), d2.narration(), run1);
    lemma_occurrences_add(d1.narration(), d2.narration(), fin1);
    lemma_occurrences_add(d1.narration(), d2.narration(), run2);
    lemma_occurrences_add(d1.narration(), d2.narration(), fin2);
    lemma_occurrences_pair(run1, fin1, run1);
    lemma_occurrences_pair(run1, fin1, fin1);
    lemma_occurrences_pair(run1, fin1, run2);
    lemma_occurrences_pair(run1, fin1, fin2);
    lemma_occurrences_pair(run2, fin2, run1);
    lemma_occurrences_pair(run2, fin2, fin1);
    lemma_occurrences_pair(run2, fin2, run2);
    lemma_occurrences_pair(run2, fin2, fin2);
}

/// A deferred computation that narrates `running`, then `done`, and
/// yields `value`: the shape of the computations the sequential-await
/// demonstrations construct.
pub fn narrated_future(running: String, done: String, value: String) -> (d: Deferred)
    ensures
        d.narration() == seq![running@, done@],
        d.suspensions() == 0,
        d.result() == value@,
{
    let ghost running_text = running@;
    let ghost done_text = done@;
    let mut steps: Vec<Step> = Vec::new();
    steps.push(Step::Narrate(running));
    steps.push(Step::Narrate(done));
    let d = Deferred { steps, value };
    proof {
        let sv = d.steps@;
        assert(sv.len() == 2);
        assert(sv[0] matches Step::Narrate(l) && l@ == running_text);
        assert(sv[1] matches Step::Narrate(l) && l@ == done_text);
        assert(sv.drop_last() =~= seq![sv[0]]);
        assert(seq![sv[0]].drop_last() =~= Seq::<Step>::empty());
        assert(narration_of(Seq::<Step>::empty()) == Seq::<Seq<char>>::empty());
        assert(narration_of(seq![sv[0]]) =~= seq![running_text]);
        assert(narration_of(sv) =~= seq![running_text, done_text]);
        assert(suspension_count(Seq::<Step>::empty()) == 0);
        assert(suspension_count(seq![sv[0]]) == 0);
        assert(suspension_count(sv) == 0);
    }
    d
}

} // verus!
