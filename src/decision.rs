use vstd::prelude::*;

use vstd::string::StrSliceExecFns;

verus! {

/// A binary answer of the operator.
#[derive(Debug, Clone, Copy, PartialEq, Eq, Structural)]
pub enum Answer {
    Yes,
    No,
}

/// A batch-level decision for one axis (import, label, delete): do it for
/// every item, for none, or ask about each item.
#[derive(Debug, Clone, Copy, PartialEq, Eq, Structural)]
pub enum Decision {
    Yes,
    No,
    Ask,
}

/// Whether two texts are the same.
pub fn same_text(a: &str, b: &str) -> (r: bool)
    ensures
        r == (a@ == b@),
{
    let n = a.unicode_len();
    if n != b.unicode_len() {
        return false;
    }
    let mut i: usize = 0;
    while i < n
        invariant
            n == a@.len(),
            n == b@.len(),
            i <= n,
            forall|j: int| 0 <= j < i ==> a@[j] == b@[j],
        decreases n - i,
    {
        if a.get_char(i) != b.get_char(i) {
            return false;
        }
        i += 1;
    }
    assert(a@ =~= b@);
    true
}

/// The answer that a typed reply stands for, if any.
pub open spec fn answer_of(s: Seq<char>) -> Option<Answer> {
    if s == "Y"@ || s == "y"@ || s == "YES"@ || s == "Yes"@ || s == "yes"@ {
        Some(Answer::Yes)
    } else if s == "N"@ || s == "n"@ || s == "NO"@ || s == "No"@ || s == "no"@ {
        Some(Answer::No)
    } else {
        None
    }
}

/// Reads a typed reply as yes or no; anything else is no answer, and the
/// question is to be asked again.
pub fn parse_answer(input: &str) -> (r: Option<Answer>)
    ensures
        r == answer_of(input@),
{
    if same_text(input, "Y") || same_text(input, "y") || same_text(input, "YES") || same_text(
        input,
        "Yes",
    ) || same_text(input, "yes") {
        Some(Answer::Yes)
    } else if same_text(input, "N") || same_text(input, "n") || same_text(input, "NO")
        || same_text(input, "No") || same_text(input, "no") {
        Some(Answer::No)
    } else {
        None
    }
}

/// The batch decision for one axis from the answers to "do it for all?" and,
/// where that was no, "skip it for all?"; `None` while the second answer is
/// still owed.
pub open spec fn batch_outcome(do_all: Answer, skip_all: Option<Answer>) -> Option<Decision> {
    match do_all {
        Answer::Yes => Some(Decision::Yes),
        Answer::No => match skip_all {
            None => None,
            Some(Answer::Yes) => Some(Decision::No),
            Some(Answer::No) => Some(Decision::Ask),
        },
    }
}

/// Resolves a batch decision; returns `None` exactly when the second
/// question has to be asked.
pub fn resolve_batch(do_all: Answer, skip_all: Option<Answer>) -> (r: Option<Decision>)
    ensures
        r == batch_outcome(do_all, skip_all),
        r is None <==> (do_all == Answer::No && skip_all is None),
{
    match do_all {
        Answer::Yes => Some(Decision::Yes),
        Answer::No => match skip_all {
            None => None,
            Some(Answer::Yes) => Some(Decision::No),
            Some(Answer::No) => Some(Decision::Ask),
        },
    }
}

/// The answer a batch decision gives for every item, if it gives one.
pub open spec fn preset_of(d: Decision) -> Option<Answer> {
    match d {
        Decision::Yes => Some(Answer::Yes),
        Decision::No => Some(Answer::No),
        Decision::Ask => None,
    }
}

impl Decision {
    /// The answer for an item without asking; `None` means that the item has
    /// to be asked about.
    pub fn preset(&self) -> (r: Option<Answer>)
        ensures
            r == preset_of(*self),
    {
        match self {
            Decision::Yes => Some(Answer::Yes),
            Decision::No => Some(Answer::No),
            Decision::Ask => None,
        }
    }
}

} // verus!
