//! The scope that a handler runs against, and its mathematical model.

use crate::cell::CellStore;
use crate::task::{Scheduler, TaskRecord};
use vstd::prelude::*;

verus! {

/// Everything a handler can reach besides the event: the counter cells, the
/// message cells and the task scheduler. Handlers that were bound from the
/// same state share these cells through the scope, not through copies.
#[derive(Debug)]
pub struct Scope {
    pub counters: CellStore<u32>,
    pub messages: CellStore<String>,
    pub scheduler: Scheduler,
}

/// What a handler's run can read or change, as plain mathematics: the event's
/// flag, the counters, the text of each message, and the task records.
#[verifier::ext_equal]
pub struct Model {
    pub suppressed: bool,
    pub counters: Seq<u32>,
    pub messages: Seq<Seq<char>>,
    pub tasks: Seq<TaskRecord>,
}

/// The text of each string of `strings`.
pub open spec fn texts(strings: Seq<String>) -> Seq<Seq<char>> {
    Seq::new(strings.len(), |i: int| strings[i]@)
}

/// Writing a string changes the text at its position and no other.
pub proof fn lemma_texts_update(strings: Seq<String>, i: int, s: String)
    requires
        0 <= i < strings.len(),
    ensures
        texts(strings.update(i, s)) == texts(strings).update(i, s@),
{
    assert(texts(strings.update(i, s)) =~= texts(strings).update(i, s@));
}

/// A new string adds its text at the end.
pub proof fn lemma_texts_push(strings: Seq<String>, s: String)
    ensures
        texts(strings.push(s)) == texts(strings).push(s@),
{
    assert(texts(strings.push(s)) =~= texts(strings).push(s@));
}

impl Scope {
    /// The model of this scope together with an event whose flag is
    /// `suppressed`.
    pub open spec fn model(&self, suppressed: bool) -> Model {
        Model {
            suppressed,
            counters: self.counters@,
            messages: texts(self.messages@),
            tasks: self.scheduler@,
        }
    }

    /// A scope without cells and without tasks.
    pub fn new() -> (scope: Self)
        ensures
            scope.counters@ == Seq::<u32>::empty(),
            scope.messages@ == Seq::<String>::empty(),
            scope.scheduler@ == Seq::<TaskRecord>::empty(),
    {
        Scope { counters: CellStore::new(), messages: CellStore::new(), scheduler: Scheduler::new() }
    }
}

} // verus!
