//! The shared command-prefix cell.
//!
//! The cell holds one optional text. A write replaces the text as a whole and
//! a read hands out a copy of the whole text, so no reader can ever see part
//! of a write. Writing takes `&mut self`: whoever shares the cell between
//! tasks keeps it behind a lock and so admits one writer at a time, in some
//! order. The laws at the end of this file say what a read returns after the
//! writes have been admitted in a given order.

use vstd::prelude::*;

verus! {

/// The characters of an optional text, if it is set.
pub open spec fn text_of(value: Option<String>) -> Option<Seq<char>> {
    match value {
        Some(s) => Some(s@),
        None => None,
    }
}

/// What the cell holds once `new_value` has been written over `before`: the
/// new text, as it was given. Nothing of `before` is left.
pub open spec fn after_set(before: Option<Seq<char>>, new_value: Seq<char>) -> Option<Seq<char>> {
    Some(new_value)
}

/// What the cell holds once `writes` have been applied to `before`, one after
/// the other, the first of them first.
pub open spec fn after_sets(before: Option<Seq<char>>, writes: Seq<Seq<char>>) -> Option<
    Seq<char>,
>
    decreases writes.len(),
{
    if writes.len() == 0 {
        before
    } else {
        after_set(after_sets(before, writes.drop_last()), writes.last())
    }
}

/// The one prefix override of the application: either unset or a text.
pub struct SharedPrefixState {
    value: Option<String>,
}

impl View for SharedPrefixState {
    type V = Option<Seq<char>>;

    closed spec fn view(&self) -> Option<Seq<char>> {
        text_of(self.value)
    }
}

impl SharedPrefixState {
    /// A fresh cell: no prefix has been set.
    pub fn new() -> (state: Self)
        ensures
            state@ == None::<Seq<char>>,
    {
        SharedPrefixState { value: None }
    }

    /// A copy of the current prefix, or `None` while none has been set.
    pub fn get_prefix(&self) -> (current: Option<String>)
        ensures
            text_of(current) == self@,
    {
        match &self.value {
            Some(text) => Some(text.clone()),
            None => None,
        }
    }

    /// Replaces the prefix by `new_value`, taken as it is: an empty text is a
    /// prefix like any other.
    pub fn set_prefix(&mut self, new_value: String)
        ensures
            final(self)@ == after_set(old(self)@, new_value@),
            final(self)@ == Some(new_value@),
    {
        self.value = Some(new_value);
    }
}

/// Last write wins: after any writes in a row a read returns the last text
/// written, and with no write at all it returns what was there before.
pub proof fn lemma_last_write_wins(before: Option<Seq<char>>, writes: Seq<Seq<char>>)
    ensures
        writes.len() == 0 ==> after_sets(before, writes) == before,
        writes.len() > 0 ==> after_sets(before, writes) == Some(writes.last()),
{
}

/// Two writers that race for the cell are admitted in one of two orders. In
/// either order a later read returns one of the two texts, whole: the text of
/// the writer that was admitted last.
pub proof fn lemma_racing_writes_are_atomic(
    before: Option<Seq<char>>,
    first: Seq<char>,
    second: Seq<char>,
    order: Seq<Seq<char>>,
)
    requires
        order == seq![first, second] || order == seq![second, first],
    ensures
        after_sets(before, order) == Some(order.last()),
        after_sets(before, order) == Some(first) || after_sets(before, order) == Some(second),
{
    lemma_last_write_wins(before, order);
}

/// Every state that a reader can meet while `writes` are being applied is the
/// state before them or one of the written texts in full.
pub proof fn lemma_reads_see_whole_values(
    before: Option<Seq<char>>,
    writes: Seq<Seq<char>>,
    done: int,
)
    requires
        0 <= done <= writes.len(),
    ensures
        done == 0 ==> after_sets(before, writes.take(done)) == before,
        done > 0 ==> after_sets(before, writes.take(done)) == Some(writes[done - 1]),
{
    lemma_last_write_wins(before, writes.take(done));
}

/// Writing the same text twice in a row leaves what writing it once leaves.
pub proof fn lemma_set_is_idempotent(before: Option<Seq<char>>, value: Seq<char>)
    ensures
        after_set(after_set(before, value), value) == after_set(before, value),
        after_sets(before, seq![value, value]) == Some(value),
{
    lemma_last_write_wins(before, seq![value, value]);
}

} // verus!
