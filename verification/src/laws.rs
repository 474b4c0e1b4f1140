//! What holds of a log across calls.
//!
//! The contracts in [`crate::store`] describe one call each. The proofs here
//! put them together: what a run of appends leaves behind, and how the
//! queries agree with one another.

use crate::record::EmojiRecord;
use crate::store::{count_of, EmojiContract};
use soroban_sdk::Symbol;
use vstd::prelude::*;

verus! {

/// The log that results from `start` when the records of `added` are
/// appended to it, one call of `append` for each, in the order of `added`.
pub open spec fn after_appends(start: Seq<EmojiRecord>, added: Seq<EmojiRecord>) -> Seq<
    EmojiRecord,
>
    decreases added.len(),
{
    if added.len() == 0 {
        start
    } else {
        after_appends(start, added.drop_last()).push(added.last())
    }
}

/// Appending keeps the order of the calls: after a run of appends the log
/// is what it was before, followed by the appended records in the order in
/// which they were appended. Equal timestamps or equal emojis change nothing
/// about that.
pub proof fn lemma_appends_keep_call_order(start: Seq<EmojiRecord>, added: Seq<EmojiRecord>)
    ensures
        after_appends(start, added) == start + added,
    decreases added.len(),
{
    if added.len() == 0 {
        assert(start + added == start);
    } else {
        lemma_appends_keep_call_order(start, added.drop_last());
        assert((start + added.drop_last()).push(added.last()) == start + added);
    }
}

/// A log that starts empty holds, after a run of appends, exactly the
/// appended records in call order, and so as many records as there were
/// appends, whether or not their emojis differ.
pub proof fn lemma_total_after_appends(added: Seq<EmojiRecord>)
    ensures
        after_appends(Seq::empty(), added) == added,
        after_appends(Seq::empty(), added).len() == added.len(),
{
    lemma_appends_keep_call_order(Seq::empty(), added);
    assert(Seq::<EmojiRecord>::empty() + added == added);
}

/// One more record raises the count of its own emoji by one and leaves the
/// count of every other emoji as it was.
pub proof fn lemma_count_after_append(records: Seq<EmojiRecord>, added: EmojiRecord, emoji: Symbol)
    ensures
        count_of(records.push(added), emoji) == count_of(records, emoji) + if added.emoji
            == emoji {
            1nat
        } else {
            0nat
        },
{
    records.lemma_filter_len_push(|record: EmojiRecord| record.emoji == emoji, added);
}

/// An emoji that no record holds has the count zero; this covers the empty
/// log.
pub proof fn lemma_count_of_absent_emoji(records: Seq<EmojiRecord>, emoji: Symbol)
    requires
        forall|i: int| 0 <= i < records.len() ==> (#[trigger] records[i]).emoji != emoji,
    ensures
        count_of(records, emoji) == 0,
    decreases records.len(),
{
    if records.len() == 0 {
        reveal(Seq::filter);
    } else {
        let earlier = records.drop_last();
        lemma_count_of_absent_emoji(earlier, emoji);
        lemma_count_after_append(earlier, records.last(), emoji);
        assert(earlier.push(records.last()) == records);
    }
}

/// The count that `get_emoji_count` reports for an emoji is the number of
/// records in what `get_emoji_data` returns whose emoji is that one.
pub proof fn lemma_count_agrees_with_data(
    store: EmojiContract,
    emoji: Symbol,
    count: u32,
    data: Vec<EmojiRecord>,
)
    requires
        store.well_formed(),
        call_ensures(EmojiContract::get_emoji_count, (&store, emoji), count),
        call_ensures(EmojiContract::get_emoji_data, (&store,), data),
    ensures
        count == count_of(data@, emoji),
{
}

/// The total that `get_total_votes` reports is the length of what
/// `get_emoji_data` returns.
pub proof fn lemma_total_agrees_with_data(store: EmojiContract, total: u32, data: Vec<EmojiRecord>)
    requires
        store.well_formed(),
        call_ensures(EmojiContract::get_total_votes, (&store,), total),
        call_ensures(EmojiContract::get_emoji_data, (&store,), data),
    ensures
        total == data@.len(),
{
}

/// Reading changes nothing: two calls of `get_emoji_data` on the same log
/// return the same sequence of records.
pub proof fn lemma_reads_agree(store: EmojiContract, first: Vec<EmojiRecord>, second: Vec<EmojiRecord>)
    requires
        call_ensures(EmojiContract::get_emoji_data, (&store,), first),
        call_ensures(EmojiContract::get_emoji_data, (&store,), second),
    ensures
        first@ == second@,
{
}

} // verus!
