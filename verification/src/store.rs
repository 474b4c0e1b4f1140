//! The log of one contract instance and the operations on it.

use crate::host::{ledger_timestamp, same_symbol};
use crate::record::EmojiRecord;
use soroban_sdk::{Address, Env, Symbol};
use vstd::prelude::*;

verus! {

/// The records of `records` whose emoji is `emoji`, in their order.
pub open spec fn selections_of(records: Seq<EmojiRecord>, emoji: Symbol) -> Seq<EmojiRecord> {
    records.filter(|record: EmojiRecord| record.emoji == emoji)
}

/// How many records of `records` have the emoji `emoji`.
pub open spec fn count_of(records: Seq<EmojiRecord>, emoji: Symbol) -> nat {
    selections_of(records, emoji).len()
}

/// The emoji log of one contract instance.
///
/// Its value is the sequence of its records, oldest first (`self@`). The log
/// only grows: a record, once appended, keeps its place and its fields. A
/// well-formed log holds no more records than the 32-bit counter of the
/// queries can report; every log this library hands out is well-formed.
pub struct EmojiContract {
    records: Vec<EmojiRecord>,
}

impl View for EmojiContract {
    type V = Seq<EmojiRecord>;

    closed spec fn view(&self) -> Seq<EmojiRecord> {
        self.records@
    }
}

impl EmojiContract {
    /// The number of records fits the 32-bit counter.
    pub open spec fn well_formed(&self) -> bool {
        self@.len() <= u32::MAX
    }

    /// The log of an instance to which nothing was recorded yet: it is empty.
    pub fn new() -> (store: Self)
        ensures
            store.well_formed(),
            store@ == Seq::<EmojiRecord>::empty(),
    {
        EmojiContract { records: Vec::new() }
    }

    /// Appends the selection of `emoji` by `user` at ledger time `timestamp`
    /// and hands `emoji` back.
    ///
    /// The new record becomes the last one; the records before it are
    /// untouched.
    pub fn append(&mut self, emoji: Symbol, user: Address, timestamp: u64) -> (echo: Symbol)
        requires
            old(self)@.len() < u32::MAX,
        ensures
            final(self).well_formed(),
            final(self)@ == old(self)@.push((EmojiRecord { emoji, user, timestamp })),
            echo == emoji,
    {
        let echo = emoji.clone();
        self.records.push(EmojiRecord { emoji, user, timestamp });
        echo
    }

    /// Records the selection of `emoji` by `user` at the current ledger time
    /// of `env` and hands `emoji` back.
    ///
    /// `name` is accepted and not used. The timestamp of the new record is
    /// the one the host reports at the call; everything else about the new
    /// log is fixed by the arguments.
    #[allow(unused_variables)]
    pub fn record_emoji(
        &mut self,
        env: &Env,
        emoji: Symbol,
        name: Symbol,
        user: Address,
    ) -> (echo: Symbol)
        requires
            old(self)@.len() < u32::MAX,
        ensures
            final(self).well_formed(),
            final(self)@ == old(self)@.push(
                (EmojiRecord { emoji, user, timestamp: final(self)@.last().timestamp }),
            ),
            echo == emoji,
    {
        let timestamp: u64 = ledger_timestamp(env);
        self.append(emoji, user, timestamp)
    }

    /// All records, oldest first, as a value of its own.
    pub fn get_emoji_data(&self) -> (records: Vec<EmojiRecord>)
        ensures
            records@ == self@,
    {
        let mut records: Vec<EmojiRecord> = Vec::new();
        let mut i: usize = 0;
        while i < self.records.len()
            invariant
                i <= self.records.len(),
                records@ == self.records@.take(i as int),
            decreases self.records.len() - i,
        {
            records.push(self.records[i].clone());
            assert(self.records@.take(i + 1) == self.records@.take(i as int).push(
                self.records@[i as int],
            ));
            i += 1;
        }
        assert(self.records@.take(i as int) == self.records@);
        records
    }

    /// The number of records.
    pub fn get_total_votes(&self) -> (total: u32)
        requires
            self.well_formed(),
        ensures
            total == self@.len(),
    {
        self.records.len() as u32
    }

    /// The number of records whose emoji is `emoji`.
    pub fn get_emoji_count(&self, emoji: Symbol) -> (count: u32)
        requires
            self.well_formed(),
        ensures
            count == count_of(self@, emoji),
    {
        let mut count: u32 = 0;
        let mut i: usize = 0;
        while i < self.records.len()
            invariant
                i <= self.records.len(),
                self.records@.len() <= u32::MAX,
                count <= i,
                count == count_of(self.records@.take(i as int), emoji),
            decreases self.records.len() - i,
        {
            proof {
                let seen = self.records@.take(i as int);
                assert(self.records@.take(i + 1) == seen.push(self.records@[i as int]));
                seen.lemma_filter_len_push(
                    |record: EmojiRecord| record.emoji == emoji,
                    self.records@[i as int],
                );
            }
            if same_symbol(&self.records[i].emoji, &emoji) {
                count += 1;
            }
            i += 1;
        }
        assert(self.records@.take(i as int) == self.records@);
        count
    }
}

} // verus!
