//! One recorded emoji selection.

use soroban_sdk::{Address, Symbol};
use vstd::prelude::*;

verus! {

/// An emoji selection: which emoji, by whom, and when.
///
/// A record is a plain value. Once it is in a log it is never changed.
#[derive(Debug, PartialEq, Eq)]
pub struct EmojiRecord {
    /// The selected emoji, as a short symbol.
    pub emoji: Symbol,
    /// The user who made the selection.
    pub user: Address,
    /// Ledger time at which the selection was recorded.
    pub timestamp: u64,
}

impl Clone for EmojiRecord {
    /// A copy that agrees with `self` in every field.
    fn clone(&self) -> (copy: Self)
        ensures
            copy == *self,
    {
        EmojiRecord {
            emoji: self.emoji.clone(),
            user: self.user.clone(),
            timestamp: self.timestamp,
        }
    }
}

} // verus!
