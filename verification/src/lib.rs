//! An append-only log of emoji selections with count queries.
//!
//! Every selection is kept as an [`EmojiRecord`]: the chosen emoji, the user
//! who chose it and the ledger time of the choice. An [`EmojiContract`] owns
//! the log of one contract instance. Records are only ever added at the end;
//! the queries report the whole log, its length, and how often one emoji was
//! chosen.
//!
//! The emoji and the user are values of the Soroban host (`Symbol`,
//! `Address`). The log carries them through untouched; the few host calls it
//! makes are gathered in [`host`].

pub mod host;
pub mod laws;
pub mod record;
pub mod store;

pub use record::EmojiRecord;
pub use store::EmojiContract;
