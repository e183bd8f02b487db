//! A verified digital-asset registry: a ledger of tokens that are either
//! privately owned or listed for sale, an artist registry with payout
//! accounts, and the authorization rules that guard every transition.
//!
//! The hosting environment resolves the calling principal and the payment
//! attached to a call, persists the [`ledger::PSP34`] state between calls,
//! and performs the outbound payments that a purchase returns as a
//! [`ledger::Settlement`]. Everything the ledger itself decides is specified
//! and proved here.

pub mod account;
pub mod laws;
pub mod ledger;

pub use account::AccountId;
pub use ledger::Artist;
pub use ledger::ArtistId;
pub use ledger::Balance;
pub use ledger::Error;
pub use ledger::PSP34;
pub use ledger::Settlement;
pub use ledger::Token;
pub use ledger::TokenId;
