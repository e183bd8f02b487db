//! The token ledger and artist registry: data model, the authorization-gated
//! transitions, and the settlement computed on purchase.
//!
//! Each operation takes the calling principal (and, for a purchase, the
//! attached payment) as an explicit argument; the hosting environment
//! resolves both and persists the [`PSP34`] state between calls. A condition
//! a contract host would treat as fatal (a missing record, a payment
//! mismatch, a foreign registration) is reported as an explicit [`Error`]
//! with the state left unchanged, so that a caller can branch on the
//! outcome; an authorization failure likewise.

use std::collections::HashMap;
use vstd::prelude::*;

use crate::account::AccountId;

verus! {

broadcast use vstd::std_specs::hash::group_hash_axioms;

/// Identifies a token in the ledger.
pub type TokenId = u32;

/// An amount of native currency.
pub type Balance = u128;

/// Identifies an artist in the registry.
pub type ArtistId = u32;

/// A ledger record. A token is in exactly one of the two states at any
/// time; it is created by `mint` (always owned) and never destroyed.
#[derive(Clone, Copy, PartialEq, Eq, Debug)]
pub enum Token {
    /// Privately held by `owner`, not for sale; `price` is the last sale
    /// price, or a price the owner has set since.
    Owned { price: Balance, owner: AccountId },
    /// Listed for sale at asking price `price`; `artist` is a non-owning
    /// reference into the artist registry, resolved by lookup on purchase.
    ForSale { price: Balance, artist: ArtistId },
}

/// An artist registry record: a free-form display name and the payout
/// account, which is also the only principal allowed to write the record.
#[derive(PartialEq, Eq, Debug)]
pub struct Artist {
    pub name: Vec<u8>,
    pub account_id: AccountId,
}

/// Why an operation performed no mutation.
#[derive(Clone, Copy, PartialEq, Eq, Debug)]
pub enum Error {
    /// The token was never minted.
    TokenNotFound,
    /// The artist reference could not be resolved in the registry.
    ArtistNotFound,
    /// The caller is not the current owner of an owned token.
    NotOwner,
    /// The token is not listed for sale.
    NotForSale,
    /// The payment attached to a purchase differs from the asking price.
    PriceMismatch,
    /// Only the designated payout account may write its own artist record.
    NotArtist,
}

/// The two outbound payments a successful purchase owes: a tenth of the
/// price to the artist's payout account and the remainder back to the
/// buyer. The host must perform both after the call, and abort the whole
/// call (rolling back the ledger mutation) if either transfer fails.
#[derive(Clone, Copy, PartialEq, Eq, Debug)]
pub struct Settlement {
    pub artist_account: AccountId,
    pub artist_share: Balance,
    pub buyer_account: AccountId,
    pub buyer_share: Balance,
}

/// The token is in the owned state, held by `a`.
pub open spec fn owned_by(t: Token, a: AccountId) -> bool {
    t matches Token::Owned { owner, .. } && owner == a
}

/// The ledger after a mint: the record at `id` is created (or overwritten)
/// as owned by the minter at the given price.
pub open spec fn mint_step(
    tokens: Map<TokenId, Token>,
    caller: AccountId,
    id: TokenId,
    price: Balance,
) -> Map<TokenId, Token> {
    tokens.insert(id, Token::Owned { price, owner: caller })
}

/// The ledger after a transfer attempt: changed only when the record exists
/// and the caller owns it, in which case the new owner takes it with the
/// price reset to zero.
pub open spec fn transfer_step(
    tokens: Map<TokenId, Token>,
    caller: AccountId,
    id: TokenId,
    to: AccountId,
) -> Map<TokenId, Token> {
    if tokens.contains_key(id) && owned_by(tokens[id], caller) {
        tokens.insert(id, Token::Owned { price: 0, owner: to })
    } else {
        tokens
    }
}

/// The ledger after a price update: changed only when the record exists and
/// the caller owns it.
pub open spec fn set_price_step(
    tokens: Map<TokenId, Token>,
    caller: AccountId,
    id: TokenId,
    price: Balance,
) -> Map<TokenId, Token> {
    if tokens.contains_key(id) && owned_by(tokens[id], caller) {
        tokens.insert(id, Token::Owned { price, owner: caller })
    } else {
        tokens
    }
}

/// The ledger after an artist-association attempt: only a listed record can
/// be re-tagged with an artist reference; its price is kept.
pub open spec fn set_token_artist_step(
    tokens: Map<TokenId, Token>,
    id: TokenId,
    artist_id: ArtistId,
) -> Map<TokenId, Token> {
    if tokens.contains_key(id) && tokens[id] is ForSale {
        tokens.insert(
            id,
            Token::ForSale { price: tokens[id]->ForSale_price, artist: artist_id },
        )
    } else {
        tokens
    }
}

/// The ledger after a listing attempt: only the owner of an owned record
/// may list it, at an asking price and with an artist reference.
pub open spec fn set_for_sale_step(
    tokens: Map<TokenId, Token>,
    caller: AccountId,
    id: TokenId,
    price: Balance,
    artist_id: ArtistId,
) -> Map<TokenId, Token> {
    if tokens.contains_key(id) && owned_by(tokens[id], caller) {
        tokens.insert(id, Token::ForSale { price, artist: artist_id })
    } else {
        tokens
    }
}

/// A purchase goes through exactly when the record is listed, its artist
/// reference resolves in the registry, and the attached payment equals the
/// asking price. Caller identity plays no part: anyone may buy.
pub open spec fn buy_ok(
    tokens: Map<TokenId, Token>,
    artists: Map<ArtistId, Artist>,
    id: TokenId,
    value: Balance,
) -> bool {
    &&& tokens.contains_key(id)
    &&& tokens[id] matches Token::ForSale { price, artist }
    &&& artists.contains_key(artist)
    &&& value == price
}

/// The ledger after a purchase attempt: on success the buyer takes the
/// token, owned, with the price reset to zero.
pub open spec fn buy_step(
    tokens: Map<TokenId, Token>,
    artists: Map<ArtistId, Artist>,
    caller: AccountId,
    id: TokenId,
    value: Balance,
) -> Map<TokenId, Token> {
    if buy_ok(tokens, artists, id, value) {
        tokens.insert(id, Token::Owned { price: 0, owner: caller })
    } else {
        tokens
    }
}

/// The payment split of a successful purchase: a tenth of the payment
/// (rounded down) to the artist's payout account, the remainder back to the
/// buyer. The previous holder of the listing receives nothing; the listed
/// record does not track one.
pub open spec fn spec_settlement(
    artists: Map<ArtistId, Artist>,
    artist: ArtistId,
    caller: AccountId,
    value: Balance,
) -> Settlement {
    Settlement {
        artist_account: artists[artist].account_id,
        artist_share: (value / 10) as Balance,
        buyer_account: caller,
        buyer_share: (value - value / 10) as Balance,
    }
}

/// The registry after a registration attempt: an unconditional insert or
/// overwrite, but only when the caller is the record's own payout account.
pub open spec fn set_artist_step(
    artists: Map<ArtistId, Artist>,
    caller: AccountId,
    id: ArtistId,
    artist: Artist,
) -> Map<ArtistId, Artist> {
    if caller == artist.account_id {
        artists.insert(id, artist)
    } else {
        artists
    }
}

/// The registry state: the token ledger, the artist registry, and the
/// artist-id counter. The host persists a value of this type between calls.
pub struct PSP34 {
    pub tokens: HashMap<TokenId, Token>,
    pub artists: HashMap<ArtistId, Artist>,
    pub artist_id_counter: ArtistId,
}

impl PSP34 {
    /// What `get_token` returns, as a function of the ledger alone.
    pub open spec fn spec_get_token(self, id: TokenId) -> Option<Token> {
        if self.tokens@.contains_key(id) {
            Some(self.tokens@[id])
        } else {
            None
        }
    }

    /// An empty registry: no tokens, no artists, counter at zero.
    pub fn new() -> (s: PSP34)
        ensures
            s.tokens@ == Map::<TokenId, Token>::empty(),
            s.artists@ == Map::<ArtistId, Artist>::empty(),
            s.artist_id_counter == 0,
    {
        PSP34 {
            tokens: HashMap::new(),
            artists: HashMap::new(),
            artist_id_counter: 0,
        }
    }

    /// Pure lookup of a token record; absence is an empty result, not an
    /// error.
    pub fn get_token(&self, id: TokenId) -> (r: Option<Token>)
        ensures
            r == self.spec_get_token(id),
    {
        match self.tokens.get(&id) {
            Some(t) => Some(*t),
            None => None,
        }
    }

    /// Creates (or overwrites) the record at `id`, owned by the caller at
    /// the given price, and then attempts to tag it with `artist_id`. The
    /// fresh record is owned, so that association attempt is always
    /// refused; a token is associated with an artist when it is listed,
    /// through `set_for_sale` or `set_token_artist`.
    pub fn mint(&mut self, caller: AccountId, id: TokenId, price: Balance, artist_id: ArtistId)
        ensures
            final(self).tokens@ == mint_step(old(self).tokens@, caller, id, price),
            final(self).artists@ == old(self).artists@,
            final(self).artist_id_counter == old(self).artist_id_counter,
    {
        let token = Token::Owned { price, owner: caller };
        self.tokens.insert(id, token);
        let _ = self.set_token_artist(id, artist_id);
    }

    /// Moves an owned token to a new holder. Only the current owner may
    /// transfer, and the price resets to zero on every transfer, so that no
    /// stale pricing leaks to the new owner.
    pub fn transfer(&mut self, caller: AccountId, id: TokenId, to: AccountId) -> (r: Result<
        (),
        Error,
    >)
        ensures
            final(self).tokens@ == transfer_step(old(self).tokens@, caller, id, to),
            final(self).artists@ == old(self).artists@,
            final(self).artist_id_counter == old(self).artist_id_counter,
            r is Ok <==> old(self).tokens@.contains_key(id) && owned_by(
                old(self).tokens@[id],
                caller,
            ),
            !old(self).tokens@.contains_key(id) ==> r == Err::<(), Error>(Error::TokenNotFound),
            old(self).tokens@.contains_key(id) && !owned_by(old(self).tokens@[id], caller) ==> r
                == Err::<(), Error>(Error::NotOwner),
    {
        let t = match self.tokens.get(&id) {
            None => {
                return Err(Error::TokenNotFound);
            },
            Some(t) => *t,
        };
        match t {
            Token::Owned { price: _, owner } => {
                if owner.eq_account(&caller) {
                    self.tokens.insert(id, Token::Owned { price: 0, owner: to });
                    Ok(())
                } else {
                    Err(Error::NotOwner)
                }
            },
            Token::ForSale { .. } => Err(Error::NotOwner),
        }
    }

    /// Updates the price of an owned token. Only the current owner may do
    /// so; the owner is kept.
    pub fn set_price(&mut self, caller: AccountId, id: TokenId, price: Balance) -> (r: Result<
        (),
        Error,
    >)
        ensures
            final(self).tokens@ == set_price_step(old(self).tokens@, caller, id, price),
            final(self).artists@ == old(self).artists@,
            final(self).artist_id_counter == old(self).artist_id_counter,
            r is Ok <==> old(self).tokens@.contains_key(id) && owned_by(
                old(self).tokens@[id],
                caller,
            ),
            !old(self).tokens@.contains_key(id) ==> r == Err::<(), Error>(Error::TokenNotFound),
            old(self).tokens@.contains_key(id) && !owned_by(old(self).tokens@[id], caller) ==> r
                == Err::<(), Error>(Error::NotOwner),
    {
        let t = match self.tokens.get(&id) {
            None => {
                return Err(Error::TokenNotFound);
            },
            Some(t) => *t,
        };
        match t {
            Token::Owned { price: _, owner } => {
                if owner.eq_account(&caller) {
                    self.tokens.insert(id, Token::Owned { price, owner: caller });
                    Ok(())
                } else {
                    Err(Error::NotOwner)
                }
            },
            Token::ForSale { .. } => Err(Error::NotOwner),
        }
    }

    /// Purchases a listed token. Anyone may call; authorization is implicit
    /// in the payment, which must equal the asking price exactly. On
    /// success the buyer takes the token (owned, price reset to zero) and
    /// the returned settlement names the two payments owed: a tenth of the
    /// payment to the artist's payout account and the remainder back to the
    /// buyer. The artist reference is resolved before the payment is
    /// checked, so an unresolvable artist is reported even when the payment
    /// also mismatches.
    pub fn buy(&mut self, caller: AccountId, id: TokenId, value: Balance) -> (r: Result<
        Settlement,
        Error,
    >)
        ensures
            final(self).tokens@ == buy_step(old(self).tokens@, old(self).artists@, caller, id, value),
            final(self).artists@ == old(self).artists@,
            final(self).artist_id_counter == old(self).artist_id_counter,
            r is Ok <==> buy_ok(old(self).tokens@, old(self).artists@, id, value),
            r is Ok ==> r->Ok_0 == spec_settlement(
                old(self).artists@,
                old(self).tokens@[id]->artist,
                caller,
                value,
            ),
            r is Ok ==> r->Ok_0.artist_share + r->Ok_0.buyer_share == value,
            !old(self).tokens@.contains_key(id) ==> r == Err::<Settlement, Error>(
                Error::TokenNotFound,
            ),
            old(self).tokens@.contains_key(id) && old(self).tokens@[id] is Owned ==> r == Err::<
                Settlement,
                Error,
            >(Error::NotForSale),
            old(self).tokens@.contains_key(id) && old(self).tokens@[id] is ForSale && !old(
                self,
            ).artists@.contains_key(old(self).tokens@[id]->artist) ==> r == Err::<
                Settlement,
                Error,
            >(Error::ArtistNotFound),
            old(self).tokens@.contains_key(id) && old(self).tokens@[id] is ForSale && old(
                self,
            ).artists@.contains_key(old(self).tokens@[id]->artist) && value != old(
                self,
            ).tokens@[id]->ForSale_price ==> r == Err::<Settlement, Error>(Error::PriceMismatch),
    {
        let t = match self.tokens.get(&id) {
            None => {
                return Err(Error::TokenNotFound);
            },
            Some(t) => *t,
        };
        match t {
            Token::Owned { .. } => Err(Error::NotForSale),
            Token::ForSale { price, artist } => {
                let artist_account = match self.artists.get(&artist) {
                    None => {
                        return Err(Error::ArtistNotFound);
                    },
                    Some(a) => a.account_id,
                };
                if value != price {
                    return Err(Error::PriceMismatch);
                }
                self.tokens.insert(id, Token::Owned { price: 0, owner: caller });
                let artist_share = value / 10;
                let buyer_share = value - artist_share;
                Ok(
                    Settlement {
                        artist_account,
                        artist_share,
                        buyer_account: caller,
                        buyer_share,
                    },
                )
            },
        }
    }

    /// Registers (or overwrites) the artist record at `id`. Self-attested:
    /// the caller must be the payout account the record designates, so a
    /// record can never be created or altered on behalf of another account.
    pub fn set_artist(
        &mut self,
        caller: AccountId,
        id: ArtistId,
        name: Vec<u8>,
        account_id: AccountId,
    ) -> (r: Result<(), Error>)
        ensures
            final(self).artists@ == set_artist_step(
                old(self).artists@,
                caller,
                id,
                Artist { name, account_id },
            ),
            final(self).tokens@ == old(self).tokens@,
            final(self).artist_id_counter == old(self).artist_id_counter,
            r is Ok <==> caller == account_id,
            caller != account_id ==> r == Err::<(), Error>(Error::NotArtist),
    {
        if caller.eq_account(&account_id) {
            let artist = Artist { name, account_id };
            self.artists.insert(id, artist);
            Ok(())
        } else {
            Err(Error::NotArtist)
        }
    }

    /// Resolves an artist's payout account; an unknown id is an error.
    pub fn artist_account(&self, id: ArtistId) -> (r: Result<AccountId, Error>)
        ensures
            self.artists@.contains_key(id) ==> r == Ok::<AccountId, Error>(
                self.artists@[id].account_id,
            ),
            !self.artists@.contains_key(id) ==> r == Err::<AccountId, Error>(
                Error::ArtistNotFound,
            ),
    {
        match self.artists.get(&id) {
            Some(a) => Ok(a.account_id),
            None => Err(Error::ArtistNotFound),
        }
    }

    /// Re-tags a listed token with a new artist reference, keeping its
    /// price. Only a listed record can be associated with an artist; an
    /// owned record is left unchanged.
    pub fn set_token_artist(&mut self, id: TokenId, artist_id: ArtistId) -> (r: Result<(), Error>)
        ensures
            final(self).tokens@ == set_token_artist_step(old(self).tokens@, id, artist_id),
            final(self).artists@ == old(self).artists@,
            final(self).artist_id_counter == old(self).artist_id_counter,
            r is Ok <==> old(self).tokens@.contains_key(id) && old(self).tokens@[id] is ForSale,
            !old(self).tokens@.contains_key(id) ==> r == Err::<(), Error>(Error::TokenNotFound),
            old(self).tokens@.contains_key(id) && old(self).tokens@[id] is Owned ==> r == Err::<
                (),
                Error,
            >(Error::NotForSale),
    {
        let t = match self.tokens.get(&id) {
            None => {
                return Err(Error::TokenNotFound);
            },
            Some(t) => *t,
        };
        match t {
            Token::Owned { .. } => Err(Error::NotForSale),
            Token::ForSale { price, artist: _ } => {
                self.tokens.insert(id, Token::ForSale { price, artist: artist_id });
                Ok(())
            },
        }
    }

    /// Lists an owned token for sale at an asking price, associated with an
    /// artist. Only the current owner may list; this is the explicit
    /// owned-to-listed transition that minting alone never performs.
    pub fn set_for_sale(
        &mut self,
        caller: AccountId,
        id: TokenId,
        price: Balance,
        artist_id: ArtistId,
    ) -> (r: Result<(), Error>)
        ensures
            final(self).tokens@ == set_for_sale_step(old(self).tokens@, caller, id, price, artist_id),
            final(self).artists@ == old(self).artists@,
            final(self).artist_id_counter == old(self).artist_id_counter,
            r is Ok <==> old(self).tokens@.contains_key(id) && owned_by(
                old(self).tokens@[id],
                caller,
            ),
            !old(self).tokens@.contains_key(id) ==> r == Err::<(), Error>(Error::TokenNotFound),
            old(self).tokens@.contains_key(id) && !owned_by(old(self).tokens@[id], caller) ==> r
                == Err::<(), Error>(Error::NotOwner),
    {
        let t = match self.tokens.get(&id) {
            None => {
                return Err(Error::TokenNotFound);
            },
            Some(t) => *t,
        };
        match t {
            Token::Owned { price: _, owner } => {
                if owner.eq_account(&caller) {
                    self.tokens.insert(id, Token::ForSale { price, artist: artist_id });
                    Ok(())
                } else {
                    Err(Error::NotOwner)
                }
            },
            Token::ForSale { .. } => Err(Error::NotOwner),
        }
    }

    /// Reads the artist-id counter. Advancing the counter and registering
    /// an artist at the assigned id are separate steps that callers must
    /// sequence themselves.
    pub fn next_artist_id(&self) -> (r: ArtistId)
        ensures
            r == self.artist_id_counter,
    {
        self.artist_id_counter
    }

    /// Advances the artist-id counter by one.
    pub fn increment_artist_id(&mut self)
        requires
            old(self).artist_id_counter < u32::MAX,
        ensures
            final(self).artist_id_counter == old(self).artist_id_counter + 1,
            final(self).tokens@ == old(self).tokens@,
            final(self).artists@ == old(self).artists@,
    {
        self.artist_id_counter = self.artist_id_counter + 1;
    }
}

} // verus!
