//! The laws of the ledger, stated over the same transition functions that
//! the executable operations are proved against.

use vstd::prelude::*;

use crate::account::AccountId;
use crate::ledger::buy_step;
use crate::ledger::mint_step;
use crate::ledger::owned_by;
use crate::ledger::set_artist_step;
use crate::ledger::set_price_step;
use crate::ledger::spec_settlement;
use crate::ledger::transfer_step;
use crate::ledger::Artist;
use crate::ledger::ArtistId;
use crate::ledger::Balance;
use crate::ledger::Token;
use crate::ledger::TokenId;
use crate::ledger::PSP34;

verus! {

/// Mint ownership: after a mint by `caller`, looking the token up yields
/// exactly the owned record with the minted price and the minter as owner.
pub proof fn lemma_mint_ownership(
    pre: PSP34,
    post: PSP34,
    caller: AccountId,
    id: TokenId,
    price: Balance,
)
    requires
        post.tokens@ == mint_step(pre.tokens@, caller, id, price),
    ensures
        post.spec_get_token(id) == Some(Token::Owned { price, owner: caller }),
{
}

/// Transfer authorization: on a token owned by `p`, a transfer attempted
/// by any other principal `q` leaves the ledger unchanged, while a
/// transfer by `p` to `to` yields the record owned by `to` at price zero.
pub proof fn lemma_transfer_authorization(
    tokens: Map<TokenId, Token>,
    p: AccountId,
    q: AccountId,
    price: Balance,
    id: TokenId,
    to: AccountId,
)
    requires
        tokens.contains_key(id),
        tokens[id] == (Token::Owned { price, owner: p }),
        q != p,
    ensures
        transfer_step(tokens, q, id, to) == tokens,
        transfer_step(tokens, p, id, to) == tokens.insert(
            id,
            Token::Owned { price: 0, owner: to },
        ),
{
}

/// Price reset on transfer: whatever the price was before, the record a
/// successful transfer leaves behind carries price zero.
pub proof fn lemma_price_reset_on_transfer(
    tokens: Map<TokenId, Token>,
    caller: AccountId,
    id: TokenId,
    to: AccountId,
)
    requires
        tokens.contains_key(id),
        owned_by(tokens[id], caller),
    ensures
        transfer_step(tokens, caller, id, to)[id] == (Token::Owned { price: 0, owner: to }),
{
}

/// Purchase payment split: the artist receives a tenth of the payment,
/// rounded down, the buyer-side transfer receives the remainder, and the
/// two shares sum back to the payment.
pub proof fn lemma_purchase_split(
    artists: Map<ArtistId, Artist>,
    artist: ArtistId,
    caller: AccountId,
    value: Balance,
)
    ensures
        spec_settlement(artists, artist, caller, value).artist_share == value / 10,
        spec_settlement(artists, artist, caller, value).buyer_share == value - value / 10,
        spec_settlement(artists, artist, caller, value).artist_share + spec_settlement(
            artists,
            artist,
            caller,
            value,
        ).buyer_share == value,
{
}

/// Purchase price mismatch: a purchase whose attached payment differs from
/// the asking price leaves the ledger unchanged, whoever calls and
/// whatever the registry holds.
pub proof fn lemma_buy_price_mismatch(
    tokens: Map<TokenId, Token>,
    artists: Map<ArtistId, Artist>,
    caller: AccountId,
    id: TokenId,
    value: Balance,
)
    requires
        tokens.contains_key(id),
        tokens[id] matches Token::ForSale { price, .. } && value != price,
    ensures
        buy_step(tokens, artists, caller, id, value) == tokens,
{
}

/// Artist self-registration: a registration succeeds only when the caller
/// is the designated payout account itself; any other caller leaves the
/// registry unchanged, whether or not the id was ever set.
pub proof fn lemma_artist_self_registration(
    artists: Map<ArtistId, Artist>,
    caller: AccountId,
    id: ArtistId,
    artist: Artist,
)
    ensures
        caller != artist.account_id ==> set_artist_step(artists, caller, id, artist) == artists,
        caller == artist.account_id ==> set_artist_step(artists, caller, id, artist)
            == artists.insert(id, artist),
{
}

/// The ledger after `n` consecutive price updates attempted with the same
/// caller, token and price.
pub open spec fn iter_set_price(
    tokens: Map<TokenId, Token>,
    caller: AccountId,
    id: TokenId,
    price: Balance,
    n: nat,
) -> Map<TokenId, Token>
    decreases n,
{
    if n == 0 {
        tokens
    } else {
        set_price_step(iter_set_price(tokens, caller, id, price, (n - 1) as nat), caller, id, price)
    }
}

/// Rejected no-ops stay no-ops: when the caller does not own the record
/// (or it does not exist, or is listed), any number of repeated price
/// updates leaves the ledger — and so the stored price — unchanged.
pub proof fn lemma_set_price_nonowner_noop(
    tokens: Map<TokenId, Token>,
    caller: AccountId,
    id: TokenId,
    price: Balance,
    n: nat,
)
    requires
        tokens.contains_key(id) ==> !owned_by(tokens[id], caller),
    ensures
        iter_set_price(tokens, caller, id, price, n) == tokens,
    decreases n,
{
    if n > 0 {
        lemma_set_price_nonowner_noop(tokens, caller, id, price, (n - 1) as nat);
    }
}

} // verus!
