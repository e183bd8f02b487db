use psp34::AccountId;
use psp34::Error;
use psp34::Token;
use psp34::PSP34;

fn acct(b: u8) -> AccountId {
    AccountId::from_bytes([b; 32])
}

#[test]
fn test_mint() {
    let mut psp34 = PSP34::new();
    let caller = acct(0x1);

    psp34.mint(caller, 0, 100, 0);
    let token = psp34.get_token(0).unwrap();
    assert_eq!(
        token,
        Token::Owned {
            price: 100,
            owner: caller,
        }
    );
}

#[test]
fn test_transfer() {
    let mut psp34 = PSP34::new();
    let caller1 = acct(0x1);
    let caller2 = AccountId::from_bytes([0x2; 32]);

    psp34.mint(caller1, 0, 100, 0);

    // Transfer the token to another account
    let _ = psp34.transfer(caller1, 0, caller2);
    let token = psp34.get_token(0).unwrap();
    assert_eq!(
        token,
        Token::Owned {
            price: 0,
            owner: caller2,
        }
    );

    // Try to transfer the token back as the old owner (should fail)
    let _ = psp34.transfer(caller1, 0, caller1);
    let token = psp34.get_token(0).unwrap();
    assert_eq!(
        token,
        Token::Owned {
            price: 0,
            owner: caller2,
        }
    );
}

#[test]
fn test_set_artist() {
    let mut psp34 = PSP34::new();
    let caller = acct(0x1);

    // Set artist details, then advance the id counter past the claimed id
    let _ = psp34.set_artist(caller, 0, b"Artist 1".to_vec(), caller);
    psp34.increment_artist_id();

    // Check artist details
    let artist_id = psp34.next_artist_id();
    assert_eq!(psp34.artist_account(artist_id - 1).unwrap(), caller);
}

#[test]
fn test_buy() {
    let mut psp34 = PSP34::new();
    let caller1 = acct(0x1);
    let caller2 = AccountId::from_bytes([0x2; 32]);

    // Mint a token, register the artist, and list the token for sale
    psp34.mint(caller1, 0, 100, 0);
    let _ = psp34.set_token_artist(0, 0);
    let _ = psp34.set_artist(caller1, 0, b"Artist 1".to_vec(), caller1);
    let _ = psp34.set_for_sale(caller1, 0, 50, 0);

    // Try to buy the token without attaching the asking price (should fail)
    let _ = psp34.buy(caller1, 0, 0);
    let token = psp34.get_token(0).unwrap();
    assert_eq!(
        token,
        Token::ForSale {
            price: 50,
            artist: 0,
        }
    );

    // Buy the token as another account, paying exactly the asking price
    let _ = psp34.buy(caller2, 0, 50);
    let token = psp34.get_token(0).unwrap();
    assert_eq!(
        token,
        Token::Owned {
            price: 0,
            owner: caller2,
        }
    );
}

#[test]
fn test_mint_records_caller_and_price() {
    let mut psp34 = PSP34::new();
    let minter = acct(0x7);

    psp34.mint(minter, 42, 0, 3);
    assert_eq!(
        psp34.get_token(42),
        Some(Token::Owned {
            price: 0,
            owner: minter,
        })
    );

    // Minting an already present id overwrites the record
    let other = acct(0x8);
    psp34.mint(other, 42, 5, 0);
    assert_eq!(
        psp34.get_token(42),
        Some(Token::Owned {
            price: 5,
            owner: other,
        })
    );
}

#[test]
fn test_transfer_resets_price() {
    let mut psp34 = PSP34::new();
    let a = acct(0x1);
    let b = acct(0x2);

    psp34.mint(a, 1, 123456789, 0);
    assert_eq!(psp34.transfer(a, 1, b), Ok(()));
    assert_eq!(
        psp34.get_token(1),
        Some(Token::Owned {
            price: 0,
            owner: b,
        })
    );
}

#[test]
fn test_transfer_errors() {
    let mut psp34 = PSP34::new();
    let a = acct(0x1);
    let b = acct(0x2);

    // Never-minted token: the lookup itself fails
    assert_eq!(psp34.transfer(a, 9, b), Err(Error::TokenNotFound));

    // A listed token has no owner to transfer from
    psp34.mint(a, 9, 10, 0);
    let _ = psp34.set_for_sale(a, 9, 10, 0);
    assert_eq!(psp34.transfer(a, 9, b), Err(Error::NotOwner));
}

#[test]
fn test_set_price_owner() {
    let mut psp34 = PSP34::new();
    let a = acct(0x1);

    psp34.mint(a, 2, 10, 0);
    assert_eq!(psp34.set_price(a, 2, 75), Ok(()));
    assert_eq!(
        psp34.get_token(2),
        Some(Token::Owned {
            price: 75,
            owner: a,
        })
    );
}

#[test]
fn test_set_price_nonowner_is_observable_noop() {
    let mut psp34 = PSP34::new();
    let a = acct(0x1);
    let b = acct(0x2);

    psp34.mint(a, 3, 40, 0);

    // However often the non-owner tries, the stored price never moves
    assert_eq!(psp34.set_price(b, 3, 1), Err(Error::NotOwner));
    assert_eq!(psp34.set_price(b, 3, 2), Err(Error::NotOwner));
    assert_eq!(psp34.set_price(b, 3, 3), Err(Error::NotOwner));
    assert_eq!(
        psp34.get_token(3),
        Some(Token::Owned {
            price: 40,
            owner: a,
        })
    );

    // An absent token reports the failed lookup instead
    assert_eq!(psp34.set_price(b, 4, 1), Err(Error::TokenNotFound));
}

#[test]
fn test_buy_payment_split() {
    let mut psp34 = PSP34::new();
    let seller = acct(0x1);
    let artist = acct(0x3);
    let buyer = acct(0x2);

    psp34.mint(seller, 0, 100, 0);
    let _ = psp34.set_artist(artist, 0, b"Artist 1".to_vec(), artist);
    let _ = psp34.set_for_sale(seller, 0, 100, 0);

    let settlement = psp34.buy(buyer, 0, 100).unwrap();
    assert_eq!(settlement.artist_share, 10);
    assert_eq!(settlement.buyer_share, 90);
    assert_eq!(settlement.artist_account, artist);
    assert_eq!(settlement.buyer_account, buyer);
}

#[test]
fn test_buy_payment_split_rounds_down() {
    let mut psp34 = PSP34::new();
    let seller = acct(0x1);
    let artist = acct(0x3);
    let buyer = acct(0x2);

    psp34.mint(seller, 0, 55, 0);
    let _ = psp34.set_artist(artist, 1, b"Artist 2".to_vec(), artist);
    let _ = psp34.set_for_sale(seller, 0, 55, 1);

    let settlement = psp34.buy(buyer, 0, 55).unwrap();
    assert_eq!(settlement.artist_share, 5);
    assert_eq!(settlement.buyer_share, 50);
    assert_eq!(settlement.artist_share + settlement.buyer_share, 55);
}

#[test]
fn test_buy_price_mismatch_leaves_ledger_unchanged() {
    let mut psp34 = PSP34::new();
    let seller = acct(0x1);
    let artist = acct(0x3);
    let buyer = acct(0x2);

    psp34.mint(seller, 0, 100, 0);
    let _ = psp34.set_artist(artist, 0, b"Artist 1".to_vec(), artist);
    let _ = psp34.set_for_sale(seller, 0, 100, 0);

    assert_eq!(psp34.buy(buyer, 0, 99), Err(Error::PriceMismatch));
    assert_eq!(psp34.buy(buyer, 0, 101), Err(Error::PriceMismatch));
    assert_eq!(
        psp34.get_token(0),
        Some(Token::ForSale {
            price: 100,
            artist: 0,
        })
    );
}

#[test]
fn test_buy_errors() {
    let mut psp34 = PSP34::new();
    let a = acct(0x1);
    let b = acct(0x2);

    // Never-minted token
    assert_eq!(psp34.buy(b, 0, 10), Err(Error::TokenNotFound));

    // An owned token is not for sale, whoever asks
    psp34.mint(a, 0, 10, 0);
    assert_eq!(psp34.buy(b, 0, 10), Err(Error::NotForSale));

    // A listing whose artist reference was never registered cannot settle
    let _ = psp34.set_for_sale(a, 0, 10, 5);
    assert_eq!(psp34.buy(b, 0, 10), Err(Error::ArtistNotFound));
    assert_eq!(
        psp34.get_token(0),
        Some(Token::ForSale {
            price: 10,
            artist: 5,
        })
    );
}

#[test]
fn test_set_artist_self_registration_only() {
    let mut psp34 = PSP34::new();
    let artist = acct(0x3);
    let intruder = acct(0x4);

    // A foreign caller cannot create the record on the artist's behalf
    assert_eq!(
        psp34.set_artist(intruder, 0, b"Artist 1".to_vec(), artist),
        Err(Error::NotArtist)
    );
    assert_eq!(psp34.artist_account(0), Err(Error::ArtistNotFound));

    // The designated account itself can
    assert_eq!(psp34.set_artist(artist, 0, b"Artist 1".to_vec(), artist), Ok(()));
    assert_eq!(psp34.artist_account(0), Ok(artist));

    // Nor can a foreign caller overwrite it afterwards
    assert_eq!(
        psp34.set_artist(intruder, 0, b"Artist X".to_vec(), artist),
        Err(Error::NotArtist)
    );
    assert_eq!(psp34.artist_account(0), Ok(artist));
}

#[test]
fn test_set_token_artist_retags_listed_only() {
    let mut psp34 = PSP34::new();
    let a = acct(0x1);

    assert_eq!(psp34.set_token_artist(0, 2), Err(Error::TokenNotFound));

    psp34.mint(a, 0, 10, 1);
    // The freshly minted record is owned, so the mint-time association
    // attempt was refused, and so is an explicit one
    assert_eq!(psp34.set_token_artist(0, 2), Err(Error::NotForSale));

    let _ = psp34.set_for_sale(a, 0, 10, 1);
    assert_eq!(psp34.set_token_artist(0, 2), Ok(()));
    assert_eq!(
        psp34.get_token(0),
        Some(Token::ForSale {
            price: 10,
            artist: 2,
        })
    );
}

#[test]
fn test_set_for_sale_owner_only() {
    let mut psp34 = PSP34::new();
    let a = acct(0x1);
    let b = acct(0x2);

    assert_eq!(psp34.set_for_sale(a, 0, 10, 0), Err(Error::TokenNotFound));

    psp34.mint(a, 0, 100, 0);
    assert_eq!(psp34.set_for_sale(b, 0, 10, 0), Err(Error::NotOwner));
    assert_eq!(
        psp34.get_token(0),
        Some(Token::Owned {
            price: 100,
            owner: a,
        })
    );

    assert_eq!(psp34.set_for_sale(a, 0, 10, 0), Ok(()));
    assert_eq!(
        psp34.get_token(0),
        Some(Token::ForSale {
            price: 10,
            artist: 0,
        })
    );

    // An already listed token has no owner, so it cannot be re-listed
    assert_eq!(psp34.set_for_sale(a, 0, 20, 0), Err(Error::NotOwner));
}

#[test]
fn test_artist_id_counter() {
    let mut psp34 = PSP34::new();
    assert_eq!(psp34.next_artist_id(), 0);
    psp34.increment_artist_id();
    assert_eq!(psp34.next_artist_id(), 1);
    psp34.increment_artist_id();
    assert_eq!(psp34.next_artist_id(), 2);
}

#[test]
fn test_get_token_absent() {
    let psp34 = PSP34::new();
    assert_eq!(psp34.get_token(0), None);
}

#[test]
fn test_account_equality() {
    let a = AccountId::from_bytes([0x5; 32]);
    let b = AccountId::from_bytes([0x5; 32]);
    let c = AccountId::from_bytes([0x6; 32]);
    assert!(a.eq_account(&b));
    assert!(!a.eq_account(&c));
    assert_eq!(a, b);
    assert_ne!(a, c);
}

#[test]
fn test_end_to_end_scenario() {
    let mut psp34 = PSP34::new();
    let a = acct(0xa);
    let b = acct(0xb);

    psp34.mint(a, 0, 100, 0);
    assert_eq!(
        psp34.get_token(0),
        Some(Token::Owned {
            price: 100,
            owner: a,
        })
    );

    let _ = psp34.transfer(a, 0, b);
    assert_eq!(
        psp34.get_token(0),
        Some(Token::Owned {
            price: 0,
            owner: b,
        })
    );

    assert_eq!(psp34.transfer(a, 0, a), Err(Error::NotOwner));
    assert_eq!(
        psp34.get_token(0),
        Some(Token::Owned {
            price: 0,
            owner: b,
        })
    );
}
