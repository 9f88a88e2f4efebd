use serum_market_deploy::accounts::Initialize;
use serum_market_deploy::address::{token_program_id, Address};
use serum_market_deploy::error::ErrorCode;
use serum_market_deploy::signer::{derive_vault_signer, first_success, MAX_NONCE};
use solana_program::pubkey::Pubkey;

fn key(tag: u8) -> Address {
    Address::new([tag; 32])
}

#[test]
fn first_success_skips_failed_nonces() {
    let mut candidates: Vec<Option<Address>> = vec![None; 5];
    candidates.push(Some(key(9)));
    candidates.push(Some(key(10)));
    while candidates.len() < 256 {
        candidates.push(None);
    }
    assert_eq!(first_success(&candidates), Ok((key(9), 5)));
}

#[test]
fn first_success_at_zero() {
    let candidates = vec![Some(key(1)), Some(key(2))];
    assert_eq!(first_success(&candidates), Ok((key(1), 0)));
}

#[test]
fn first_success_at_last_nonce() {
    let mut candidates: Vec<Option<Address>> = vec![None; 255];
    candidates.push(Some(key(3)));
    assert_eq!(first_success(&candidates), Ok((key(3), 255)));
}

#[test]
fn all_failures_give_nonce_not_found() {
    let candidates: Vec<Option<Address>> = vec![None; 256];
    assert_eq!(first_success(&candidates), Err(ErrorCode::NonceNotFound));
    assert_eq!(first_success(&Vec::new()), Err(ErrorCode::NonceNotFound));
}

#[test]
fn max_nonce_is_255() {
    assert_eq!(MAX_NONCE, 255);
}

fn reference(market: &Address, program: &Address) -> Option<(Address, u64)> {
    let market = Pubkey::new_from_array(market.to_bytes());
    let program = Pubkey::new_from_array(program.to_bytes());
    for nonce in 0..=255u64 {
        if let Ok(pk) = serum_dex::state::gen_vault_signer_key(nonce, &market, &program) {
            return Some((Address::new(pk.to_bytes()), nonce));
        }
    }
    None
}

#[test]
fn derived_signer_is_first_valid_program_address() {
    let mut seen_skipped = false;
    for tag in 0..40u8 {
        let market = key(tag);
        let program = key(tag.wrapping_add(100));
        let got = derive_vault_signer(&market, &program);
        match reference(&market, &program) {
            Some((address, nonce)) => {
                assert_eq!(got, Ok((address, nonce)));
                assert_ne!(address, market);
                assert_ne!(address, program);
                if nonce > 0 {
                    seen_skipped = true;
                }
            }
            None => assert_eq!(got, Err(ErrorCode::NonceNotFound)),
        }
    }
    assert!(seen_skipped);
}

#[test]
fn derivation_is_repeatable() {
    let market = key(4);
    let program = key(11);
    assert_eq!(
        derive_vault_signer(&market, &program),
        derive_vault_signer(&market, &program)
    );
}

#[test]
fn derived_signer_matches_seeded_program_address() {
    let market = key(21);
    let program = key(22);
    let (address, nonce) = derive_vault_signer(&market, &program).unwrap();
    let seeds: [&[u8]; 2] = [&market.to_bytes(), &nonce.to_le_bytes()];
    let expected =
        Pubkey::create_program_address(&seeds, &Pubkey::new_from_array(program.to_bytes()))
            .unwrap();
    assert_eq!(address.to_bytes(), expected.to_bytes());
}

#[test]
fn get_vault_signer_uses_market_and_engine() {
    let accounts = Initialize {
        owner: key(1),
        coin_mint: key(2),
        price_mint: key(3),
        market_state: key(4),
        request_queue: key(5),
        event_queue: key(6),
        bids: key(7),
        asks: key(8),
        coin_wallet: key(9),
        price_wallet: key(10),
        system_program: key(0),
        token_program: token_program_id(),
        rent: key(12),
        serum_dex: key(11),
    };
    assert_eq!(
        accounts.get_vault_signer(),
        derive_vault_signer(&key(4), &key(11))
    );
    assert_eq!(
        accounts.get_vault_signer().ok(),
        reference(&key(4), &key(11))
    );
}
