use serum_market_deploy::accounts::{
    v3_market_state_len, Initialize, Operation, REQUEST_QUEUE_LEN, TOKEN_ACCOUNT_LEN,
    V3_MARKET_STATE_LEN,
};
use serum_market_deploy::address::{token_program_id, Address};
use serum_market_deploy::error::ErrorCode;
use serum_market_deploy::event::InitializedEvent;
use serum_market_deploy::flow::{initialize, Action, Deployment, Outcome, Stage};
use serum_market_deploy::instruction::InitializeMarketAccounts;
use solana_program::pubkey::Pubkey;

fn addr(tag: u8) -> Address {
    let mut bytes = [0u8; 32];
    bytes[0] = tag;
    bytes[31] = tag.wrapping_mul(7).wrapping_add(1);
    Address::new(bytes)
}

fn sample() -> Initialize {
    Initialize {
        owner: addr(1),
        coin_mint: addr(2),
        price_mint: addr(3),
        market_state: addr(4),
        request_queue: addr(5),
        event_queue: addr(6),
        bids: addr(7),
        asks: addr(8),
        coin_wallet: addr(9),
        price_wallet: addr(10),
        system_program: Address::new([0u8; 32]),
        token_program: token_program_id(),
        rent: Address::new(solana_program::sysvar::rent::ID.to_bytes()),
        serum_dex: addr(11),
    }
}

fn expected_signer(accounts: &Initialize) -> (Address, u64) {
    let market = Pubkey::new_from_array(accounts.market_state.to_bytes());
    let program = Pubkey::new_from_array(accounts.serum_dex.to_bytes());
    let mut nonce: u64 = 0;
    while nonce <= 255 {
        if let Ok(pk) = serum_dex::state::gen_vault_signer_key(nonce, &market, &program) {
            return (Address::new(pk.to_bytes()), nonce);
        }
        nonce += 1;
    }
    panic!("no nonce");
}

fn run_to_end(accounts: Initialize) -> (Vec<Operation>, Deployment, Action) {
    let (mut state, mut action) = initialize(accounts, 1, 1, 0);
    let mut performed = Vec::new();
    let mut guard = 0;
    while let Action::Perform(op) = action {
        performed.push(op);
        let next = state.advance(Outcome::Completed);
        state = next.0;
        action = next.1;
        guard += 1;
        assert!(guard < 50);
    }
    (performed, state, action)
}

#[test]
fn end_to_end_activates_market() {
    let accounts = sample();
    let (signer, nonce) = expected_signer(&accounts);
    let (performed, state, action) = run_to_end(accounts);
    let token = Address::new(spl_token::id().to_bytes());
    let expected = vec![
        Operation::CreateAccount {
            payer: accounts.owner,
            target: accounts.market_state,
            space: 388,
            owner: accounts.serum_dex,
        },
        Operation::CreateAccount {
            payer: accounts.owner,
            target: accounts.request_queue,
            space: 5132,
            owner: accounts.serum_dex,
        },
        Operation::CreateAccount {
            payer: accounts.owner,
            target: accounts.price_wallet,
            space: 165,
            owner: token,
        },
        Operation::InitializeTokenAccount {
            account: accounts.price_wallet,
            mint: accounts.price_mint,
            authority: accounts.owner,
        },
        Operation::SetAccountOwner {
            account: accounts.price_wallet,
            current_authority: accounts.owner,
            new_authority: signer,
        },
        Operation::CreateAccount {
            payer: accounts.owner,
            target: accounts.coin_wallet,
            space: 165,
            owner: token,
        },
        Operation::InitializeTokenAccount {
            account: accounts.coin_wallet,
            mint: accounts.coin_mint,
            authority: accounts.owner,
        },
        Operation::SetAccountOwner {
            account: accounts.coin_wallet,
            current_authority: accounts.owner,
            new_authority: signer,
        },
        Operation::ActivateMarket {
            accounts: InitializeMarketAccounts {
                market_state: accounts.market_state,
                request_queue: accounts.request_queue,
                event_queue: accounts.event_queue,
                bids: accounts.bids,
                asks: accounts.asks,
                coin_wallet: accounts.coin_wallet,
                price_wallet: accounts.price_wallet,
                coin_mint: accounts.coin_mint,
                price_mint: accounts.price_mint,
                rent: accounts.rent,
            },
            program: accounts.serum_dex,
            coin_lot_size: 1,
            pc_lot_size: 1,
            vault_signer_nonce: nonce,
            pc_dust_threshold: 0,
        },
    ];
    assert_eq!(performed, expected);
    assert_eq!(state.stage, Stage::Done);
    assert_eq!(
        action,
        Action::Emit(InitializedEvent {
            coin_mint: accounts.coin_mint,
            price_mint: accounts.price_mint
        })
    );
}

#[test]
fn matching_mints_abort_before_any_allocation() {
    let mut accounts = sample();
    accounts.price_mint = accounts.coin_mint;
    let (state, action) = initialize(accounts, 1, 1, 0);
    assert_eq!(
        action,
        Action::Abort {
            error: ErrorCode::MatchingMints,
            cause: None
        }
    );
    assert_eq!(
        state.stage,
        Stage::Failed {
            error: ErrorCode::MatchingMints
        }
    );
    let (after, idle) = state.advance(Outcome::Completed);
    assert_eq!(idle, Action::Idle);
    assert_eq!(after, state);
}

#[test]
fn check_mints_rejects_only_equal_mints() {
    let accounts = sample();
    assert_eq!(accounts.check_mints(), Ok(()));
    let mut same = accounts;
    same.coin_mint = same.price_mint;
    assert_eq!(same.check_mints(), Err(ErrorCode::MatchingMints));
}

#[test]
fn distinct_mints_start_with_market_state_allocation() {
    let accounts = sample();
    let (state, action) = initialize(accounts, 10, 20, 30);
    assert_eq!(state.stage, Stage::Allocating { step: 0 });
    assert_eq!(state.coin_lot_size, 10);
    assert_eq!(state.pc_lot_size, 20);
    assert_eq!(state.pc_dust_threshold, 30);
    assert_eq!(
        action,
        Action::Perform(Operation::CreateAccount {
            payer: accounts.owner,
            target: accounts.market_state,
            space: 388,
            owner: accounts.serum_dex,
        })
    );
}

#[test]
fn rejected_allocation_is_allocation_error() {
    let (state, _) = initialize(sample(), 1, 1, 0);
    let (state, action) = state.advance(Outcome::Rejected { cause: Some(17) });
    assert_eq!(
        action,
        Action::Abort {
            error: ErrorCode::AllocationError,
            cause: Some(17)
        }
    );
    assert_eq!(
        state.stage,
        Stage::Failed {
            error: ErrorCode::AllocationError
        }
    );
}

#[test]
fn rejected_second_allocation_is_allocation_error() {
    let (state, _) = initialize(sample(), 1, 1, 0);
    let (state, _) = state.advance(Outcome::Completed);
    assert_eq!(state.stage, Stage::Allocating { step: 1 });
    let (_, action) = state.advance(Outcome::Rejected { cause: None });
    assert_eq!(
        action,
        Action::Abort {
            error: ErrorCode::AllocationError,
            cause: None
        }
    );
}

#[test]
fn failed_signer_search_is_nonce_not_found() {
    let (state, _) = initialize(sample(), 1, 1, 0);
    let (state, _) = state.advance(Outcome::Completed);
    let (state, action) = state.advance_with(Outcome::Completed, Err(ErrorCode::NonceNotFound));
    assert_eq!(
        action,
        Action::Abort {
            error: ErrorCode::NonceNotFound,
            cause: None
        }
    );
    assert_eq!(
        state.stage,
        Stage::Failed {
            error: ErrorCode::NonceNotFound
        }
    );
}

#[test]
fn rejected_vault_step_is_vault_error() {
    for failing in 0..6usize {
        let (mut state, _) = initialize(sample(), 1, 1, 0);
        state = state.advance(Outcome::Completed).0;
        state = state.advance_with(Outcome::Completed, Ok((addr(40), 5))).0;
        for _ in 0..failing {
            state = state.advance(Outcome::Completed).0;
        }
        assert_eq!(
            state.stage,
            Stage::Provisioning {
                step: failing,
                vault_signer: addr(40),
                nonce: 5
            }
        );
        let (state, action) = state.advance(Outcome::Rejected { cause: Some(3) });
        assert_eq!(
            action,
            Action::Abort {
                error: ErrorCode::VaultError,
                cause: Some(3)
            }
        );
        assert_eq!(
            state.stage,
            Stage::Failed {
                error: ErrorCode::VaultError
            }
        );
    }
}

#[test]
fn failed_activation_emits_no_event() {
    let (mut state, mut action) = initialize(sample(), 1, 1, 0);
    for _ in 0..8 {
        let next = state.advance(Outcome::Completed);
        state = next.0;
        action = next.1;
    }
    assert!(matches!(
        action,
        Action::Perform(Operation::ActivateMarket { .. })
    ));
    let (state, action) = state.advance(Outcome::Rejected { cause: Some(0x2a) });
    assert_eq!(
        action,
        Action::Abort {
            error: ErrorCode::InitializeMarketError,
            cause: Some(0x2a)
        }
    );
    assert_eq!(
        state.stage,
        Stage::Failed {
            error: ErrorCode::InitializeMarketError
        }
    );
    let (_, after) = state.advance(Outcome::Completed);
    assert_eq!(after, Action::Idle);
}

#[test]
fn fake_signer_becomes_final_authority_of_both_vaults() {
    let accounts = sample();
    let ops = accounts.initialize_wallets(&addr(77));
    assert_eq!(ops.len(), 6);
    assert!(matches!(ops[0], Operation::CreateAccount { target, .. } if target == accounts.price_wallet));
    assert!(matches!(ops[1], Operation::InitializeTokenAccount { authority, .. } if authority == accounts.owner));
    assert!(matches!(ops[2], Operation::SetAccountOwner { new_authority, .. } if new_authority == addr(77)));
    assert!(matches!(ops[3], Operation::CreateAccount { target, .. } if target == accounts.coin_wallet));
    assert!(matches!(ops[4], Operation::InitializeTokenAccount { mint, .. } if mint == accounts.coin_mint));
    assert!(matches!(ops[5], Operation::SetAccountOwner { new_authority, .. } if new_authority == addr(77)));
}

#[test]
fn single_vault_is_allocated_initialized_then_reassigned() {
    let accounts = sample();
    let ops = accounts.initialize_wallet(addr(50), addr(51), &addr(52));
    assert_eq!(
        ops,
        vec![
            Operation::CreateAccount {
                payer: accounts.owner,
                target: addr(50),
                space: TOKEN_ACCOUNT_LEN,
                owner: token_program_id(),
            },
            Operation::InitializeTokenAccount {
                account: addr(50),
                mint: addr(51),
                authority: accounts.owner,
            },
            Operation::SetAccountOwner {
                account: addr(50),
                current_authority: accounts.owner,
                new_authority: addr(52),
            },
        ]
    );
}

#[test]
fn allocation_lengths() {
    assert_eq!(v3_market_state_len(), 388);
    assert_eq!(V3_MARKET_STATE_LEN, 388);
    assert_eq!(
        v3_market_state_len(),
        12 + std::mem::size_of::<serum_dex::state::MarketState>()
    );
    assert_eq!(REQUEST_QUEUE_LEN, 5132);
    assert_eq!(TOKEN_ACCOUNT_LEN, 165);
    let accounts = sample();
    let ops = accounts.init_account_sizes();
    assert_eq!(
        ops,
        vec![
            accounts.set_size(accounts.market_state, 388),
            accounts.set_size(accounts.request_queue, 5132),
        ]
    );
    assert_eq!(
        accounts.set_size(addr(90), 64),
        Operation::CreateAccount {
            payer: accounts.owner,
            target: addr(90),
            space: 64,
            owner: accounts.serum_dex,
        }
    );
}

#[test]
fn market_accounts_carry_every_address() {
    let accounts = sample();
    let m = accounts.market_accounts();
    assert_eq!(m.market_state, accounts.market_state);
    assert_eq!(m.request_queue, accounts.request_queue);
    assert_eq!(m.event_queue, accounts.event_queue);
    assert_eq!(m.bids, accounts.bids);
    assert_eq!(m.asks, accounts.asks);
    assert_eq!(m.coin_wallet, accounts.coin_wallet);
    assert_eq!(m.price_wallet, accounts.price_wallet);
    assert_eq!(m.coin_mint, accounts.coin_mint);
    assert_eq!(m.price_mint, accounts.price_mint);
    assert_eq!(m.rent, accounts.rent);
}

#[test]
fn well_formedness_check() {
    let (state, _) = initialize(sample(), 1, 1, 0);
    assert!(state.is_well_formed());
    let broken = Deployment {
        stage: Stage::Allocating { step: 2 },
        ..state
    };
    assert!(!broken.is_well_formed());
    let mut same = sample();
    same.price_mint = same.coin_mint;
    let (failed, _) = initialize(same, 1, 1, 0);
    assert!(failed.is_well_formed());
    let forged = Deployment {
        stage: Stage::Done,
        ..failed
    };
    assert!(!forged.is_well_formed());
}
