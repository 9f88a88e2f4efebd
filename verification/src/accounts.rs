use vstd::prelude::*;
use crate::address::{Address, token_program, token_program_id};
use crate::error::ErrorCode;
use crate::instruction::{
    create_account_instruction, initialize_market_instruction, is_activation_instruction,
    is_create_account_instruction, InitializeMarketAccounts, Instruction,
};
use crate::signer::{derive_vault_signer, is_vault_signer};

verus! {

/// Bytes of framing that the matching engine puts around each of its records.
pub const ACCOUNT_PADDING_LEN: usize = 12;

/// Size in bytes of the matching engine's market-state record.
pub const MARKET_STATE_RECORD_LEN: usize = 376;

/// Bytes to allocate for the market state.
pub const V3_MARKET_STATE_LEN: usize = 12 + 376;

/// Bytes to allocate for the request queue.
pub const REQUEST_QUEUE_LEN: usize = 12 + 5120;

/// Bytes of a token account.
pub const TOKEN_ACCOUNT_LEN: u64 = 165;

/// Calls `std::mem::size_of` on `serum_dex::state::MarketState`. Trusted: the
/// record is packed and holds 47 words of eight bytes.
#[verifier::external_body]
fn market_state_record_len() -> (n: usize)
    ensures
        n == MARKET_STATE_RECORD_LEN,
{
    std::mem::size_of::<serum_dex::state::MarketState>()
}

/// Bytes to allocate for the market state: the framing plus the engine's record.
pub fn v3_market_state_len() -> (n: usize)
    ensures
        n == V3_MARKET_STATE_LEN,
{
    ACCOUNT_PADDING_LEN + market_state_record_len()
}

/// One request to the hosting environment.
#[derive(Clone, Copy, Debug, PartialEq, Eq)]
pub enum Operation {
    /// Reserve `space` bytes of rent-exempt storage at `target`, paid by
    /// `payer` and owned by the program `owner`.
    CreateAccount { payer: Address, target: Address, space: u64, owner: Address },
    /// Make `account` a token account of `mint` controlled by `authority`.
    InitializeTokenAccount { account: Address, mint: Address, authority: Address },
    /// Hand control of the token account from `current_authority` to
    /// `new_authority`.
    SetAccountOwner { account: Address, current_authority: Address, new_authority: Address },
    /// Call the matching engine `program` to activate the market.
    ActivateMarket {
        accounts: InitializeMarketAccounts,
        program: Address,
        coin_lot_size: u64,
        pc_lot_size: u64,
        vault_signer_nonce: u64,
        pc_dust_threshold: u64,
    },
}

impl Operation {
    /// The system-program instruction that carries out an allocation request
    /// with `lamports` of balance; other requests have none.
    pub fn allocation_instruction(&self, lamports: u64) -> (r: Option<Instruction>)
        ensures
            match *self {
                Operation::CreateAccount { payer, target, space, owner } => r matches Some(ix)
                    && is_create_account_instruction(ix, payer, target, lamports, space, owner),
                _ => r is None,
            },
    {
        match self {
            Operation::CreateAccount { payer, target, space, owner } => Some(
                create_account_instruction(payer, target, lamports, *space, owner),
            ),
            _ => None,
        }
    }

    /// The matching-engine instruction that carries out an activation request;
    /// other requests have none.
    pub fn activation_instruction(&self) -> (r: Option<Result<Instruction, ErrorCode>>)
        ensures
            match *self {
                Operation::ActivateMarket {
                    accounts,
                    program,
                    coin_lot_size,
                    pc_lot_size,
                    vault_signer_nonce,
                    pc_dust_threshold,
                } => r matches Some(Ok(ix)) && is_activation_instruction(
                    ix,
                    accounts,
                    program,
                    coin_lot_size,
                    pc_lot_size,
                    vault_signer_nonce,
                    pc_dust_threshold,
                ),
                _ => r is None,
            },
    {
        match self {
            Operation::ActivateMarket {
                accounts,
                program,
                coin_lot_size,
                pc_lot_size,
                vault_signer_nonce,
                pc_dust_threshold,
            } => Some(
                initialize_market_instruction(
                    accounts,
                    program,
                    *coin_lot_size,
                    *pc_lot_size,
                    *vault_signer_nonce,
                    *pc_dust_threshold,
                ),
            ),
            _ => None,
        }
    }
}

/// Every address that a market bootstrap touches.
#[derive(Clone, Copy, Debug, PartialEq, Eq)]
pub struct Initialize {
    /// The deployer, who pays for every allocation.
    pub owner: Address,
    pub coin_mint: Address,
    pub price_mint: Address,
    pub market_state: Address,
    pub request_queue: Address,
    pub event_queue: Address,
    pub bids: Address,
    pub asks: Address,
    pub coin_wallet: Address,
    pub price_wallet: Address,
    pub system_program: Address,
    pub token_program: Address,
    pub rent: Address,
    /// The matching-engine program.
    pub serum_dex: Address,
}

impl Initialize {
    /// The request that reserves `len` bytes at `account` for the matching engine.
    pub open spec fn sized(self, account: Address, len: usize) -> Operation {
        Operation::CreateAccount {
            payer: self.owner,
            target: account,
            space: len as u64,
            owner: self.serum_dex,
        }
    }

    /// The allocations that this flow makes for the engine, in order: market
    /// state, then request queue.
    pub open spec fn allocation_plan(self) -> Seq<Operation> {
        seq![
            self.sized(self.market_state, V3_MARKET_STATE_LEN),
            self.sized(self.request_queue, REQUEST_QUEUE_LEN),
        ]
    }

    /// The three requests that provision one vault, in order: allocate it under
    /// the token program, initialize it with the deployer as authority, then
    /// hand it to `owner`.
    pub open spec fn wallet_plan(self, wallet: Address, mint: Address, owner: Address) -> Seq<Operation> {
        seq![
            Operation::CreateAccount {
                payer: self.owner,
                target: wallet,
                space: TOKEN_ACCOUNT_LEN,
                owner: token_program(),
            },
            Operation::InitializeTokenAccount { account: wallet, mint: mint, authority: self.owner },
            Operation::SetAccountOwner {
                account: wallet,
                current_authority: self.owner,
                new_authority: owner,
            },
        ]
    }

    /// The six requests that provision both vaults: the price vault first,
    /// then the coin vault.
    pub open spec fn wallets_plan(self, vault_signer: Address) -> Seq<Operation> {
        self.wallet_plan(self.price_wallet, self.price_mint, vault_signer)
            + self.wallet_plan(self.coin_wallet, self.coin_mint, vault_signer)
    }

    /// The accounts that the activation call names.
    pub open spec fn activation_accounts(self) -> InitializeMarketAccounts {
        InitializeMarketAccounts {
            market_state: self.market_state,
            request_queue: self.request_queue,
            event_queue: self.event_queue,
            bids: self.bids,
            asks: self.asks,
            coin_wallet: self.coin_wallet,
            price_wallet: self.price_wallet,
            coin_mint: self.coin_mint,
            price_mint: self.price_mint,
            rent: self.rent,
        }
    }

    /// Rejects a market whose coin and price mints are one and the same.
    pub fn check_mints(&self) -> (r: Result<(), ErrorCode>)
        ensures
            r is Err <==> self.coin_mint == self.price_mint,
            r is Err ==> r == Err::<(), ErrorCode>(ErrorCode::MatchingMints),
    {
        if self.coin_mint.same(&self.price_mint) {
            Err(ErrorCode::MatchingMints)
        } else {
            Ok(())
        }
    }

    /// The request that reserves `len` bytes at `account`, paid by the deployer
    /// and owned by the matching engine.
    pub fn set_size(&self, account: Address, len: usize) -> (op: Operation)
        ensures
            op == self.sized(account, len),
    {
        Operation::CreateAccount {
            payer: self.owner,
            target: account,
            space: len as u64,
            owner: self.serum_dex,
        }
    }

    /// The allocations for the market state and the request queue, in that
    /// order, each with its fixed length.
    pub fn init_account_sizes(&self) -> (ops: Vec<Operation>)
        ensures
            ops@ == self.allocation_plan(),
    {
        let mut ops: Vec<Operation> = Vec::new();
        ops.push(self.set_size(self.market_state, v3_market_state_len()));
        ops.push(self.set_size(self.request_queue, REQUEST_QUEUE_LEN));
        assert(ops@ =~= self.allocation_plan());
        ops
    }

    /// Searches for the vault signer of this market under the matching engine.
    pub fn get_vault_signer(&self) -> (r: Result<(Address, u64), ErrorCode>)
        ensures
            is_vault_signer(self.market_state@, self.serum_dex@, r),
    {
        derive_vault_signer(&self.market_state, &self.serum_dex)
    }

    /// The three requests that provision the vault `wallet` for `mint`:
    /// allocation, initialization under the deployer, reassignment to `owner`.
    pub fn initialize_wallet(&self, wallet: Address, mint: Address, owner: &Address) -> (ops: Vec<
        Operation,
    >)
        ensures
            ops@ == self.wallet_plan(wallet, mint, *owner),
    {
        let token = token_program_id();
        let mut ops: Vec<Operation> = Vec::new();
        ops.push(
            Operation::CreateAccount {
                payer: self.owner,
                target: wallet,
                space: TOKEN_ACCOUNT_LEN,
                owner: token,
            },
        );
        ops.push(
            Operation::InitializeTokenAccount { account: wallet, mint: mint, authority: self.owner },
        );
        ops.push(
            Operation::SetAccountOwner {
                account: wallet,
                current_authority: self.owner,
                new_authority: *owner,
            },
        );
        assert(ops@ =~= self.wallet_plan(wallet, mint, *owner));
        ops
    }

    /// The requests that provision the price vault and then the coin vault,
    /// both ending under the authority of `vault_signer`.
    pub fn initialize_wallets(&self, vault_signer: &Address) -> (ops: Vec<Operation>)
        ensures
            ops@ == self.wallets_plan(*vault_signer),
    {
        let mut ops = self.initialize_wallet(self.price_wallet, self.price_mint, vault_signer);
        let mut coin = self.initialize_wallet(self.coin_wallet, self.coin_mint, vault_signer);
        ops.append(&mut coin);
        ops
    }

    /// The accounts that the activation call names.
    pub fn market_accounts(&self) -> (a: InitializeMarketAccounts)
        ensures
            a == self.activation_accounts(),
    {
        InitializeMarketAccounts {
            market_state: self.market_state,
            request_queue: self.request_queue,
            event_queue: self.event_queue,
            bids: self.bids,
            asks: self.asks,
            coin_wallet: self.coin_wallet,
            price_wallet: self.price_wallet,
            coin_mint: self.coin_mint,
            price_mint: self.price_mint,
            rent: self.rent,
        }
    }
}

} // verus!
