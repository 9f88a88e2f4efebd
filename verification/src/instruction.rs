use vstd::prelude::*;
use crate::address::{Address, rent_sysvar, system_program};
use crate::error::ErrorCode;
use solana_program::pubkey::Pubkey;
use vstd::bytes::{
    lemma_auto_spec_u16_to_from_le_bytes, lemma_auto_spec_u32_to_from_le_bytes,
    lemma_auto_spec_u64_to_from_le_bytes, spec_u16_to_le_bytes, spec_u32_to_le_bytes,
    spec_u64_to_le_bytes,
};

verus! {

/// One account named by an instruction, with the access it is given.
#[derive(Clone, Copy, Debug, PartialEq, Eq)]
pub struct AccountMeta {
    pub pubkey: Address,
    pub is_signer: bool,
    pub is_writable: bool,
}

/// A call to another program: its address, the ordered accounts and the
/// encoded arguments.
#[derive(Clone, Debug, PartialEq, Eq)]
pub struct Instruction {
    pub program_id: Address,
    pub accounts: Vec<AccountMeta>,
    pub data: Vec<u8>,
}

/// The addresses that the activation call names.
#[derive(Clone, Copy, Debug, PartialEq, Eq)]
pub struct InitializeMarketAccounts {
    pub market_state: Address,
    pub request_queue: Address,
    pub event_queue: Address,
    pub bids: Address,
    pub asks: Address,
    pub coin_wallet: Address,
    pub price_wallet: Address,
    pub coin_mint: Address,
    pub price_mint: Address,
    pub rent: Address,
}

/// An account that signs and may be written.
pub open spec fn signing(a: Address) -> AccountMeta {
    AccountMeta { pubkey: a, is_signer: true, is_writable: true }
}

/// An account that may be written and does not sign.
pub open spec fn writable(a: Address) -> AccountMeta {
    AccountMeta { pubkey: a, is_signer: false, is_writable: true }
}

/// An account that is only read.
pub open spec fn readonly(a: Address) -> AccountMeta {
    AccountMeta { pubkey: a, is_signer: false, is_writable: false }
}

/// The ordered account list of the activation call: market, request queue,
/// event queue, bids, asks, coin vault, price vault (all writable), then coin
/// mint, price mint and the rent sysvar (read only).
pub open spec fn activation_accounts(a: InitializeMarketAccounts) -> Seq<AccountMeta> {
    seq![
        writable(a.market_state),
        writable(a.request_queue),
        writable(a.event_queue),
        writable(a.bids),
        writable(a.asks),
        writable(a.coin_wallet),
        writable(a.price_wallet),
        readonly(a.coin_mint),
        readonly(a.price_mint),
        readonly(rent_sysvar()),
    ]
}

/// The encoded arguments of the system program's create-account call: the
/// call's number, 0, in four bytes; the balance and the size in eight bytes
/// each; the owner's 32 bytes. Numbers stand least significant byte first.
pub open spec fn create_account_data(lamports: u64, space: u64, owner: Seq<u8>) -> Seq<u8> {
    spec_u32_to_le_bytes(0) + spec_u64_to_le_bytes(lamports) + spec_u64_to_le_bytes(space) + owner
}

/// The encoded arguments of the matching engine's activation call: a version
/// byte, 0; the call's number, 0, in four bytes; the coin and price lot sizes
/// in eight bytes each; a fee rate of 0 in two bytes; the nonce and the dust
/// threshold in eight bytes each. Numbers stand least significant byte first.
pub open spec fn initialize_market_data(
    coin_lot_size: u64,
    pc_lot_size: u64,
    vault_signer_nonce: u64,
    pc_dust_threshold: u64,
) -> Seq<u8> {
    seq![0u8] + spec_u32_to_le_bytes(0) + spec_u64_to_le_bytes(coin_lot_size)
        + spec_u64_to_le_bytes(pc_lot_size) + spec_u16_to_le_bytes(0) + spec_u64_to_le_bytes(
        vault_signer_nonce,
    ) + spec_u64_to_le_bytes(pc_dust_threshold)
}

/// The activation call's arguments always take 39 bytes, and the
/// create-account call's 52 for an owner of 32 bytes.
pub proof fn lemma_data_lengths(a: u64, b: u64, c: u64, d: u64, owner: Seq<u8>)
    requires
        owner.len() == 32,
    ensures
        initialize_market_data(a, b, c, d).len() == 39,
        create_account_data(a, b, owner).len() == 52,
{
    lemma_auto_spec_u16_to_from_le_bytes();
    lemma_auto_spec_u32_to_from_le_bytes();
    lemma_auto_spec_u64_to_from_le_bytes();
}

/// The account that a raw triple of key, signer flag and writable flag names.
pub open spec fn meta_of(raw: ([u8; 32], bool, bool)) -> AccountMeta {
    AccountMeta { pubkey: Address { bytes: raw.0 }, is_signer: raw.1, is_writable: raw.2 }
}

/// The accounts that the activation call names after its fixed ten: each
/// authority that is present, read only, as long as the one before it is
/// present too.
pub open spec fn authority_accounts(
    authority: Option<[u8; 32]>,
    prune_authority: Option<[u8; 32]>,
    consume_events_authority: Option<[u8; 32]>,
) -> Seq<([u8; 32], bool, bool)> {
    match authority {
        None => Seq::empty(),
        Some(first) => seq![(first, false, false)] + (match prune_authority {
            None => Seq::empty(),
            Some(second) => seq![(second, false, false)] + (match consume_events_authority {
                None => Seq::empty(),
                Some(third) => seq![(third, false, false)],
            }),
        }),
    }
}

/// Calls `solana_program::system_instruction::create_account`. Trusted: the
/// instruction addresses the system program, names the payer and then the new
/// account, both signing and writable, and carries the fixed-width
/// little-endian encoding of the call's number, lamports, space and owner.
/// The instruction comes back as its program's key, one triple of key, signer
/// flag and writable flag for each account, and its data.
#[verifier::external_body]
fn system_create_account(
    from: [u8; 32],
    to: [u8; 32],
    lamports: u64,
    space: u64,
    owner: [u8; 32],
) -> (r: ([u8; 32], Vec<([u8; 32], bool, bool)>, Vec<u8>))
    ensures
        r.0 == system_program().bytes,
        r.1@ == seq![(from, true, true), (to, true, true)],
        r.2@ == create_account_data(lamports, space, owner@),
{
    let ix = solana_program::system_instruction::create_account(
        &from.into(),
        &to.into(),
        lamports,
        space,
        &owner.into(),
    );
    let metas = ix.accounts.iter().map(|m| (m.pubkey.to_bytes(), m.is_signer, m.is_writable));
    (ix.program_id.to_bytes(), metas.collect(), ix.data)
}

/// Calls `serum_dex::instruction::initialize_market`. Trusted: it always
/// builds an instruction; the instruction addresses `program`, names the
/// market, request queue, event queue, bids, asks, coin vault and price vault
/// (writable), the two mints and the rent sysvar (read only), then the
/// accounts of `authority_accounts`, and carries the fixed-width
/// little-endian encoding of a zero version byte, the call's number, the lot
/// sizes, a zero fee rate, the nonce and the dust threshold. The instruction
/// comes back as its program's key, one triple of key, signer flag and
/// writable flag for each account, and its data.
#[verifier::external_body]
fn dex_initialize_market(
    market: [u8; 32],
    program: [u8; 32],
    coin_mint: [u8; 32],
    pc_mint: [u8; 32],
    coin_vault: [u8; 32],
    pc_vault: [u8; 32],
    authority: Option<[u8; 32]>,
    prune: Option<[u8; 32]>,
    consume: Option<[u8; 32]>,
    bids: [u8; 32],
    asks: [u8; 32],
    req_q: [u8; 32],
    event_q: [u8; 32],
    coin_lot_size: u64,
    pc_lot_size: u64,
    vault_signer_nonce: u64,
    pc_dust_threshold: u64,
) -> (r: Option<([u8; 32], Vec<([u8; 32], bool, bool)>, Vec<u8>)>)
    ensures
        r is Some,
        r matches Some(parts) ==> {
            &&& parts.0 == program
            &&& parts.1@ == seq![
                (market, false, true),
                (req_q, false, true),
                (event_q, false, true),
                (bids, false, true),
                (asks, false, true),
                (coin_vault, false, true),
                (pc_vault, false, true),
                (coin_mint, false, false),
                (pc_mint, false, false),
                (rent_sysvar().bytes, false, false),
            ] + authority_accounts(authority, prune, consume)
            &&& parts.2@ == initialize_market_data(
                coin_lot_size,
                pc_lot_size,
                vault_signer_nonce,
                pc_dust_threshold,
            )
        },
{
    let ix = serum_dex::instruction::initialize_market(
        &market.into(), &program.into(), &coin_mint.into(), &pc_mint.into(),
        &coin_vault.into(), &pc_vault.into(),
        authority.map(Pubkey::from).as_ref(), prune.map(Pubkey::from).as_ref(),
        consume.map(Pubkey::from).as_ref(),
        &bids.into(), &asks.into(), &req_q.into(), &event_q.into(),
        coin_lot_size, pc_lot_size, vault_signer_nonce, pc_dust_threshold,
    ).ok()?;
    let metas = ix.accounts.iter().map(|m| (m.pubkey.to_bytes(), m.is_signer, m.is_writable));
    Some((ix.program_id.to_bytes(), metas.collect(), ix.data))
}

/// Puts an instruction together from its program's key, the raw triples of
/// its accounts and its data.
fn assemble(program_id: [u8; 32], metas: Vec<([u8; 32], bool, bool)>, data: Vec<u8>) -> (ix:
    Instruction)
    ensures
        ix.program_id.bytes == program_id,
        ix.accounts@.len() == metas@.len(),
        forall|k: int| 0 <= k < metas@.len() ==> ix.accounts@[k] == meta_of(metas@[k]),
        ix.data@ == data@,
{
    let mut accounts: Vec<AccountMeta> = Vec::new();
    let mut i: usize = 0;
    while i < metas.len()
        invariant
            i <= metas.len(),
            accounts@.len() == i,
            forall|k: int| 0 <= k < i ==> accounts@[k] == meta_of(metas@[k]),
        decreases metas.len() - i,
    {
        let raw = metas[i];
        accounts.push(
            AccountMeta { pubkey: Address { bytes: raw.0 }, is_signer: raw.1, is_writable: raw.2 },
        );
        i += 1;
    }
    Instruction { program_id: Address { bytes: program_id }, accounts, data }
}

/// What the activation instruction for these values must be: addressed to
/// `program`, over the ten accounts in their fixed order, with the encoded
/// lot sizes, nonce and dust threshold.
pub open spec fn is_activation_instruction(
    ix: Instruction,
    a: InitializeMarketAccounts,
    program: Address,
    coin_lot_size: u64,
    pc_lot_size: u64,
    vault_signer_nonce: u64,
    pc_dust_threshold: u64,
) -> bool {
    &&& ix.program_id == program
    &&& ix.accounts@ == activation_accounts(a)
    &&& ix.data@ == initialize_market_data(
        coin_lot_size,
        pc_lot_size,
        vault_signer_nonce,
        pc_dust_threshold,
    )
}

/// Turns what the engine's instruction builder handed back into the
/// instruction to issue, or into `InitializeMarketError` where it built none.
pub fn built_or_rejected(built: Option<Instruction>) -> (r: Result<Instruction, ErrorCode>)
    ensures
        match built {
            Some(ix) => r == Ok::<Instruction, ErrorCode>(ix),
            None => r == Err::<Instruction, ErrorCode>(ErrorCode::InitializeMarketError),
        },
{
    match built {
        Some(ix) => Ok(ix),
        None => Err(ErrorCode::InitializeMarketError),
    }
}

/// What the instruction that creates an account must be: addressed to the
/// system program, naming the payer and then the new account, both signing
/// and writable, with the encoded balance, size and owner.
pub open spec fn is_create_account_instruction(
    ix: Instruction,
    payer: Address,
    target: Address,
    lamports: u64,
    space: u64,
    owner: Address,
) -> bool {
    &&& ix.program_id == system_program()
    &&& ix.accounts@ == seq![signing(payer), signing(target)]
    &&& ix.data@ == create_account_data(lamports, space, owner@)
}

/// The system-program instruction that creates `target` with `space` bytes
/// and `lamports` of balance, paid by `payer` and owned by `owner`.
pub fn create_account_instruction(
    payer: &Address,
    target: &Address,
    lamports: u64,
    space: u64,
    owner: &Address,
) -> (ix: Instruction)
    ensures
        is_create_account_instruction(ix, *payer, *target, lamports, space, *owner),
{
    let parts = system_create_account(payer.bytes, target.bytes, lamports, space, owner.bytes);
    let ix = assemble(parts.0, parts.1, parts.2);
    assert(ix.accounts@ =~= seq![signing(*payer), signing(*target)]);
    ix
}

/// The matching engine's activation instruction for a market, built with
/// no open-orders, prune or consume-events authority.
pub fn initialize_market_instruction(
    accounts: &InitializeMarketAccounts,
    program: &Address,
    coin_lot_size: u64,
    pc_lot_size: u64,
    vault_signer_nonce: u64,
    pc_dust_threshold: u64,
) -> (r: Result<Instruction, ErrorCode>)
    ensures
        r matches Ok(ix) && is_activation_instruction(
            ix,
            *accounts,
            *program,
            coin_lot_size,
            pc_lot_size,
            vault_signer_nonce,
            pc_dust_threshold,
        ),
{
    let built = dex_initialize_market(
        accounts.market_state.bytes,
        program.bytes,
        accounts.coin_mint.bytes,
        accounts.price_mint.bytes,
        accounts.coin_wallet.bytes,
        accounts.price_wallet.bytes,
        None,
        None,
        None,
        accounts.bids.bytes,
        accounts.asks.bytes,
        accounts.request_queue.bytes,
        accounts.event_queue.bytes,
        coin_lot_size,
        pc_lot_size,
        vault_signer_nonce,
        pc_dust_threshold,
    );
    match built {
        Some(parts) => {
            let ix = assemble(parts.0, parts.1, parts.2);
            assert(ix.accounts@ =~= activation_accounts(*accounts));
            built_or_rejected(Some(ix))
        },
        None => built_or_rejected(None),
    }
}

} // verus!
