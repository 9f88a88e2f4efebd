use vstd::prelude::*;
use crate::address::{Address, lemma_address_by_bytes};
use crate::error::ErrorCode;
use solana_program::pubkey::Pubkey;

verus! {

/// Largest nonce that the search tries.
pub const MAX_NONCE: u64 = 255;

/// The matching engine's vault-signer derivation for one nonce: the bytes of
/// the derived address, or `None` where the scheme yields no address.
pub uninterp spec fn vault_signer_key(nonce: u64, market: Seq<u8>, program: Seq<u8>) -> Option<Seq<u8>>;

/// Calls `serum_dex::state::gen_vault_signer_key`. Trusted: the outcome is
/// the engine's derivation for these three values, and a failed derivation
/// is reported as `None`. The engine seeds the derivation with the nonce's
/// bytes as the machine holds them; it builds for little-endian targets only.
#[verifier::external_body]
fn gen_vault_signer_key(nonce: u64, market: &Address, program: &Address) -> (r: Option<Address>)
    ensures
        match r {
            Some(a) => vault_signer_key(nonce, market@, program@) == Some(a@),
            None => vault_signer_key(nonce, market@, program@) is None,
        },
{
    let market_pk = Pubkey::new_from_array(market.bytes);
    let program_pk = Pubkey::new_from_array(program.bytes);
    match serum_dex::state::gen_vault_signer_key(nonce, &market_pk, &program_pk) {
        Ok(pk) => Some(Address { bytes: pk.to_bytes() }),
        Err(_) => None,
    }
}

/// What the search over candidate outcomes must return: the first candidate
/// that succeeded together with its position, or `NonceNotFound` when none did.
pub open spec fn is_first_success(
    candidates: Seq<Option<Address>>,
    r: Result<(Address, u64), ErrorCode>,
) -> bool {
    match r {
        Ok((address, nonce)) => {
            &&& nonce < candidates.len()
            &&& candidates[nonce as int] == Some(address)
            &&& forall|k: int| 0 <= k < nonce ==> candidates[k] is None
        },
        Err(e) => {
            &&& e == ErrorCode::NonceNotFound
            &&& forall|k: int| 0 <= k < candidates.len() ==> candidates[k] is None
        },
    }
}

/// What the vault-signer search must return for a market and a program: the
/// address derived at the smallest nonce in `0..=255` whose derivation
/// succeeds, or `NonceNotFound` when all 256 fail.
pub open spec fn is_vault_signer(
    market: Seq<u8>,
    program: Seq<u8>,
    r: Result<(Address, u64), ErrorCode>,
) -> bool {
    match r {
        Ok((address, nonce)) => {
            &&& nonce <= MAX_NONCE
            &&& vault_signer_key(nonce, market, program) == Some(address@)
            &&& forall|k: u64| k < nonce ==> vault_signer_key(k, market, program) is None
        },
        Err(e) => {
            &&& e == ErrorCode::NonceNotFound
            &&& forall|k: u64| k <= MAX_NONCE ==> vault_signer_key(k, market, program) is None
        },
    }
}

/// Picks the first successful candidate from per-nonce derivation outcomes,
/// given in ascending nonce order.
pub fn first_success(candidates: &Vec<Option<Address>>) -> (r: Result<(Address, u64), ErrorCode>)
    ensures
        is_first_success(candidates@, r),
{
    let mut i: usize = 0;
    while i < candidates.len()
        invariant
            i <= candidates.len(),
            forall|k: int| 0 <= k < i ==> candidates[k] is None,
        decreases candidates.len() - i,
    {
        match candidates[i] {
            Some(address) => {
                return Ok((address, i as u64));
            },
            None => {},
        }
        i += 1;
    }
    Err(ErrorCode::NonceNotFound)
}

/// Searches nonces `0..=255` in ascending order for the vault signer of
/// `market` under `program`.
pub fn derive_vault_signer(market: &Address, program: &Address) -> (r: Result<(Address, u64), ErrorCode>)
    ensures
        is_vault_signer(market@, program@, r),
{
    let mut nonce: u64 = 0;
    while nonce <= MAX_NONCE
        invariant
            nonce <= MAX_NONCE + 1,
            forall|k: u64| k < nonce ==> vault_signer_key(k, market@, program@) is None,
        decreases MAX_NONCE + 1 - nonce,
    {
        match gen_vault_signer_key(nonce, market, program) {
            Some(address) => {
                return Ok((address, nonce));
            },
            None => {},
        }
        nonce += 1;
    }
    Err(ErrorCode::NonceNotFound)
}

/// Searching a list that holds the derivation's outcome for each nonce of
/// `0..=255` in turn is the vault-signer search: what `first_success` may
/// return for such a list is what the search over the nonces must return.
pub proof fn lemma_candidates_agree(
    market: Seq<u8>,
    program: Seq<u8>,
    candidates: Seq<Option<Address>>,
    r: Result<(Address, u64), ErrorCode>,
)
    requires
        candidates.len() == MAX_NONCE + 1,
        forall|k: u64|
            k <= MAX_NONCE ==> (match #[trigger] vault_signer_key(k, market, program) {
                Some(bytes) => candidates[k as int] matches Some(a) && a@ == bytes,
                None => candidates[k as int] is None,
            }),
        is_first_success(candidates, r),
    ensures
        is_vault_signer(market, program, r),
{
    match r {
        Ok((address, nonce)) => {
            assert(vault_signer_key(nonce, market, program) is Some);
            assert forall|k: u64| k < nonce implies vault_signer_key(k, market, program) is None by {
                assert(candidates[k as int] is None);
            }
        },
        Err(_) => {
            assert forall|k: u64| k <= MAX_NONCE implies vault_signer_key(k, market, program) is None by {
                assert(candidates[k as int] is None);
            }
        },
    }
}

/// The vault signer of a market is unique: any two results that the search
/// may return for the same market and program are equal.
pub proof fn lemma_vault_signer_deterministic(
    market: Seq<u8>,
    program: Seq<u8>,
    a: Result<(Address, u64), ErrorCode>,
    b: Result<(Address, u64), ErrorCode>,
)
    requires
        is_vault_signer(market, program, a),
        is_vault_signer(market, program, b),
    ensures
        a == b,
{
    match (a, b) {
        (Ok((x, m)), Ok((y, n))) => {
            if m < n {
                assert(vault_signer_key(m, market, program) is None);
            }
            if n < m {
                assert(vault_signer_key(n, market, program) is None);
            }
            assert(m == n);
            lemma_address_by_bytes(x, y);
        },
        (Ok((x, m)), Err(_)) => {
            assert(vault_signer_key(m, market, program) is None);
        },
        (Err(_), Ok((y, n))) => {
            assert(vault_signer_key(n, market, program) is None);
        },
        (Err(_), Err(_)) => {},
    }
}

} // verus!
