use vstd::prelude::*;

verus! {

/// Why a market bootstrap was abandoned.
#[derive(Clone, Copy, Debug, PartialEq, Eq, Structural)]
pub enum ErrorCode {
    /// Coin and price mints are the same address.
    MatchingMints,
    /// The matching engine refused the activation.
    InitializeMarketError,
    /// Data was borrowed from an immutable account.
    ImmutableDataBorrow,
    /// No nonce in the search range gives a vault signer.
    NonceNotFound,
    /// A storage-creation request failed.
    AllocationError,
    /// A step of provisioning a vault failed.
    VaultError,
}

impl ErrorCode {
    pub open spec fn message_text(self) -> Seq<char> {
        match self {
            ErrorCode::MatchingMints => "Coin and price mints shouldn't match"@,
            ErrorCode::InitializeMarketError => "Initialize market error"@,
            ErrorCode::ImmutableDataBorrow => "Borrowing data from immutable account"@,
            ErrorCode::NonceNotFound => "No valid nonces were found"@,
            ErrorCode::AllocationError => "Account allocation error"@,
            ErrorCode::VaultError => "Vault provisioning error"@,
        }
    }

    /// The text shown to a user for this error.
    pub fn message(&self) -> (s: &'static str)
        ensures
            s@ == self.message_text(),
    {
        match self {
            ErrorCode::MatchingMints => "Coin and price mints shouldn't match",
            ErrorCode::InitializeMarketError => "Initialize market error",
            ErrorCode::ImmutableDataBorrow => "Borrowing data from immutable account",
            ErrorCode::NonceNotFound => "No valid nonces were found",
            ErrorCode::AllocationError => "Account allocation error",
            ErrorCode::VaultError => "Vault provisioning error",
        }
    }
}

} // verus!
