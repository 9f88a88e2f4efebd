use vstd::prelude::*;

verus! {

/// A 32-byte on-chain address.
#[derive(Clone, Copy, Debug, Eq, Hash)]
pub struct Address {
    pub bytes: [u8; 32],
}

impl View for Address {
    type V = Seq<u8>;

    open spec fn view(&self) -> Seq<u8> {
        self.bytes@
    }
}

/// Two addresses with the same bytes are the same address.
pub proof fn lemma_address_by_bytes(a: Address, b: Address)
    requires
        a@ == b@,
    ensures
        a == b,
{
    assert forall|i: int| 0 <= i < 32 implies a.bytes[i] == b.bytes[i] by {
        assert(a.bytes[i] == a@[i]);
        assert(b.bytes[i] == b@[i]);
    }
    assert(a.bytes =~= b.bytes);
}

impl Address {
    pub fn new(bytes: [u8; 32]) -> (a: Address)
        ensures
            a.bytes == bytes,
            a@ == bytes@,
    {
        Address { bytes }
    }

    pub fn to_bytes(&self) -> (bytes: [u8; 32])
        ensures
            bytes == self.bytes,
    {
        self.bytes
    }

    /// Byte-for-byte comparison.
    pub fn same(&self, other: &Address) -> (r: bool)
        ensures
            r == (*self == *other),
    {
        let mut i: usize = 0;
        while i < 32
            invariant
                i <= 32,
                forall|k: int| 0 <= k < i ==> self.bytes[k] == other.bytes[k],
            decreases 32 - i,
        {
            if self.bytes[i] != other.bytes[i] {
                return false;
            }
            i += 1;
        }
        proof {
            assert(self@ =~= other@);
            lemma_address_by_bytes(*self, *other);
        }
        true
    }
}

impl PartialEq for Address {
    fn eq(&self, other: &Address) -> (r: bool) {
        self.same(other)
    }
}

impl vstd::std_specs::cmp::PartialEqSpecImpl for Address {
    open spec fn obeys_eq_spec() -> bool {
        true
    }

    open spec fn eq_spec(&self, other: &Address) -> bool {
        *self == *other
    }
}

/// Address of the system program: all zero.
pub open spec fn system_program() -> Address {
    Address {
        bytes: [
            0u8, 0u8, 0u8, 0u8, 0u8, 0u8, 0u8, 0u8,
            0u8, 0u8, 0u8, 0u8, 0u8, 0u8, 0u8, 0u8,
            0u8, 0u8, 0u8, 0u8, 0u8, 0u8, 0u8, 0u8,
            0u8, 0u8, 0u8, 0u8, 0u8, 0u8, 0u8, 0u8,
        ],
    }
}

/// Address of the rent sysvar.
pub open spec fn rent_sysvar() -> Address {
    Address {
        bytes: [
            6u8, 167u8, 213u8, 23u8, 25u8, 44u8, 92u8, 81u8,
            33u8, 140u8, 201u8, 76u8, 61u8, 74u8, 241u8, 127u8,
            88u8, 218u8, 238u8, 8u8, 155u8, 161u8, 253u8, 68u8,
            227u8, 219u8, 217u8, 138u8, 0u8, 0u8, 0u8, 0u8,
        ],
    }
}

/// Address of the token program, which owns every vault.
pub open spec fn token_program() -> Address {
    Address {
        bytes: [
            6u8, 221u8, 246u8, 225u8, 215u8, 101u8, 161u8, 147u8,
            217u8, 203u8, 225u8, 70u8, 206u8, 235u8, 121u8, 172u8,
            28u8, 180u8, 133u8, 237u8, 95u8, 91u8, 55u8, 145u8,
            58u8, 140u8, 245u8, 133u8, 126u8, 255u8, 0u8, 169u8,
        ],
    }
}

/// The token program, which owns every vault.
pub fn token_program_id() -> (a: Address)
    ensures
        a == token_program(),
{
    Address {
        bytes: [
            6, 221, 246, 225, 215, 101, 161, 147, 217, 203, 225, 70, 206, 235, 121, 172,
            28, 180, 133, 237, 95, 91, 55, 145, 58, 140, 245, 133, 126, 255, 0, 169,
        ],
    }
}

} // verus!
