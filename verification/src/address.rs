//! Ledger account addresses, and the two computations on them that are left
//! to the ledger's own libraries: decoding the textual form of an address and
//! deriving a validator's transient stake address. Neither is owed for every
//! input: a text may be no address, and the search for a transient address
//! may come up empty.

use solana_program::pubkey::{ParsePubkeyError, Pubkey};
use vstd::prelude::*;

verus! {

/// Number of bytes in an account address.
pub const ADDRESS_LEN: usize = 32;

/// An opaque account identifier: thirty-two bytes.
#[derive(Clone, Copy, Debug, PartialEq, Eq, Hash)]
pub struct Address {
    pub bytes: [u8; 32],
}

impl View for Address {
    type V = Seq<u8>;

    open spec fn view(&self) -> Seq<u8> {
        self.bytes@
    }
}

/// The bytes that the base-58 text `text` decodes to as an account address,
/// or `None` where the text is not the encoding of any address.
pub uninterp spec fn decoded_address(text: Seq<char>) -> Option<Seq<u8>>;

/// The transient stake address that the stake-pool program assigns to the
/// validator with vote account `vote` in the pool at address `pool`, or
/// `None` where the search for such an address finds none.
pub uninterp spec fn transient_stake_address_of(vote: Seq<u8>, pool: Seq<u8>) -> Option<Seq<u8>>;

/// The view of an optional address.
pub open spec fn address_bytes(a: Option<Address>) -> Option<Seq<u8>> {
    match a {
        Some(a) => Some(a@),
        None => None,
    }
}

/// Two addresses are the same value exactly when their bytes agree.
pub proof fn lemma_address_view_injective(a: Address, b: Address)
    ensures
        a@ == b@ <==> a == b,
        a@.len() == ADDRESS_LEN,
{
    if a@ == b@ {
        assert(a.bytes =~= b.bytes);
    }
}

/// The address whose bytes are `bytes`; meaningful where `bytes` has the
/// length of an address.
pub open spec fn address_with_bytes(bytes: Seq<u8>) -> Address {
    choose|a: Address| a@ == bytes
}

/// `address_with_bytes` gives back the address that the bytes came from.
pub proof fn lemma_address_with_bytes(a: Address)
    ensures
        address_with_bytes(a@) == a,
{
    lemma_address_view_injective(address_with_bytes(a@), a);
}

impl Address {
    /// Wraps thirty-two raw bytes.
    pub fn from_bytes(bytes: [u8; 32]) -> (r: Address)
        ensures
            r.bytes == bytes,
            r@ == bytes@,
    {
        Address { bytes }
    }

    /// Byte-wise comparison.
    pub fn same_as(&self, other: &Address) -> (r: bool)
        ensures
            r == (self@ == other@),
            r == (*self == *other),
    {
        let mut i: usize = 0;
        while i < 32
            invariant
                i <= 32,
                forall|j: int| 0 <= j < i ==> self.bytes[j] == other.bytes[j],
            decreases 32 - i,
        {
            if self.bytes[i] != other.bytes[i] {
                return false;
            }
            i += 1;
        }
        proof {
            assert(self.bytes@ =~= other.bytes@);
            lemma_address_view_injective(*self, *other);
        }
        true
    }
}

/// Calls `solana_program`'s `FromStr::from_str` for `Pubkey`, which accepts a
/// text of at most 44 characters that is the base-58 encoding of exactly 32
/// bytes. The contract only names the outcome: it is the function
/// `decoded_address` of the text, with the decoded key's bytes on success and
/// nothing on either of the two parse errors.
#[verifier::external_body]
pub(crate) fn decode_address(text: &str) -> (r: Option<Address>)
    ensures
        address_bytes(r) == decoded_address(text@),
{
    let decoded: Result<Pubkey, ParsePubkeyError> = std::str::FromStr::from_str(text);
    match decoded {
        Ok(key) => Some(Address { bytes: key.to_bytes() }),
        Err(_) => None,
    }
}

/// Calls `Pubkey::try_find_program_address` of `solana_program` with the
/// stake-pool program's id (`spl_stake_pool::id()`) and the three seeds that
/// `spl_stake_pool::find_transient_stake_program_address` passes on: the
/// text `transient`, the vote account's bytes and the pool's bytes. The
/// search hashes the seeds with one bump seed after another and returns the
/// first result that is no point on the curve, or nothing when all 255 bump
/// seeds are used up; with seeds of these lengths it has no other way out.
/// The contract only names the outcome: it is the function
/// `transient_stake_address_of` of the two addresses.
#[verifier::external_body]
pub(crate) fn derive_transient_stake_address(vote: &Address, pool: &Address) -> (r: Option<Address>)
    ensures
        address_bytes(r) == transient_stake_address_of(vote@, pool@),
{
    let seeds: [&[u8]; 3] = [b"transient", &vote.bytes, &pool.bytes];
    match Pubkey::try_find_program_address(&seeds, &spl_stake_pool::id()) {
        Some((key, _)) => Some(Address { bytes: key.to_bytes() }),
        None => None,
    }
}

} // verus!
