//! Keccak-256, and the selectors that the contract's functions and errors
//! are called by.

use vstd::prelude::*;
use vstd::string::*;
use vstd::utf8::*;

verus! {

/// The Keccak-256 digest of a byte string.
pub uninterp spec fn keccak256_digest(bytes: Seq<u8>) -> Seq<u8>;

/// `ethers::utils::keccak256`: the Keccak-256 digest of the bytes, which has
/// 32 bytes.
#[verifier::external_body]
pub(crate) fn keccak256(bytes: &[u8]) -> (digest: [u8; 32])
    ensures
        digest@ == keccak256_digest(bytes@),
{
    ethers::utils::keccak256(bytes)
}

/// The selector of a function or an error of the contract: the first four
/// bytes of the digest of its signature.
pub open spec fn selector(signature: Seq<char>) -> Seq<u8> {
    keccak256_digest(encode_utf8(signature)).subrange(0, 4)
}

/// Computes the selector of a signature.
pub fn selector_of(signature: &str) -> (r: [u8; 4])
    ensures
        r@ == selector(signature@),
{
    let digest = keccak256(signature.as_bytes());
    let r = [digest[0], digest[1], digest[2], digest[3]];
    assert(r@ =~= digest@.subrange(0, 4));
    r
}

} // verus!
