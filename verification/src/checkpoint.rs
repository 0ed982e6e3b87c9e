//! The checkpoint of a validator set: the bytes that the validators sign,
//! and their digest, as the contract computes them anew.

use crate::hash::{keccak256, keccak256_digest};
use vstd::prelude::*;
use vstd::string::*;
use vstd::utf8::*;

verus! {

broadcast use vstd::slice::group_slice_axioms;

/// A validator: its account on the contract's chain and its voting power.
#[derive(Clone, Copy, Debug, PartialEq, Eq)]
pub struct ValidatorSetEntry {
    /// The 20 bytes of the account.
    pub address: [u8; 20],
    /// The voting power.
    pub power: u64,
}

/// One version of the validator set. The order of the entries counts.
#[derive(Clone, Debug, PartialEq, Eq)]
pub struct ValidatorSet {
    /// The version of the set.
    pub nonce: u64,
    /// The validators, and between them entries that only fill a place.
    pub entries: Vec<ValidatorSetEntry>,
}

impl ValidatorSetEntry {
    /// Whether the entry only fills a place: its address is all zero.
    pub open spec fn is_placeholder(self) -> bool {
        forall|i: int| 0 <= i < 20 ==> self.address@[i] == 0
    }

    /// Tells whether the entry only fills a place.
    pub fn is_empty(&self) -> (b: bool)
        ensures
            b == self.is_placeholder(),
    {
        let mut i: usize = 0;
        while i < 20
            invariant
                i <= 20,
                forall|k: int| 0 <= k < i ==> self.address@[k] == 0,
            decreases 20 - i,
        {
            if self.address[i] != 0 {
                return false;
            }
            i = i + 1;
        }
        true
    }
}

/// The entries that stand for a validator, in their order.
pub open spec fn real_entries(entries: Seq<ValidatorSetEntry>) -> Seq<ValidatorSetEntry>
    decreases entries.len(),
{
    if entries.len() == 0 {
        Seq::empty()
    } else if entries.last().is_placeholder() {
        real_entries(entries.drop_last())
    } else {
        real_entries(entries.drop_last()).push(entries.last())
    }
}

/// The addresses of entries, in their order.
pub open spec fn addresses_of(entries: Seq<ValidatorSetEntry>) -> Seq<Seq<u8>> {
    Seq::new(entries.len(), |i: int| entries[i].address@)
}

/// The powers of entries, in their order.
pub open spec fn powers_of(entries: Seq<ValidatorSetEntry>) -> Seq<u64> {
    Seq::new(entries.len(), |i: int| entries[i].power)
}

/// The tag that marks the signed bytes as a checkpoint.
pub open spec fn checkpoint_tag() -> Seq<u8> {
    encode_utf8("checkpoint"@)
}

/// The ABI encoding of a checkpoint's five fields: the bridge identifier
/// and the tag as fixed bytes, the nonce as an unsigned integer, the
/// addresses as an array of addresses and the powers as an array of unsigned
/// integers.
pub uninterp spec fn abi_encoded_checkpoint(
    domain: Seq<u8>,
    method: Seq<u8>,
    nonce: u64,
    addresses: Seq<Seq<u8>>,
    powers: Seq<u64>,
) -> Seq<u8>;

/// The number of 32-byte words that the encoding of a checkpoint takes: the
/// words of the two fixed byte strings, the nonce, an offset and a length
/// for each array, and a word for each item.
pub open spec fn encoded_words(
    domain_len: nat,
    method_len: nat,
    address_count: nat,
    power_count: nat,
) -> nat {
    (domain_len + 31) / 32 + (method_len + 31) / 32 + 5 + address_count + power_count
}

/// `ethers::abi::encode` on the five tokens of a checkpoint: fixed bytes,
/// fixed bytes, an unsigned integer, an array of addresses and an array of
/// unsigned integers. The encoder counts bytes in 32 bits, so the encoding
/// has to stay below that.
#[verifier::external_body]
fn abi_encode_checkpoint(
    domain: &[u8],
    method: &[u8],
    nonce: u64,
    addresses: &Vec<[u8; 20]>,
    powers: &Vec<u64>,
) -> (out: Vec<u8>)
    requires
        32 * encoded_words(domain@.len(), method@.len(), addresses@.len(), powers@.len())
            <= u32::MAX,
    ensures
        out@ == abi_encoded_checkpoint(
            domain@,
            method@,
            nonce,
            Seq::new(addresses@.len(), |i: int| addresses@[i]@),
            powers@,
        ),
{
    let addresses = addresses.iter().map(|a| ethers::abi::Token::Address((*a).into())).collect();
    let powers = powers.iter().map(|p| ethers::abi::Token::Uint((*p).into())).collect();
    ethers::abi::encode(
        &[
            ethers::abi::Token::FixedBytes(domain.to_vec()),
            ethers::abi::Token::FixedBytes(method.to_vec()),
            ethers::abi::Token::Uint(nonce.into()),
            ethers::abi::Token::Array(addresses),
            ethers::abi::Token::Array(powers),
        ],
    )
}

/// The bytes that the validators sign for a set: the encoding of the bridge
/// identifier, the checkpoint tag, the nonce, and the addresses and powers
/// of the entries that stand for a validator.
pub open spec fn checkpoint_encoding(
    entries: Seq<ValidatorSetEntry>,
    nonce: u64,
    domain_id: Seq<char>,
) -> Seq<u8> {
    abi_encoded_checkpoint(
        encode_utf8(domain_id),
        checkpoint_tag(),
        nonce,
        addresses_of(real_entries(entries)),
        powers_of(real_entries(entries)),
    )
}

/// The digest of the bytes that the validators sign for a set.
pub open spec fn checkpoint_digest(
    entries: Seq<ValidatorSetEntry>,
    nonce: u64,
    domain_id: Seq<char>,
) -> Seq<u8> {
    keccak256_digest(checkpoint_encoding(entries, nonce, domain_id))
}

/// Whether the checkpoint of a set can be encoded: its encoding takes fewer
/// than 2 to the power 32 bytes.
pub open spec fn checkpoint_fits(entries: Seq<ValidatorSetEntry>, domain_id: Seq<char>) -> bool {
    32 * encoded_words(
        encode_utf8(domain_id).len(),
        checkpoint_tag().len(),
        real_entries(entries).len(),
        real_entries(entries).len(),
    ) <= u32::MAX
}

impl ValidatorSet {
    /// The set without the entries that only fill a place. The others keep
    /// their order.
    pub fn without_placeholders(&self) -> (r: ValidatorSet)
        ensures
            r.nonce == self.nonce,
            r.entries@ == real_entries(self.entries@),
    {
        let mut kept: Vec<ValidatorSetEntry> = Vec::new();
        let mut i: usize = 0;
        while i < self.entries.len()
            invariant
                i <= self.entries@.len(),
                kept@ == real_entries(self.entries@.subrange(0, i as int)),
            decreases self.entries@.len() - i,
        {
            let entry = self.entries[i];
            proof {
                let before = self.entries@.subrange(0, i as int);
                let after = self.entries@.subrange(0, i + 1);
                assert(after.drop_last() =~= before);
                assert(after.last() == entry);
            }
            if !entry.is_empty() {
                kept.push(entry);
            }
            i = i + 1;
        }
        assert(self.entries@.subrange(0, i as int) =~= self.entries@);
        ValidatorSet { nonce: self.nonce, entries: kept }
    }

    /// The addresses and the powers of the entries that stand for a
    /// validator, as two lists in the order of the set.
    pub fn filter_empty_addresses(&self) -> (r: (Vec<[u8; 20]>, Vec<u64>))
        ensures
            Seq::new(r.0@.len(), |i: int| r.0@[i]@) == addresses_of(real_entries(self.entries@)),
            r.1@ == powers_of(real_entries(self.entries@)),
    {
        let members = self.without_placeholders();
        let mut addresses: Vec<[u8; 20]> = Vec::new();
        let mut powers: Vec<u64> = Vec::new();
        let mut i: usize = 0;
        while i < members.entries.len()
            invariant
                i <= members.entries@.len(),
                addresses@.len() == i,
                powers@.len() == i,
                forall|k: int| 0 <= k < i ==> addresses@[k] == members.entries@[k].address,
                forall|k: int| 0 <= k < i ==> powers@[k] == members.entries@[k].power,
            decreases members.entries@.len() - i,
        {
            addresses.push(members.entries[i].address);
            powers.push(members.entries[i].power);
            i = i + 1;
        }
        assert(Seq::new(addresses@.len(), |i: int| addresses@[i]@) =~= addresses_of(
            members.entries@,
        ));
        assert(powers@ =~= powers_of(members.entries@));
        (addresses, powers)
    }
}

/// Tells whether the checkpoint of a set can be encoded.
pub fn fits(valset: &ValidatorSet, domain_id: &str) -> (b: bool)
    ensures
        b == checkpoint_fits(valset.entries@, domain_id@),
{
    let members = valset.without_placeholders();
    let domain_len = domain_id.as_bytes().len() as u128;
    let method_len = "checkpoint".as_bytes().len() as u128;
    let count = members.entries.len() as u128;
    32 * ((domain_len + 31) / 32 + (method_len + 31) / 32 + 5 + count + count) <= u32::MAX as u128
}

/// Encodes the checkpoint of a validator set: the bytes that the validators
/// sign. Entries that only fill a place are left out first; the others keep
/// their order. The result depends on the set and the identifier alone.
pub fn encode(valset: &ValidatorSet, domain_id: &str) -> (out: Vec<u8>)
    requires
        checkpoint_fits(valset.entries@, domain_id@),
    ensures
        out@ == checkpoint_encoding(valset.entries@, valset.nonce, domain_id@),
{
    let (addresses, powers) = valset.filter_empty_addresses();
    assert(addresses@.len() == addresses_of(real_entries(valset.entries@)).len());
    abi_encode_checkpoint(
        domain_id.as_bytes(),
        "checkpoint".as_bytes(),
        valset.nonce,
        &addresses,
        &powers,
    )
}

/// Computes the digest of a validator set's checkpoint: the Keccak-256
/// digest of its encoding, 32 bytes.
pub fn hash(valset: &ValidatorSet, domain_id: &str) -> (digest: [u8; 32])
    requires
        checkpoint_fits(valset.entries@, domain_id@),
    ensures
        digest@ == checkpoint_digest(valset.entries@, valset.nonce, domain_id@),
        digest@.len() == 32,
{
    let encoded = encode(valset, domain_id);
    keccak256(encoded.as_slice())
}

/// The real entries are the entries filtered by not being a placeholder.
pub proof fn lemma_real_entries_is_filter(entries: Seq<ValidatorSetEntry>)
    ensures
        real_entries(entries) == entries.filter(|e: ValidatorSetEntry| !e.is_placeholder()),
    decreases entries.len(),
{
    reveal(Seq::filter);
    if entries.len() > 0 {
        lemma_real_entries_is_filter(entries.drop_last());
    }
}

/// No entry among the real entries only fills a place.
pub proof fn lemma_real_entries_are_real(entries: Seq<ValidatorSetEntry>)
    ensures
        forall|i: int|
            0 <= i < real_entries(entries).len() ==> !(#[trigger] real_entries(
                entries,
            )[i]).is_placeholder(),
    decreases entries.len(),
{
    if entries.len() > 0 {
        lemma_real_entries_are_real(entries.drop_last());
        let rest = real_entries(entries.drop_last());
        assert forall|i: int| 0 <= i < real_entries(entries).len() implies !(
        #[trigger] real_entries(entries)[i]).is_placeholder() by {
            if i < rest.len() {
                assert(real_entries(entries)[i] == rest[i]);
            } else {
                assert(real_entries(entries)[i] == entries.last());
            }
        }
    }
}

/// Entries of which none only fills a place are all real.
pub proof fn lemma_all_real(entries: Seq<ValidatorSetEntry>)
    requires
        forall|i: int| 0 <= i < entries.len() ==> !(#[trigger] entries[i]).is_placeholder(),
    ensures
        real_entries(entries) == entries,
    decreases entries.len(),
{
    if entries.len() > 0 {
        lemma_all_real(entries.drop_last());
        assert(entries.drop_last().push(entries.last()) =~= entries);
    }
}

/// The encoding of a set with entries that only fill a place between the
/// others is the encoding of the set without them: the checkpoint is that
/// of the real entries in their order.
pub proof fn lemma_encoding_ignores_placeholders(
    entries: Seq<ValidatorSetEntry>,
    nonce: u64,
    domain_id: Seq<char>,
)
    ensures
        real_entries(real_entries(entries)) == real_entries(entries),
        checkpoint_encoding(entries, nonce, domain_id) == checkpoint_encoding(
            real_entries(entries),
            nonce,
            domain_id,
        ),
        checkpoint_digest(entries, nonce, domain_id) == checkpoint_digest(
            real_entries(entries),
            nonce,
            domain_id,
        ),
        checkpoint_fits(entries, domain_id) == checkpoint_fits(real_entries(entries), domain_id),
{
    lemma_real_entries_are_real(entries);
    lemma_all_real(real_entries(entries));
}

/// A placeholder put anywhere into a set changes neither its real entries
/// nor its checkpoint.
pub proof fn lemma_placeholder_inserted(
    entries: Seq<ValidatorSetEntry>,
    at: int,
    placeholder: ValidatorSetEntry,
    nonce: u64,
    domain_id: Seq<char>,
)
    requires
        0 <= at <= entries.len(),
        placeholder.is_placeholder(),
    ensures
        real_entries(entries.insert(at, placeholder)) == real_entries(entries),
        checkpoint_encoding(entries.insert(at, placeholder), nonce, domain_id)
            == checkpoint_encoding(entries, nonce, domain_id),
    decreases entries.len() - at,
{
    let longer = entries.insert(at, placeholder);
    if at == entries.len() {
        assert(longer.drop_last() =~= entries);
        assert(longer.last() == placeholder);
    } else {
        assert(longer.drop_last() =~= entries.drop_last().insert(at, placeholder));
        assert(longer.last() == entries.last());
        lemma_placeholder_inserted(entries.drop_last(), at, placeholder, nonce, domain_id);
    }
}

/// The checkpoint depends on nothing but the set and the identifier: sets
/// with the same nonce and the same entries give the same bytes and the same
/// digest under the same identifier.
pub proof fn lemma_checkpoint_deterministic(
    first: ValidatorSet,
    second: ValidatorSet,
    domain_id: Seq<char>,
)
    requires
        first.nonce == second.nonce,
        first.entries@ == second.entries@,
    ensures
        checkpoint_encoding(first.entries@, first.nonce, domain_id) == checkpoint_encoding(
            second.entries@,
            second.nonce,
            domain_id,
        ),
        checkpoint_digest(first.entries@, first.nonce, domain_id) == checkpoint_digest(
            second.entries@,
            second.nonce,
            domain_id,
        ),
{
}

} // verus!
