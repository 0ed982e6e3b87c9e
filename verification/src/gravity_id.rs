//! The bridge identifier, held by the contract and by the counterpart chain.

use crate::error::GravityError;
use crate::hash::{selector, selector_of};
use vstd::prelude::*;
use vstd::string::*;
use vstd::utf8::*;

verus! {

/// The parameters of the counterpart chain, as far as the bridge reads them.
#[derive(Clone, Debug, PartialEq, Eq)]
pub struct ChainParams {
    /// The bridge identifier that the chain is configured with, unpadded.
    pub gravity_id: String,
}

/// A text without the NUL characters at its end.
pub open spec fn trim_trailing_nul(text: Seq<char>) -> Seq<char>
    decreases text.len(),
{
    if text.len() > 0 && text.last() == '\0' {
        trim_trailing_nul(text.drop_last())
    } else {
        text
    }
}

/// The identifier that the contract's bytes stand for: their text without
/// the NUL padding at its end.
pub open spec fn contract_id_text(raw: Seq<u8>) -> Seq<char> {
    trim_trailing_nul(decode_utf8(raw))
}

/// The payload of the call that reads the contract's bridge identifier:
/// the selector of the function, which takes no arguments.
pub open spec fn gravity_id_payload() -> Seq<u8> {
    selector("state_gravityId()"@)
}

/// Builds the payload of the call that reads the contract's bridge
/// identifier.
pub fn gravity_id_call_payload() -> (out: Vec<u8>)
    ensures
        out@ == gravity_id_payload(),
{
    let chosen = selector_of("state_gravityId()");
    let mut out: Vec<u8> = Vec::new();
    out.push(chosen[0]);
    out.push(chosen[1]);
    out.push(chosen[2]);
    out.push(chosen[3]);
    assert(out@ =~= chosen@);
    out
}

/// `std::str::from_utf8`: the bytes as text where they are valid UTF-8, and
/// nothing where they are not.
#[verifier::external_body]
fn str_from_utf8(bytes: &[u8]) -> (r: Option<&str>)
    ensures
        r is Some <==> valid_utf8(bytes@),
        r is Some ==> r->0@ == decode_utf8(bytes@),
{
    std::str::from_utf8(bytes).ok()
}

/// Trimming what is already trimmed up to `end` gives the same as trimming
/// the whole, as long as only NUL characters follow `end`.
proof fn lemma_trim_prefix(text: Seq<char>, end: int)
    requires
        0 <= end <= text.len(),
        forall|i: int| end <= i < text.len() ==> text[i] == '\0',
    ensures
        trim_trailing_nul(text) == trim_trailing_nul(text.subrange(0, end)),
    decreases text.len() - end,
{
    if end == text.len() {
        assert(text.subrange(0, end) =~= text);
    } else {
        assert(text.last() == '\0');
        let shorter = text.drop_last();
        assert(shorter.subrange(0, end) =~= text.subrange(0, end));
        lemma_trim_prefix(shorter, end);
    }
}

/// Removes the NUL characters at the end of a text.
pub fn trim_nul_padding(text: &str) -> (r: String)
    ensures
        r@ == trim_trailing_nul(text@),
{
    let mut end: usize = text.unicode_len();
    loop
        invariant
            end <= text@.len(),
            forall|i: int| end <= i < text@.len() ==> text@[i] == '\0',
        ensures
            end == 0 || text@[end - 1] != '\0',
        decreases end,
    {
        if end == 0 {
            break ;
        }
        let last = text.get_char(end - 1);
        if last != '\0' {
            break ;
        }
        end = end - 1;
    }
    proof {
        lemma_trim_prefix(text@, end as int);
    }
    text.substring_char(0, end).to_owned()
}

/// Reads the identifier that the contract holds: the bytes as text, without
/// the NUL padding at the end. Bytes that are no UTF-8 text are refused and
/// handed back in the error.
pub fn contract_gravity_id(raw: Vec<u8>) -> (r: Result<String, GravityError>)
    ensures
        valid_utf8(raw@) ==> (r matches Ok(id) && id@ == contract_id_text(raw@)),
        !valid_utf8(raw@) ==> (r matches Err(GravityError::InvalidGravityIdText(given)) && given@
            == raw@),
{
    let trimmed = match str_from_utf8(raw.as_slice()) {
        Some(text) => Some(trim_nul_padding(text)),
        None => None,
    };
    match trimmed {
        Some(id) => Ok(id),
        None => Err(GravityError::InvalidGravityIdText(raw)),
    }
}

/// Checks that the contract and the counterpart chain are configured for the
/// same bridge, given what each of them answered, and returns the identifier.
///
/// The contract's bytes are read as text and lose their NUL padding; the
/// result is compared with the chain's identifier as it stands. Bytes that
/// are no text fail first, then a chain that answered without parameters,
/// then identifiers that differ: that error carries both.
pub fn get_gravity_id(raw: Vec<u8>, params: Option<ChainParams>) -> (r: Result<
    String,
    GravityError,
>)
    ensures
        !valid_utf8(raw@) ==> (r matches Err(GravityError::InvalidGravityIdText(given)) && given@
            == raw@),
        valid_utf8(raw@) && params is None ==> r == Err::<String, GravityError>(
            GravityError::CosmosBadResponse,
        ),
        valid_utf8(raw@) && params is Some && params->0.gravity_id@ == contract_id_text(raw@)
            ==> (r matches Ok(id) && id@ == contract_id_text(raw@)),
        valid_utf8(raw@) && params is Some && params->0.gravity_id@ != contract_id_text(raw@)
            ==> (r matches Err(GravityError::GravityIdMismatch { chain_id, contract_id })
            && chain_id@ == params->0.gravity_id@ && contract_id@ == contract_id_text(raw@)),
{
    let contract_id = match contract_gravity_id(raw) {
        Ok(id) => id,
        Err(e) => {
            return Err(e);
        },
    };
    match params {
        None => Err(GravityError::CosmosBadResponse),
        Some(p) => {
            if p.gravity_id == contract_id {
                Ok(p.gravity_id)
            } else {
                Err(GravityError::GravityIdMismatch { chain_id: p.gravity_id, contract_id })
            }
        },
    }
}

/// `count` NUL characters.
pub open spec fn nul_text(count: nat) -> Seq<char> {
    Seq::new(count, |i: int| '\0')
}

/// `count` zero bytes.
pub open spec fn nul_bytes(count: nat) -> Seq<u8> {
    Seq::new(count, |i: int| 0u8)
}

/// The encoding of two texts in a row is the encoding of the first followed
/// by that of the second.
proof fn lemma_encode_concat(first: Seq<char>, second: Seq<char>)
    ensures
        encode_utf8(first + second) == encode_utf8(first) + encode_utf8(second),
    decreases first.len(),
{
    if first.len() == 0 {
        assert(first + second =~= second);
        assert(encode_utf8(first) + encode_utf8(second) =~= encode_utf8(second));
    } else {
        let whole = first + second;
        assert(whole[0] == first[0]);
        assert(whole.drop_first() =~= first.drop_first() + second);
        lemma_encode_concat(first.drop_first(), second);
        assert(encode_utf8(whole) =~= encode_utf8(first) + encode_utf8(second));
    }
}

/// Trimming takes NUL characters off the end of a text that does not end in
/// one, and nothing more.
proof fn lemma_trim_padding(text: Seq<char>, padding: nat)
    requires
        text.len() == 0 || text.last() != '\0',
    ensures
        trim_trailing_nul(text + nul_text(padding)) == text,
    decreases padding,
{
    if padding == 0 {
        assert(text + nul_text(padding) =~= text);
    } else {
        let padded = text + nul_text(padding);
        assert(padded.last() == '\0');
        assert(padded.drop_last() =~= text + nul_text((padding - 1) as nat));
        lemma_trim_padding(text, (padding - 1) as nat);
    }
}

/// The two forms of one identifier are taken as equal: the contract's bytes,
/// which are the identifier's text followed by any number of zero bytes,
/// are read as that identifier, provided it does not itself end in a NUL
/// character.
pub proof fn lemma_padded_identifier_matches(id: Seq<char>, padding: nat)
    requires
        id.len() == 0 || id.last() != '\0',
    ensures
        valid_utf8(encode_utf8(id) + nul_bytes(padding)),
        contract_id_text(encode_utf8(id) + nul_bytes(padding)) == id,
{
    let nuls = nul_text(padding);
    assert(is_ascii_chars(nuls));
    is_ascii_chars_encode_utf8(nuls);
    assert(encode_utf8(nuls) =~= nul_bytes(padding));
    lemma_encode_concat(id, nuls);
    encode_utf8_valid_utf8(id + nuls);
    encode_utf8_decode_utf8(id + nuls);
    lemma_trim_padding(id, padding);
}

} // verus!
