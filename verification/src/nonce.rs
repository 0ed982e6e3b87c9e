//! The counters of the bridge contract: the call that reads one, and the
//! narrowing of what comes back.

use crate::error::{GravityError, NonceKind};
use crate::hash::{selector, selector_of};
use crate::uint::{be_value, RawChainInteger};
use vstd::prelude::*;

verus! {

broadcast use vstd::slice::group_slice_axioms;

/// One of the counters that the contract keeps, each on its own.
#[derive(Clone, Copy, Debug, PartialEq, Eq)]
pub enum NonceScope {
    /// The version of the validator set.
    ValidatorSet,
    /// The last batch of the token with the given contract address.
    TransactionBatch([u8; 20]),
    /// The last logic call with the given invalidation id.
    LogicCall([u8; 32]),
    /// The last event.
    Event,
}

/// Twelve zero bytes: what stands before an address in a 32-byte word.
pub open spec fn address_padding() -> Seq<u8> {
    Seq::new(12, |i: int| 0u8)
}

impl NonceScope {
    /// The counter that the scope reads.
    pub open spec fn kind(self) -> NonceKind {
        match self {
            NonceScope::ValidatorSet => NonceKind::Valset,
            NonceScope::TransactionBatch(_) => NonceKind::TxBatch,
            NonceScope::LogicCall(_) => NonceKind::LogicCall,
            NonceScope::Event => NonceKind::Event,
        }
    }

    /// The signature of the contract's function that returns the counter.
    pub open spec fn signature(self) -> Seq<char> {
        match self {
            NonceScope::ValidatorSet => "state_lastValsetNonce()"@,
            NonceScope::TransactionBatch(_) => "lastBatchNonce(address)"@,
            NonceScope::LogicCall(_) => "lastLogicCallNonce(bytes32)"@,
            NonceScope::Event => "state_lastEventNonce()"@,
        }
    }

    /// The arguments of the call, each in a word of 32 bytes: the token's
    /// address behind twelve zero bytes, the invalidation id as it is.
    pub open spec fn arguments(self) -> Seq<u8> {
        match self {
            NonceScope::ValidatorSet => Seq::empty(),
            NonceScope::TransactionBatch(token) => address_padding() + token@,
            NonceScope::LogicCall(invalidation_id) => invalidation_id@,
            NonceScope::Event => Seq::empty(),
        }
    }

    /// The payload of the call that reads the counter: the selector of the
    /// function, then its arguments.
    pub open spec fn payload(self) -> Seq<u8> {
        selector(self.signature()) + self.arguments()
    }

    /// The scope of the logic calls with the given invalidation id, which
    /// has to be 32 bytes long.
    pub fn logic_call(invalidation_id: &Vec<u8>) -> (r: Result<NonceScope, GravityError>)
        ensures
            invalidation_id@.len() == 32 ==> (r matches Ok(NonceScope::LogicCall(id)) && id@
                == invalidation_id@),
            invalidation_id@.len() != 32 ==> r == Err::<NonceScope, GravityError>(
                GravityError::InvalidInvalidationId(invalidation_id@.len() as usize),
            ),
    {
        if invalidation_id.len() != 32 {
            return Err(GravityError::InvalidInvalidationId(invalidation_id.len()));
        }
        let mut id = [0u8;32];
        let mut i: usize = 0;
        while i < 32
            invariant
                i <= 32,
                invalidation_id@.len() == 32,
                forall|k: int| 0 <= k < i ==> id@[k] == invalidation_id@[k],
            decreases 32 - i,
        {
            id[i] = invalidation_id[i];
            i = i + 1;
        }
        assert(id@ =~= invalidation_id@);
        Ok(NonceScope::LogicCall(id))
    }

    /// The counter that the scope reads.
    pub fn nonce_kind(&self) -> (r: NonceKind)
        ensures
            r == self.kind(),
    {
        match self {
            NonceScope::ValidatorSet => NonceKind::Valset,
            NonceScope::TransactionBatch(_) => NonceKind::TxBatch,
            NonceScope::LogicCall(_) => NonceKind::LogicCall,
            NonceScope::Event => NonceKind::Event,
        }
    }

    /// The signature of the contract's function that returns the counter.
    pub fn signature_text(&self) -> (text: &'static str)
        ensures
            text@ == self.signature(),
    {
        match self {
            NonceScope::ValidatorSet => "state_lastValsetNonce()",
            NonceScope::TransactionBatch(_) => "lastBatchNonce(address)",
            NonceScope::LogicCall(_) => "lastLogicCallNonce(bytes32)",
            NonceScope::Event => "state_lastEventNonce()",
        }
    }

    /// Builds the payload of the call that reads the counter.
    pub fn call_payload(&self) -> (out: Vec<u8>)
        ensures
            out@ == self.payload(),
    {
        let chosen = selector_of(self.signature_text());
        let mut out: Vec<u8> = Vec::new();
        out.push(chosen[0]);
        out.push(chosen[1]);
        out.push(chosen[2]);
        out.push(chosen[3]);
        assert(out@ =~= chosen@);
        match self {
            NonceScope::TransactionBatch(token) => {
                let mut i: usize = 0;
                while i < 12
                    invariant
                        i <= 12,
                        out@ =~= chosen@ + address_padding().subrange(0, i as int),
                    decreases 12 - i,
                {
                    out.push(0);
                    i = i + 1;
                }
                assert(address_padding().subrange(0, 12) =~= address_padding());
                let mut j: usize = 0;
                while j < 20
                    invariant
                        j <= 20,
                        out@ =~= chosen@ + address_padding() + token@.subrange(0, j as int),
                    decreases 20 - j,
                {
                    out.push(token[j]);
                    j = j + 1;
                }
                assert(token@.subrange(0, 20) =~= token@);
                assert(out@ =~= chosen@ + (address_padding() + token@));
            },
            NonceScope::LogicCall(invalidation_id) => {
                let mut j: usize = 0;
                while j < 32
                    invariant
                        j <= 32,
                        out@ =~= chosen@ + invalidation_id@.subrange(0, j as int),
                    decreases 32 - j,
                {
                    out.push(invalidation_id[j]);
                    j = j + 1;
                }
                assert(invalidation_id@.subrange(0, 32) =~= invalidation_id@);
            },
            _ => {
                assert(out@ =~= chosen@ + Seq::<u8>::empty());
            },
        }
        out
    }
}

/// What a call's reply stands for: its first 32 bytes as an integer, or
/// the reply handed back where it is shorter.
pub open spec fn decoded_reply(reply: Vec<u8>) -> Result<RawChainInteger, GravityError> {
    if reply@.len() >= 32 {
        Ok(RawChainInteger::spec_from_nat(be_value(reply@.subrange(0, 32))))
    } else {
        Err(GravityError::InvalidCallReply(reply))
    }
}

/// Decodes the reply of a call that returns one integer: its first 32
/// bytes, most significant first. A reply of fewer bytes is refused and
/// handed back in the error.
pub fn decode_reply(reply: Vec<u8>) -> (r: Result<RawChainInteger, GravityError>)
    ensures
        r == decoded_reply(reply),
        reply@.len() >= 32 ==> (r matches Ok(value) && value@ == be_value(reply@.subrange(0, 32))),
{
    if reply.len() < 32 {
        return Err(GravityError::InvalidCallReply(reply));
    }
    let value = RawChainInteger::from_be_word(reply.as_slice(), 0);
    proof {
        value.lemma_value();
    }
    Ok(value)
}

/// What reading a counter gives, from what the call gave: the failure of
/// the call as it is; the counter where it fits in 64 bits; and an overflow
/// of its own kind where it does not.
pub open spec fn nonce_outcome(kind: NonceKind, reply: Result<RawChainInteger, GravityError>)
    -> Result<u64, GravityError> {
    match reply {
        Err(e) => Err(e),
        Ok(value) => if value@ <= u64::MAX {
            Ok(value@ as u64)
        } else {
            Err(GravityError::NonceOverflow(kind, value))
        },
    }
}

/// Narrows the counter that a call returned to 64 bits. A failed call is
/// passed on as it is. A counter beyond 64 bits is an overflow, which is
/// told apart from every failure of a call: the bridge has to halt on it.
pub fn read_nonce(kind: NonceKind, reply: Result<RawChainInteger, GravityError>) -> (r: Result<
    u64,
    GravityError,
>)
    ensures
        r == nonce_outcome(kind, reply),
{
    match reply {
        Err(e) => Err(e),
        Ok(value) => match value.downcast_to_u64() {
            Some(nonce) => Ok(nonce),
            None => Err(GravityError::NonceOverflow(kind, value)),
        },
    }
}

/// Reads the counter of a scope from the reply of a simulated call: the
/// failure of the call as it is; a reply that is too short as bad data; the
/// counter where it fits in 64 bits; an overflow where it does not.
pub fn read_simulated_nonce(scope: &NonceScope, reply: Result<Vec<u8>, GravityError>) -> (r:
    Result<u64, GravityError>)
    ensures
        reply matches Err(e) ==> r == Err::<u64, GravityError>(e),
        reply matches Ok(bytes) ==> r == nonce_outcome(scope.kind(), decoded_reply(bytes)),
{
    match reply {
        Err(e) => Err(e),
        Ok(bytes) => {
            if bytes.len() < 32 {
                return Err(GravityError::InvalidCallReply(bytes));
            }
            let value = RawChainInteger::from_be_word(bytes.as_slice(), 0);
            proof {
                value.lemma_value();
            }
            read_nonce(scope.nonce_kind(), Ok(value))
        },
    }
}

/// The two ways of reading a counter agree: the reply of a simulated call
/// gives what the typed call gives for the integer that the reply holds.
pub proof fn lemma_strategies_agree(scope: NonceScope, reply: Vec<u8>, typed: RawChainInteger)
    requires
        reply@.len() >= 32,
        typed@ == be_value(reply@.subrange(0, 32)),
    ensures
        nonce_outcome(scope.kind(), decoded_reply(reply)) == nonce_outcome(
            scope.kind(),
            Ok(typed),
        ),
{
    typed.lemma_value();
}

/// The version of the validator set, from what the call for it gave.
pub fn get_valset_nonce(reply: Result<RawChainInteger, GravityError>) -> (r: Result<
    u64,
    GravityError,
>)
    ensures
        r == nonce_outcome(NonceKind::Valset, reply),
{
    read_nonce(NonceKind::Valset, reply)
}

/// The nonce of a token's last batch, from what the call for it gave.
pub fn get_tx_batch_nonce(reply: Result<RawChainInteger, GravityError>) -> (r: Result<
    u64,
    GravityError,
>)
    ensures
        r == nonce_outcome(NonceKind::TxBatch, reply),
{
    read_nonce(NonceKind::TxBatch, reply)
}

/// The nonce of the last logic call of an invalidation id, from what the
/// call for it gave.
pub fn get_logic_call_nonce(reply: Result<RawChainInteger, GravityError>) -> (r: Result<
    u64,
    GravityError,
>)
    ensures
        r == nonce_outcome(NonceKind::LogicCall, reply),
{
    read_nonce(NonceKind::LogicCall, reply)
}

/// The nonce of the last event, from what the call for it gave.
pub fn get_event_nonce(reply: Result<RawChainInteger, GravityError>) -> (r: Result<
    u64,
    GravityError,
>)
    ensures
        r == nonce_outcome(NonceKind::Event, reply),
{
    read_nonce(NonceKind::Event, reply)
}

/// Narrowing keeps every counter of at most 64 bits as it is, and reports
/// every larger one as an overflow, which is no failure of a call.
pub proof fn lemma_downcast(kind: NonceKind, value: RawChainInteger)
    ensures
        value@ <= u64::MAX ==> nonce_outcome(kind, Ok(value)) == Ok::<u64, GravityError>(
            value@ as u64,
        ) && nonce_outcome(kind, Ok(value))->Ok_0 as nat == value@,
        value@ > u64::MAX ==> nonce_outcome(kind, Ok(value)) is Err && nonce_outcome(
            kind,
            Ok(value),
        )->Err_0.spec_kind() == crate::error::ErrorKind::FatalInvariant,
{
}

/// A failed call is never reported as an overflow: its failure comes out
/// as it went in.
pub proof fn lemma_failed_call_passes(kind: NonceKind, failure: GravityError)
    ensures
        nonce_outcome(kind, Err(failure)) == Err::<u64, GravityError>(failure),
{
}

} // verus!
