//! What a failed call to the bridge contract means: the revert reason that
//! the node sent with it, and whether the call may be skipped for good.

use crate::error::{GravityError, HttpClientError, JsonRpcError, RpcErrorData, TransportError};
use crate::hash::{selector, selector_of};
use crate::uint::{be_value, RawChainInteger};
use vstd::prelude::*;
use vstd::string::*;
use vstd::utf8::*;

verus! {

broadcast use vstd::slice::group_slice_axioms;

/// The code of a JSON-RPC error that reports a reverted execution.
pub const EXECUTION_REVERTED: i64 = 3;

/// The number of errors that the contract can revert with.
pub const KIND_COUNT: usize = 14;

/// The errors that the bridge contract can revert with, by name.
#[derive(Clone, Copy, Debug, PartialEq, Eq, Structural)]
pub enum ContractErrorKind {
    /// The batch is past its timeout.
    BatchTimedOut,
    /// The checkpoint does not match the contract's.
    IncorrectCheckpoint,
    /// The signatures do not carry enough power.
    InsufficientPower,
    /// The batch nonce is no later than the contract's.
    InvalidBatchNonce,
    /// The fees of the logic call are malformed.
    InvalidLogicCallFees,
    /// The logic call's nonce is no later than the contract's.
    InvalidLogicCallNonce,
    /// The transfers of the logic call are malformed.
    InvalidLogicCallTransfers,
    /// The deposit cannot be sent on.
    InvalidSendToCosmos,
    /// A signature does not verify.
    InvalidSignature,
    /// The validator set nonce is no later than the contract's.
    InvalidValsetNonce,
    /// The logic call is past its timeout.
    LogicCallTimedOut,
    /// The batch is malformed.
    MalformedBatch,
    /// The current validator set is malformed.
    MalformedCurrentValidatorSet,
    /// The new validator set is malformed.
    MalformedNewValidatorSet,
}

impl ContractErrorKind {
    /// The signature by which the contract declares the error.
    pub open spec fn signature(self) -> Seq<char> {
        match self {
            ContractErrorKind::BatchTimedOut => "BatchTimedOut()"@,
            ContractErrorKind::IncorrectCheckpoint => "IncorrectCheckpoint()"@,
            ContractErrorKind::InsufficientPower => "InsufficientPower(uint256,uint256)"@,
            ContractErrorKind::InvalidBatchNonce => "InvalidBatchNonce(uint256,uint256)"@,
            ContractErrorKind::InvalidLogicCallFees => "InvalidLogicCallFees()"@,
            ContractErrorKind::InvalidLogicCallNonce => "InvalidLogicCallNonce(uint256,uint256)"@,
            ContractErrorKind::InvalidLogicCallTransfers => "InvalidLogicCallTransfers()"@,
            ContractErrorKind::InvalidSendToCosmos => "InvalidSendToCosmos()"@,
            ContractErrorKind::InvalidSignature => "InvalidSignature()"@,
            ContractErrorKind::InvalidValsetNonce => "InvalidValsetNonce(uint256,uint256)"@,
            ContractErrorKind::LogicCallTimedOut => "LogicCallTimedOut()"@,
            ContractErrorKind::MalformedBatch => "MalformedBatch()"@,
            ContractErrorKind::MalformedCurrentValidatorSet => "MalformedCurrentValidatorSet()"@,
            ContractErrorKind::MalformedNewValidatorSet => "MalformedNewValidatorSet()"@,
        }
    }

    /// Whether the error carries two integers; the others carry nothing.
    pub open spec fn has_arguments(self) -> bool {
        self == ContractErrorKind::InsufficientPower || self == ContractErrorKind::InvalidBatchNonce
            || self == ContractErrorKind::InvalidLogicCallNonce || self
            == ContractErrorKind::InvalidValsetNonce
    }

    /// The number of bytes that the error takes at least: its selector and
    /// its arguments.
    pub open spec fn encoded_len(self) -> nat {
        if self.has_arguments() {
            68
        } else {
            4
        }
    }

    /// The kind at a place in the order in which data is tried against them.
    pub open spec fn at(index: nat) -> ContractErrorKind {
        if index == 0 {
            ContractErrorKind::BatchTimedOut
        } else if index == 1 {
            ContractErrorKind::IncorrectCheckpoint
        } else if index == 2 {
            ContractErrorKind::InsufficientPower
        } else if index == 3 {
            ContractErrorKind::InvalidBatchNonce
        } else if index == 4 {
            ContractErrorKind::InvalidLogicCallFees
        } else if index == 5 {
            ContractErrorKind::InvalidLogicCallNonce
        } else if index == 6 {
            ContractErrorKind::InvalidLogicCallTransfers
        } else if index == 7 {
            ContractErrorKind::InvalidSendToCosmos
        } else if index == 8 {
            ContractErrorKind::InvalidSignature
        } else if index == 9 {
            ContractErrorKind::InvalidValsetNonce
        } else if index == 10 {
            ContractErrorKind::LogicCallTimedOut
        } else if index == 11 {
            ContractErrorKind::MalformedBatch
        } else if index == 12 {
            ContractErrorKind::MalformedCurrentValidatorSet
        } else {
            ContractErrorKind::MalformedNewValidatorSet
        }
    }

    /// The kind at a place in the order in which data is tried against them.
    pub fn from_index(index: usize) -> (kind: ContractErrorKind)
        requires
            index < KIND_COUNT,
        ensures
            kind == Self::at(index as nat),
    {
        if index == 0 {
            ContractErrorKind::BatchTimedOut
        } else if index == 1 {
            ContractErrorKind::IncorrectCheckpoint
        } else if index == 2 {
            ContractErrorKind::InsufficientPower
        } else if index == 3 {
            ContractErrorKind::InvalidBatchNonce
        } else if index == 4 {
            ContractErrorKind::InvalidLogicCallFees
        } else if index == 5 {
            ContractErrorKind::InvalidLogicCallNonce
        } else if index == 6 {
            ContractErrorKind::InvalidLogicCallTransfers
        } else if index == 7 {
            ContractErrorKind::InvalidSendToCosmos
        } else if index == 8 {
            ContractErrorKind::InvalidSignature
        } else if index == 9 {
            ContractErrorKind::InvalidValsetNonce
        } else if index == 10 {
            ContractErrorKind::LogicCallTimedOut
        } else if index == 11 {
            ContractErrorKind::MalformedBatch
        } else if index == 12 {
            ContractErrorKind::MalformedCurrentValidatorSet
        } else {
            ContractErrorKind::MalformedNewValidatorSet
        }
    }

    /// The signature by which the contract declares the error.
    pub fn signature_text(self) -> (text: &'static str)
        ensures
            text@ == self.signature(),
    {
        match self {
            ContractErrorKind::BatchTimedOut => "BatchTimedOut()",
            ContractErrorKind::IncorrectCheckpoint => "IncorrectCheckpoint()",
            ContractErrorKind::InsufficientPower => "InsufficientPower(uint256,uint256)",
            ContractErrorKind::InvalidBatchNonce => "InvalidBatchNonce(uint256,uint256)",
            ContractErrorKind::InvalidLogicCallFees => "InvalidLogicCallFees()",
            ContractErrorKind::InvalidLogicCallNonce => "InvalidLogicCallNonce(uint256,uint256)",
            ContractErrorKind::InvalidLogicCallTransfers => "InvalidLogicCallTransfers()",
            ContractErrorKind::InvalidSendToCosmos => "InvalidSendToCosmos()",
            ContractErrorKind::InvalidSignature => "InvalidSignature()",
            ContractErrorKind::InvalidValsetNonce => "InvalidValsetNonce(uint256,uint256)",
            ContractErrorKind::LogicCallTimedOut => "LogicCallTimedOut()",
            ContractErrorKind::MalformedBatch => "MalformedBatch()",
            ContractErrorKind::MalformedCurrentValidatorSet => "MalformedCurrentValidatorSet()",
            ContractErrorKind::MalformedNewValidatorSet => "MalformedNewValidatorSet()",
        }
    }

    /// Whether the error carries two integers.
    pub fn carries_arguments(self) -> (b: bool)
        ensures
            b == self.has_arguments(),
    {
        match self {
            ContractErrorKind::InsufficientPower => true,
            ContractErrorKind::InvalidBatchNonce => true,
            ContractErrorKind::InvalidLogicCallNonce => true,
            ContractErrorKind::InvalidValsetNonce => true,
            _ => false,
        }
    }
}

/// A revert reason of the bridge contract, with what the contract sent
/// along.
#[derive(Clone, Copy, Debug, PartialEq, Eq, Structural)]
pub enum GravityContractError {
    /// The batch is past its timeout.
    BatchTimedOut,
    /// The checkpoint does not match the contract's.
    IncorrectCheckpoint,
    /// The signatures carry the first power, and the second was needed.
    InsufficientPower(RawChainInteger, RawChainInteger),
    /// The batch has the first nonce, and the contract is at the second.
    InvalidBatchNonce(RawChainInteger, RawChainInteger),
    /// The fees of the logic call are malformed.
    InvalidLogicCallFees,
    /// The logic call has the first nonce, and the contract is at the second.
    InvalidLogicCallNonce(RawChainInteger, RawChainInteger),
    /// The transfers of the logic call are malformed.
    InvalidLogicCallTransfers,
    /// The deposit cannot be sent on.
    InvalidSendToCosmos,
    /// A signature does not verify.
    InvalidSignature,
    /// The validator set has the first nonce, and the contract is at the
    /// second.
    InvalidValsetNonce(RawChainInteger, RawChainInteger),
    /// The logic call is past its timeout.
    LogicCallTimedOut,
    /// The batch is malformed.
    MalformedBatch,
    /// The current validator set is malformed.
    MalformedCurrentValidatorSet,
    /// The new validator set is malformed.
    MalformedNewValidatorSet,
}

impl GravityContractError {
    /// The reason of the given kind with the given two integers, which a
    /// kind without arguments leaves out.
    pub open spec fn with_arguments(
        kind: ContractErrorKind,
        first: RawChainInteger,
        second: RawChainInteger,
    ) -> GravityContractError {
        match kind {
            ContractErrorKind::BatchTimedOut => GravityContractError::BatchTimedOut,
            ContractErrorKind::IncorrectCheckpoint => GravityContractError::IncorrectCheckpoint,
            ContractErrorKind::InsufficientPower => GravityContractError::InsufficientPower(
                first,
                second,
            ),
            ContractErrorKind::InvalidBatchNonce => GravityContractError::InvalidBatchNonce(
                first,
                second,
            ),
            ContractErrorKind::InvalidLogicCallFees => GravityContractError::InvalidLogicCallFees,
            ContractErrorKind::InvalidLogicCallNonce => GravityContractError::InvalidLogicCallNonce(
                first,
                second,
            ),
            ContractErrorKind::InvalidLogicCallTransfers => {
                GravityContractError::InvalidLogicCallTransfers
            },
            ContractErrorKind::InvalidSendToCosmos => GravityContractError::InvalidSendToCosmos,
            ContractErrorKind::InvalidSignature => GravityContractError::InvalidSignature,
            ContractErrorKind::InvalidValsetNonce => GravityContractError::InvalidValsetNonce(
                first,
                second,
            ),
            ContractErrorKind::LogicCallTimedOut => GravityContractError::LogicCallTimedOut,
            ContractErrorKind::MalformedBatch => GravityContractError::MalformedBatch,
            ContractErrorKind::MalformedCurrentValidatorSet => {
                GravityContractError::MalformedCurrentValidatorSet
            },
            ContractErrorKind::MalformedNewValidatorSet => {
                GravityContractError::MalformedNewValidatorSet
            },
        }
    }

    /// The reason of the given kind with the given two integers.
    fn build(kind: ContractErrorKind, first: RawChainInteger, second: RawChainInteger) -> (r:
        GravityContractError)
        ensures
            r == Self::with_arguments(kind, first, second),
    {
        match kind {
            ContractErrorKind::BatchTimedOut => GravityContractError::BatchTimedOut,
            ContractErrorKind::IncorrectCheckpoint => GravityContractError::IncorrectCheckpoint,
            ContractErrorKind::InsufficientPower => GravityContractError::InsufficientPower(
                first,
                second,
            ),
            ContractErrorKind::InvalidBatchNonce => GravityContractError::InvalidBatchNonce(
                first,
                second,
            ),
            ContractErrorKind::InvalidLogicCallFees => GravityContractError::InvalidLogicCallFees,
            ContractErrorKind::InvalidLogicCallNonce => GravityContractError::InvalidLogicCallNonce(
                first,
                second,
            ),
            ContractErrorKind::InvalidLogicCallTransfers => {
                GravityContractError::InvalidLogicCallTransfers
            },
            ContractErrorKind::InvalidSendToCosmos => GravityContractError::InvalidSendToCosmos,
            ContractErrorKind::InvalidSignature => GravityContractError::InvalidSignature,
            ContractErrorKind::InvalidValsetNonce => GravityContractError::InvalidValsetNonce(
                first,
                second,
            ),
            ContractErrorKind::LogicCallTimedOut => GravityContractError::LogicCallTimedOut,
            ContractErrorKind::MalformedBatch => GravityContractError::MalformedBatch,
            ContractErrorKind::MalformedCurrentValidatorSet => {
                GravityContractError::MalformedCurrentValidatorSet
            },
            ContractErrorKind::MalformedNewValidatorSet => {
                GravityContractError::MalformedNewValidatorSet
            },
        }
    }
}

/// Whether revert data is an error of the given kind: it starts with the
/// kind's selector and is long enough for the kind's arguments.
pub open spec fn decodes_as(kind: ContractErrorKind, data: Seq<u8>) -> bool {
    data.len() >= kind.encoded_len() && data.subrange(0, 4) == selector(kind.signature())
}

/// The reason that revert data of the given kind stands for: the kind, and
/// for a kind with arguments the two 32-byte words behind the selector.
pub open spec fn reason_of(kind: ContractErrorKind, data: Seq<u8>) -> GravityContractError {
    GravityContractError::with_arguments(
        kind,
        RawChainInteger::spec_from_nat(be_value(data.subrange(4, 36))),
        RawChainInteger::spec_from_nat(be_value(data.subrange(36, 68))),
    )
}

/// The reason of the first kind, from `index` on, that the data is an error
/// of.
pub open spec fn decode_from(data: Seq<u8>, index: nat) -> Option<GravityContractError>
    decreases KIND_COUNT - index,
{
    if index >= KIND_COUNT {
        None
    } else if decodes_as(ContractErrorKind::at(index), data) {
        Some(reason_of(ContractErrorKind::at(index), data))
    } else {
        decode_from(data, index + 1)
    }
}

/// The revert reason that the data stands for, if it stands for one.
pub open spec fn decoded_reason(data: Seq<u8>) -> Option<GravityContractError> {
    decode_from(data, 0)
}

/// Tells whether revert data is an error of the given kind.
fn is_kind(kind: ContractErrorKind, data: &[u8]) -> (b: bool)
    ensures
        b == decodes_as(kind, data@),
{
    let needed: usize = if kind.carries_arguments() {
        68
    } else {
        4
    };
    if data.len() < needed {
        return false;
    }
    let expected = selector_of(kind.signature_text());
    let b = data[0] == expected[0] && data[1] == expected[1] && data[2] == expected[2] && data[3]
        == expected[3];
    proof {
        if b {
            assert(data@.subrange(0, 4) =~= expected@);
        } else {
            assert(data@.subrange(0, 4)[0] == data@[0]);
            assert(data@.subrange(0, 4)[1] == data@[1]);
            assert(data@.subrange(0, 4)[2] == data@[2]);
            assert(data@.subrange(0, 4)[3] == data@[3]);
        }
    }
    b
}

/// Decodes revert data as one of the contract's errors: the first kind, in
/// their order, whose selector the data starts with and whose arguments it
/// is long enough for. Data that is none of them gives nothing.
pub fn decode_gravity_error(data: Vec<u8>) -> (r: Option<GravityContractError>)
    ensures
        r == decoded_reason(data@),
{
    let mut index: usize = 0;
    while index < KIND_COUNT
        invariant
            index <= KIND_COUNT,
            decoded_reason(data@) == decode_from(data@, index as nat),
        decreases KIND_COUNT - index,
    {
        let kind = ContractErrorKind::from_index(index);
        if is_kind(kind, data.as_slice()) {
            let zero = RawChainInteger::from_u64(0);
            if kind.carries_arguments() {
                let first = RawChainInteger::from_be_word(data.as_slice(), 4);
                let second = RawChainInteger::from_be_word(data.as_slice(), 36);
                proof {
                    first.lemma_value();
                    second.lemma_value();
                }
                return Some(GravityContractError::build(kind, first, second));
            }
            return Some(GravityContractError::build(kind, zero, zero));
        }
        index = index + 1;
    }
    None
}

/// The value of a hexadecimal digit, written in ASCII in either case.
pub open spec fn hex_digit(byte: u8) -> Option<u8> {
    if 0x30 <= byte <= 0x39 {
        Some((byte - 0x30) as u8)
    } else if 0x61 <= byte <= 0x66 {
        Some((byte - 0x57) as u8)
    } else if 0x41 <= byte <= 0x46 {
        Some((byte - 0x37) as u8)
    } else {
        None
    }
}

/// A text without the `0x` that it may start with.
pub open spec fn without_hex_prefix(text: Seq<u8>) -> Seq<u8> {
    if text.len() >= 2 && text[0] == 0x30 && text[1] == 0x78 {
        text.subrange(2, text.len() as int)
    } else {
        text
    }
}

/// Whether a text is an even number of hexadecimal digits.
pub open spec fn is_hex(digits: Seq<u8>) -> bool {
    digits.len() % 2 == 0 && forall|i: int|
        0 <= i < digits.len() ==> hex_digit(#[trigger] digits[i]) is Some
}

/// The bytes that hexadecimal digits stand for, two digits to the byte, the
/// high one first.
pub open spec fn hex_bytes(digits: Seq<u8>) -> Seq<u8> {
    Seq::new(
        digits.len() / 2,
        |i: int| (hex_digit(digits[2 * i])->0 * 16 + hex_digit(digits[2 * i + 1])->0) as u8,
    )
}

/// The bytes that a hexadecimal text stands for, with or without `0x` in
/// front; nothing for any other text.
pub open spec fn hex_decoding(text: Seq<u8>) -> Option<Seq<u8>> {
    let digits = without_hex_prefix(text);
    if is_hex(digits) {
        Some(hex_bytes(digits))
    } else {
        None
    }
}

/// The value of a hexadecimal digit.
fn hex_digit_value(byte: u8) -> (r: Option<u8>)
    ensures
        r == hex_digit(byte),
{
    if 0x30 <= byte && byte <= 0x39 {
        Some(byte - 0x30)
    } else if 0x61 <= byte && byte <= 0x66 {
        Some(byte - 0x57)
    } else if 0x41 <= byte && byte <= 0x46 {
        Some(byte - 0x37)
    } else {
        None
    }
}

/// Decodes a hexadecimal text, with or without `0x` in front, into bytes.
/// A text with an odd number of digits, or with anything but digits, gives
/// nothing.
pub fn hex_str_to_bytes(text: &str) -> (r: Option<Vec<u8>>)
    ensures
        hex_decoding(text.spec_bytes()) is Some ==> r is Some && r->0@ == hex_decoding(
            text.spec_bytes(),
        )->0,
        hex_decoding(text.spec_bytes()) is None ==> r is None,
{
    let bytes = text.as_bytes();
    let len = bytes.len();
    let start: usize = if len >= 2 && bytes[0] == 0x30 && bytes[1] == 0x78 {
        2
    } else {
        0
    };
    let ghost digits = without_hex_prefix(bytes@);
    assert(digits.len() == len - start);
    assert(forall|k: int| 0 <= k < digits.len() ==> digits[k] == bytes@[start + k]);
    if (len - start) % 2 != 0 {
        return None;
    }
    let mut out: Vec<u8> = Vec::new();
    let mut i: usize = start;
    while i < len
        invariant
            start <= i <= len,
            len == bytes.len(),
            (len - start) % 2 == 0,
            (i - start) % 2 == 0,
            digits.len() == len - start,
            digits == without_hex_prefix(text.spec_bytes()),
            forall|k: int| 0 <= k < digits.len() ==> digits[k] == bytes@[start + k],
            forall|k: int| 0 <= k < i - start ==> hex_digit(#[trigger] digits[k]) is Some,
            out@.len() == (i - start) / 2,
            forall|j: int| 0 <= j < out@.len() ==> out@[j] == hex_bytes(digits)[j],
        decreases len - i,
    {
        let high = hex_digit_value(bytes[i]);
        let low = hex_digit_value(bytes[i + 1]);
        match (high, low) {
            (Some(h), Some(l)) => {
                assert(digits[i - start] == bytes@[i as int]);
                assert(digits[i - start + 1] == bytes@[i + 1]);
                out.push(h * 16 + l);
            },
            _ => {
                proof {
                    assert(digits[i - start] == bytes@[i as int]);
                    assert(digits[i - start + 1] == bytes@[i + 1]);
                    if high is None {
                        assert(hex_digit(digits[i - start]) is None);
                    } else {
                        assert(hex_digit(digits[i - start + 1]) is None);
                    }
                    assert(!is_hex(digits));
                }
                return None;
            },
        }
        i = i + 2;
    }
    assert(is_hex(digits));
    assert(out@ =~= hex_bytes(digits));
    Some(out)
}

/// The JSON-RPC error response inside a failed contract call, where the
/// failure came through every layer in turn: the call failed in its
/// submission, there in the provider, there in the JSON-RPC client, and
/// there in the HTTP transport with a response from the node.
pub open spec fn rpc_error_of(error: GravityError) -> Option<JsonRpcError> {
    match error {
        GravityError::EthersContractError(TransportError::Middleware(provider)) => match *provider {
            TransportError::Provider(client) => match *client {
                TransportError::JsonRpcClient(transport) => match *transport {
                    TransportError::Http(HttpClientError::JsonRpcError(response)) => Some(response),
                    _ => None,
                },
                _ => None,
            },
            _ => None,
        },
        _ => None,
    }
}

/// The text that an error response carries as the data of a reverted
/// execution, as bytes: the response has the code of a reverted execution,
/// and its data is a text.
pub open spec fn response_text(response: JsonRpcError) -> Option<Seq<u8>> {
    if response.code == EXECUTION_REVERTED {
        match response.data {
            Some(RpcErrorData::Text(text)) => Some(encode_utf8(text@)),
            _ => None,
        }
    } else {
        None
    }
}

/// The revert reason that an error response carries, if it carries one: its
/// text is hexadecimal, and the bytes are one of the contract's errors.
pub open spec fn response_reason(response: JsonRpcError) -> Option<GravityContractError> {
    match response_text(response) {
        Some(text) => match hex_decoding(text) {
            Some(data) => decoded_reason(data),
            None => None,
        },
        None => None,
    }
}

/// The revert reason that a failed contract call carries, if it carries
/// one: that of the error response inside it.
pub open spec fn revert_reason(error: GravityError) -> Option<GravityContractError> {
    match rpc_error_of(error) {
        Some(response) => response_reason(response),
        None => None,
    }
}

/// What the relayer does about a failed write.
#[derive(Clone, Copy, Debug, PartialEq, Eq, Structural)]
pub enum ClassifiedFailure {
    /// The action is stale: it is skipped until its effect is seen on the
    /// chain.
    SkipPermanently(GravityContractError),
    /// The contract gave a reason that nothing is done about but a log
    /// entry.
    LoggedUnhandled(GravityContractError),
    /// The failure carries no revert reason.
    Unclassifiable,
}

/// The verdict on a revert reason: a logic call that the contract has
/// already processed, or that is past its timeout, is skipped for good; any
/// other reason is logged; no reason cannot be classified.
pub open spec fn verdict(reason: Option<GravityContractError>) -> ClassifiedFailure {
    match reason {
        Some(GravityContractError::InvalidLogicCallNonce(new_nonce, current_nonce)) => {
            ClassifiedFailure::SkipPermanently(
                GravityContractError::InvalidLogicCallNonce(new_nonce, current_nonce),
            )
        },
        Some(GravityContractError::LogicCallTimedOut) => ClassifiedFailure::SkipPermanently(
            GravityContractError::LogicCallTimedOut,
        ),
        Some(other) => ClassifiedFailure::LoggedUnhandled(other),
        None => ClassifiedFailure::Unclassifiable,
    }
}

/// Finds the JSON-RPC error response inside a failed contract call. A layer
/// that is missing or of another shape gives nothing.
pub fn innermost_rpc_error(error: &GravityError) -> (r: Option<&JsonRpcError>)
    ensures
        r is Some <==> rpc_error_of(*error) is Some,
        r is Some ==> *r->0 == rpc_error_of(*error)->0,
{
    if let GravityError::EthersContractError(TransportError::Middleware(provider)) = error {
        if let TransportError::Provider(client) = &**provider {
            if let TransportError::JsonRpcClient(transport) = &**client {
                if let TransportError::Http(HttpClientError::JsonRpcError(response)) =
                    &**transport {
                    return Some(response);
                }
            }
        }
    }
    None
}

/// Gives the verdict on a revert reason.
pub fn classify_reason(reason: Option<GravityContractError>) -> (r: ClassifiedFailure)
    ensures
        r == verdict(reason),
{
    match reason {
        Some(GravityContractError::InvalidLogicCallNonce(new_nonce, current_nonce)) => {
            ClassifiedFailure::SkipPermanently(
                GravityContractError::InvalidLogicCallNonce(new_nonce, current_nonce),
            )
        },
        Some(GravityContractError::LogicCallTimedOut) => ClassifiedFailure::SkipPermanently(
            GravityContractError::LogicCallTimedOut,
        ),
        Some(other) => ClassifiedFailure::LoggedUnhandled(other),
        None => ClassifiedFailure::Unclassifiable,
    }
}

/// Extracts the contract's revert reason from a failed call. The failure
/// has to have come through every layer down to a JSON-RPC error response,
/// the response has to carry the code of a reverted execution and a text as
/// its data, the text has to be hexadecimal, and the bytes one of the
/// contract's errors. Anything else gives nothing.
pub fn extract_gravity_contract_error(gravity_error: GravityError) -> (r: Option<
    GravityContractError,
>)
    ensures
        r == revert_reason(gravity_error),
{
    reason_in(&gravity_error)
}

/// The revert reason in a failed call that is only borrowed.
fn reason_in(error: &GravityError) -> (r: Option<GravityContractError>)
    ensures
        r == revert_reason(*error),
{
    let response = match innermost_rpc_error(error) {
        Some(response) => response,
        None => {
            return None;
        },
    };
    if response.code != EXECUTION_REVERTED {
        return None;
    }
    if let Some(RpcErrorData::Text(text)) = &response.data {
        match hex_str_to_bytes(text.as_str()) {
            Some(data) => decode_gravity_error(data),
            None => None,
        }
    } else {
        None
    }
}

/// Classifies a failed write. The function is total: a failure of any
/// shape gets a verdict, and one without a revert reason cannot be
/// classified.
pub fn classify(error: &GravityError) -> (r: ClassifiedFailure)
    ensures
        r == verdict(revert_reason(*error)),
{
    classify_reason(reason_in(error))
}

/// Tells whether a failed logic call is to be skipped for good: whether its
/// verdict is `SkipPermanently`.
pub fn handle_contract_error(gravity_error: GravityError) -> (skip: bool)
    ensures
        skip == (verdict(revert_reason(gravity_error)) is SkipPermanently),
{
    match classify(&gravity_error) {
        ClassifiedFailure::SkipPermanently(_) => true,
        _ => false,
    }
}

/// A failed call that went through the submission layer.
pub open spec fn through_middleware(inner: TransportError) -> TransportError {
    TransportError::Middleware(Box::new(inner))
}

/// A failed call that went through the provider layer.
pub open spec fn through_provider(inner: TransportError) -> TransportError {
    TransportError::Provider(Box::new(inner))
}

/// A failed call that went through the JSON-RPC client.
pub open spec fn through_client(inner: TransportError) -> TransportError {
    TransportError::JsonRpcClient(Box::new(inner))
}

/// An error response as it leaves the HTTP transport.
pub open spec fn from_transport(response: JsonRpcError) -> TransportError {
    TransportError::Http(HttpClientError::JsonRpcError(response))
}

/// A failed contract call with an error response that came through every
/// layer in turn.
pub open spec fn nested_failure(response: JsonRpcError) -> GravityError {
    GravityError::EthersContractError(
        through_middleware(through_provider(through_client(from_transport(response)))),
    )
}

/// A failure that came through every layer gets the verdict on the reason
/// that its error response carries: an already processed or timed out logic
/// call is skipped, any other reason of the contract is logged.
pub proof fn lemma_nested_failure_classified(response: JsonRpcError)
    ensures
        revert_reason(nested_failure(response)) == response_reason(response),
        response_reason(response) is Some ==> !(verdict(
            revert_reason(nested_failure(response)),
        ) is Unclassifiable),
        response_reason(response) matches Some(GravityContractError::InvalidLogicCallNonce(_, _))
            ==> verdict(revert_reason(nested_failure(response))) is SkipPermanently,
        response_reason(response) == Some(GravityContractError::LogicCallTimedOut) ==> verdict(
            revert_reason(nested_failure(response)),
        ) is SkipPermanently,
{
}

/// A failure gets a verdict other than `Unclassifiable` only if it is an
/// error response that came through every layer in turn and carries a
/// revert reason.
pub proof fn lemma_classified_shape(error: GravityError)
    requires
        !(verdict(revert_reason(error)) is Unclassifiable),
    ensures
        exists|response: JsonRpcError|
            error == nested_failure(response) && response_reason(response) is Some,
{
    let response = rpc_error_of(error)->0;
    assert(error == nested_failure(response));
}

/// A failure that lacks one of the layers cannot be classified, whatever
/// its error response holds.
pub proof fn lemma_missing_layer_unclassifiable(response: JsonRpcError)
    ensures
        verdict(
            revert_reason(
                GravityError::EthersContractError(
                    through_provider(through_client(from_transport(response))),
                ),
            ),
        ) is Unclassifiable,
        verdict(
            revert_reason(
                GravityError::EthersContractError(
                    through_middleware(through_client(from_transport(response))),
                ),
            ),
        ) is Unclassifiable,
        verdict(
            revert_reason(
                GravityError::EthersContractError(
                    through_middleware(through_provider(from_transport(response))),
                ),
            ),
        ) is Unclassifiable,
        verdict(
            revert_reason(GravityError::EthersContractError(from_transport(response))),
        ) is Unclassifiable,
{
}

/// A failure whose outermost layer, or whose layer at any depth, is of
/// another shape than the one expected there cannot be classified.
pub proof fn lemma_wrong_layer_unclassifiable(inner: TransportError)
    ensures
        !(inner is Middleware) ==> verdict(
            revert_reason(GravityError::EthersContractError(inner)),
        ) is Unclassifiable,
        !(inner is Provider) ==> verdict(
            revert_reason(GravityError::EthersContractError(through_middleware(inner))),
        ) is Unclassifiable,
        !(inner is JsonRpcClient) ==> verdict(
            revert_reason(
                GravityError::EthersContractError(through_middleware(through_provider(inner))),
            ),
        ) is Unclassifiable,
        !(inner is Http) ==> verdict(
            revert_reason(
                GravityError::EthersContractError(
                    through_middleware(through_provider(through_client(inner))),
                ),
            ),
        ) is Unclassifiable,
{
}

} // verus!
