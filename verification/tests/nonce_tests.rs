use ethereum_gravity::error::{ErrorKind, GravityError, NonceKind, TransportError};
use ethereum_gravity::hash::selector_of;
use ethereum_gravity::nonce::{
    decode_reply, get_event_nonce, get_logic_call_nonce, get_tx_batch_nonce, get_valset_nonce,
    read_nonce, read_simulated_nonce, NonceScope,
};
use ethereum_gravity::uint::RawChainInteger;

fn two_to_64() -> RawChainInteger {
    RawChainInteger { limb0: 0, limb1: 1, limb2: 0, limb3: 0 }
}

fn failed_call() -> GravityError {
    GravityError::EthersContractError(TransportError::Other("connection refused".to_string()))
}

#[test]
fn nonces_within_64_bits_come_through() {
    assert_eq!(get_valset_nonce(Ok(RawChainInteger::from_u64(0))), Ok(0));
    assert_eq!(get_tx_batch_nonce(Ok(RawChainInteger::from_u64(17))), Ok(17));
    assert_eq!(get_logic_call_nonce(Ok(RawChainInteger::from_u64(1 << 40))), Ok(1 << 40));
    assert_eq!(get_event_nonce(Ok(RawChainInteger::from_u64(u64::MAX))), Ok(u64::MAX));
}

#[test]
fn a_nonce_beyond_64_bits_is_an_overflow_of_its_kind() {
    assert_eq!(
        get_valset_nonce(Ok(two_to_64())),
        Err(GravityError::NonceOverflow(NonceKind::Valset, two_to_64()))
    );
    assert_eq!(
        get_tx_batch_nonce(Ok(two_to_64())),
        Err(GravityError::NonceOverflow(NonceKind::TxBatch, two_to_64()))
    );
    assert_eq!(
        get_logic_call_nonce(Ok(two_to_64())),
        Err(GravityError::NonceOverflow(NonceKind::LogicCall, two_to_64()))
    );
    assert_eq!(
        get_event_nonce(Ok(two_to_64())),
        Err(GravityError::NonceOverflow(NonceKind::Event, two_to_64()))
    );
}

#[test]
fn a_failed_call_is_passed_on() {
    assert_eq!(get_valset_nonce(Err(failed_call())), Err(failed_call()));
    assert_eq!(read_nonce(NonceKind::Event, Err(GravityError::CosmosBadResponse)), Err(GravityError::CosmosBadResponse));
}

#[test]
fn overflow_is_told_apart_from_a_failed_call() {
    let overflow = get_event_nonce(Ok(two_to_64())).unwrap_err();
    let failure = get_event_nonce(Err(failed_call())).unwrap_err();
    assert_eq!(overflow.kind(), ErrorKind::FatalInvariant);
    assert_eq!(failure.kind(), ErrorKind::TransientIo);
    assert_ne!(overflow, failure);
}

#[test]
fn decode_reply_reads_the_first_word() {
    let mut reply = vec![0u8; 32];
    reply[31] = 42;
    assert_eq!(decode_reply(reply.clone()), Ok(RawChainInteger::from_u64(42)));
    reply.extend_from_slice(&[0xff; 32]);
    assert_eq!(decode_reply(reply), Ok(RawChainInteger::from_u64(42)));
}

#[test]
fn decode_reply_refuses_a_short_reply() {
    assert_eq!(decode_reply(vec![]), Err(GravityError::InvalidCallReply(vec![])));
    assert_eq!(decode_reply(vec![1; 31]), Err(GravityError::InvalidCallReply(vec![1; 31])));
}

#[test]
fn decode_then_read_overflows_on_a_large_word() {
    let mut reply = vec![0u8; 32];
    reply[23] = 1;
    let raw = decode_reply(reply).unwrap();
    assert_eq!(raw, two_to_64());
    assert_eq!(
        read_nonce(NonceKind::Valset, Ok(raw)),
        Err(GravityError::NonceOverflow(NonceKind::Valset, two_to_64()))
    );
}

#[test]
fn payload_without_arguments_is_the_selector() {
    assert_eq!(NonceScope::ValidatorSet.call_payload(), selector_of("state_lastValsetNonce()").to_vec());
    assert_eq!(NonceScope::Event.call_payload(), selector_of("state_lastEventNonce()").to_vec());
    assert_ne!(NonceScope::ValidatorSet.call_payload(), NonceScope::Event.call_payload());
}

#[test]
fn payload_of_a_batch_pads_the_token_address() {
    let payload = NonceScope::TransactionBatch([0xab; 20]).call_payload();
    let mut expected = selector_of("lastBatchNonce(address)").to_vec();
    expected.extend_from_slice(&[0u8; 12]);
    expected.extend_from_slice(&[0xab; 20]);
    assert_eq!(payload, expected);
    assert_eq!(payload.len(), 36);
}

#[test]
fn payload_of_a_logic_call_carries_the_invalidation_id() {
    let mut id = [0u8; 32];
    for (i, byte) in id.iter_mut().enumerate() {
        *byte = i as u8;
    }
    let payload = NonceScope::LogicCall(id).call_payload();
    let mut expected = selector_of("lastLogicCallNonce(bytes32)").to_vec();
    expected.extend_from_slice(&id);
    assert_eq!(payload, expected);
}

#[test]
fn logic_call_scope_takes_32_bytes() {
    assert_eq!(NonceScope::logic_call(&vec![7u8; 32]), Ok(NonceScope::LogicCall([7u8; 32])));
    assert_eq!(NonceScope::logic_call(&vec![7u8; 31]), Err(GravityError::InvalidInvalidationId(31)));
    assert_eq!(NonceScope::logic_call(&vec![7u8; 33]), Err(GravityError::InvalidInvalidationId(33)));
    assert_eq!(NonceScope::logic_call(&vec![]), Err(GravityError::InvalidInvalidationId(0)));
}

#[test]
fn scopes_name_their_counter() {
    assert_eq!(NonceScope::ValidatorSet.nonce_kind(), NonceKind::Valset);
    assert_eq!(NonceScope::TransactionBatch([1; 20]).nonce_kind(), NonceKind::TxBatch);
    assert_eq!(NonceScope::LogicCall([1; 32]).nonce_kind(), NonceKind::LogicCall);
    assert_eq!(NonceScope::Event.nonce_kind(), NonceKind::Event);
}

#[test]
fn selector_of_known_signatures() {
    assert_eq!(selector_of("transfer(address,uint256)"), [0xa9, 0x05, 0x9c, 0xbb]);
    assert_eq!(selector_of("balanceOf(address)"), [0x70, 0xa0, 0x82, 0x31]);
    assert_eq!(selector_of("symbol()"), [0x95, 0xd8, 0x9b, 0x41]);
}

#[test]
fn simulated_reply_gives_the_counter() {
    let mut reply = vec![0u8; 32];
    reply[30] = 1;
    reply[31] = 2;
    assert_eq!(read_simulated_nonce(&NonceScope::Event, Ok(reply.clone())), Ok(258));
    assert_eq!(
        read_simulated_nonce(&NonceScope::Event, Ok(reply.clone())),
        get_event_nonce(decode_reply(reply))
    );
}

#[test]
fn simulated_reply_overflows_like_the_typed_call() {
    let mut reply = vec![0u8; 32];
    reply[0] = 0xff;
    let scope = NonceScope::TransactionBatch([3; 20]);
    let expected = RawChainInteger { limb0: 0, limb1: 0, limb2: 0, limb3: 0xff00_0000_0000_0000 };
    assert_eq!(
        read_simulated_nonce(&scope, Ok(reply)),
        Err(GravityError::NonceOverflow(NonceKind::TxBatch, expected))
    );
}

#[test]
fn simulated_reply_that_is_short_or_failed() {
    assert_eq!(
        read_simulated_nonce(&NonceScope::ValidatorSet, Ok(vec![9; 5])),
        Err(GravityError::InvalidCallReply(vec![9; 5]))
    );
    assert_eq!(read_simulated_nonce(&NonceScope::ValidatorSet, Err(failed_call())), Err(failed_call()));
}

#[test]
fn selectors_of_the_contract_reads() {
    assert_eq!(NonceScope::ValidatorSet.call_payload(), vec![0xb5, 0x65, 0x61, 0xfe]);
    assert_eq!(selector_of("state_gravityId()"), [0xbd, 0xda, 0x81, 0xd4]);
    assert_eq!(selector_of("InvalidLogicCallNonce(uint256,uint256)"), [0x01, 0x28, 0x4f, 0xd2]);
    assert_eq!(selector_of(""), [0xc5, 0xd2, 0x46, 0x01]);
}
