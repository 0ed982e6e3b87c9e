use ethereum_gravity::contract_error::{
    classify, classify_reason, decode_gravity_error, extract_gravity_contract_error,
    handle_contract_error, hex_str_to_bytes, innermost_rpc_error, ClassifiedFailure,
    ContractErrorKind, GravityContractError, EXECUTION_REVERTED, KIND_COUNT,
};
use ethereum_gravity::error::{
    GravityError, HttpClientError, JsonRpcError, RpcErrorData, TransportError,
};
use ethereum_gravity::hash::selector_of;
use ethereum_gravity::uint::RawChainInteger;

fn to_hex(bytes: &[u8]) -> String {
    let mut text = String::from("0x");
    for byte in bytes {
        text.push_str(&format!("{:02x}", byte));
    }
    text
}

fn word_of(value: u64) -> Vec<u8> {
    let mut word = vec![0u8; 24];
    word.extend_from_slice(&value.to_be_bytes());
    word
}

fn revert_data(signature: &str, arguments: &[u64]) -> Vec<u8> {
    let mut data = selector_of(signature).to_vec();
    for argument in arguments {
        data.extend(word_of(*argument));
    }
    data
}

fn response(code: i64, data: Option<RpcErrorData>) -> JsonRpcError {
    JsonRpcError { code, message: "execution reverted".to_string(), data }
}

fn http(response: JsonRpcError) -> TransportError {
    TransportError::Http(HttpClientError::JsonRpcError(response))
}

fn nested(response: JsonRpcError) -> GravityError {
    GravityError::EthersContractError(TransportError::Middleware(Box::new(
        TransportError::Provider(Box::new(TransportError::JsonRpcClient(Box::new(http(response))))),
    )))
}

fn reverted_with(data: &[u8]) -> JsonRpcError {
    response(EXECUTION_REVERTED, Some(RpcErrorData::Text(to_hex(data))))
}

fn already_processed() -> Vec<u8> {
    revert_data("InvalidLogicCallNonce(uint256,uint256)", &[5, 7])
}

fn nonce_error() -> GravityContractError {
    GravityContractError::InvalidLogicCallNonce(RawChainInteger::from_u64(5), RawChainInteger::from_u64(7))
}

#[test]
fn already_processed_call_is_skipped() {
    let error = nested(reverted_with(&already_processed()));
    assert_eq!(classify(&error), ClassifiedFailure::SkipPermanently(nonce_error()));
    assert!(handle_contract_error(error));
}

#[test]
fn timed_out_call_is_skipped() {
    let error = nested(reverted_with(&revert_data("LogicCallTimedOut()", &[])));
    assert_eq!(classify(&error), ClassifiedFailure::SkipPermanently(GravityContractError::LogicCallTimedOut));
    assert!(handle_contract_error(error));
}

#[test]
fn other_reasons_are_logged() {
    let error = nested(reverted_with(&revert_data("InvalidSignature()", &[])));
    assert_eq!(classify(&error), ClassifiedFailure::LoggedUnhandled(GravityContractError::InvalidSignature));
    assert!(!handle_contract_error(error));
    let error = nested(reverted_with(&revert_data("InvalidBatchNonce(uint256,uint256)", &[1, 2])));
    assert_eq!(
        classify(&error),
        ClassifiedFailure::LoggedUnhandled(GravityContractError::InvalidBatchNonce(
            RawChainInteger::from_u64(1),
            RawChainInteger::from_u64(2)
        ))
    );
    assert!(!handle_contract_error(error));
}

#[test]
fn missing_submission_layer_is_unclassifiable() {
    let error = GravityError::EthersContractError(TransportError::Provider(Box::new(
        TransportError::JsonRpcClient(Box::new(http(reverted_with(&already_processed())))),
    )));
    assert_eq!(classify(&error), ClassifiedFailure::Unclassifiable);
    assert!(!handle_contract_error(error));
}

#[test]
fn missing_provider_layer_is_unclassifiable() {
    let error = GravityError::EthersContractError(TransportError::Middleware(Box::new(
        TransportError::JsonRpcClient(Box::new(http(reverted_with(&already_processed())))),
    )));
    assert_eq!(classify(&error), ClassifiedFailure::Unclassifiable);
    assert_eq!(extract_gravity_contract_error(error), None);
}

#[test]
fn missing_client_layer_is_unclassifiable() {
    let error = GravityError::EthersContractError(TransportError::Middleware(Box::new(
        TransportError::Provider(Box::new(http(reverted_with(&already_processed())))),
    )));
    assert_eq!(classify(&error), ClassifiedFailure::Unclassifiable);
    assert_eq!(extract_gravity_contract_error(error), None);
}

#[test]
fn missing_transport_layer_is_unclassifiable() {
    let error = GravityError::EthersContractError(TransportError::Middleware(Box::new(
        TransportError::Provider(Box::new(TransportError::JsonRpcClient(Box::new(
            TransportError::Other("no response".to_string()),
        )))),
    )));
    assert_eq!(classify(&error), ClassifiedFailure::Unclassifiable);
    let error = nested_http_other();
    assert_eq!(classify(&error), ClassifiedFailure::Unclassifiable);
}

fn nested_http_other() -> GravityError {
    GravityError::EthersContractError(TransportError::Middleware(Box::new(
        TransportError::Provider(Box::new(TransportError::JsonRpcClient(Box::new(
            TransportError::Http(HttpClientError::Other("timeout".to_string())),
        )))),
    )))
}

#[test]
fn a_layer_too_many_is_unclassifiable() {
    let error = GravityError::EthersContractError(TransportError::Middleware(Box::new(
        TransportError::Middleware(Box::new(TransportError::Provider(Box::new(
            TransportError::JsonRpcClient(Box::new(http(reverted_with(&already_processed())))),
        )))),
    )));
    assert_eq!(classify(&error), ClassifiedFailure::Unclassifiable);
}

#[test]
fn failures_that_are_no_contract_call_are_unclassifiable() {
    assert_eq!(classify(&GravityError::CosmosBadResponse), ClassifiedFailure::Unclassifiable);
    assert_eq!(classify(&GravityError::CosmosGrpcError("down".to_string())), ClassifiedFailure::Unclassifiable);
    assert!(!handle_contract_error(GravityError::InvalidInvalidationId(3)));
}

#[test]
fn another_code_is_unclassifiable() {
    let data = Some(RpcErrorData::Text(to_hex(&already_processed())));
    assert_eq!(classify(&nested(response(-32000, data.clone()))), ClassifiedFailure::Unclassifiable);
    assert_eq!(classify(&nested(response(0, data))), ClassifiedFailure::Unclassifiable);
}

#[test]
fn data_that_is_no_text_is_unclassifiable() {
    assert_eq!(classify(&nested(response(EXECUTION_REVERTED, None))), ClassifiedFailure::Unclassifiable);
    assert_eq!(
        classify(&nested(response(EXECUTION_REVERTED, Some(RpcErrorData::Other)))),
        ClassifiedFailure::Unclassifiable
    );
}

#[test]
fn text_that_is_no_hex_is_unclassifiable() {
    let error = nested(response(EXECUTION_REVERTED, Some(RpcErrorData::Text("0xnothex".to_string()))));
    assert_eq!(classify(&error), ClassifiedFailure::Unclassifiable);
    let error = nested(response(EXECUTION_REVERTED, Some(RpcErrorData::Text("0xabc".to_string()))));
    assert_eq!(classify(&error), ClassifiedFailure::Unclassifiable);
}

#[test]
fn hex_of_an_unknown_error_is_unclassifiable() {
    let error = nested(reverted_with(&revert_data("Error(string)", &[32, 0])));
    assert_eq!(classify(&error), ClassifiedFailure::Unclassifiable);
    let error = nested(reverted_with(&[]));
    assert_eq!(classify(&error), ClassifiedFailure::Unclassifiable);
}

#[test]
fn hex_without_prefix_is_decoded_too() {
    let text = to_hex(&already_processed())[2..].to_string();
    let error = nested(response(EXECUTION_REVERTED, Some(RpcErrorData::Text(text))));
    assert_eq!(extract_gravity_contract_error(error), Some(nonce_error()));
}

#[test]
fn extract_finds_the_reason() {
    assert_eq!(extract_gravity_contract_error(nested(reverted_with(&already_processed()))), Some(nonce_error()));
    assert_eq!(extract_gravity_contract_error(GravityError::CosmosBadResponse), None);
}

#[test]
fn innermost_response_is_found_through_all_layers() {
    let error = nested(reverted_with(&already_processed()));
    assert_eq!(innermost_rpc_error(&error), Some(&reverted_with(&already_processed())));
    assert_eq!(innermost_rpc_error(&nested_http_other()), None);
}

#[test]
fn verdict_on_each_reason() {
    assert_eq!(classify_reason(None), ClassifiedFailure::Unclassifiable);
    assert_eq!(classify_reason(Some(nonce_error())), ClassifiedFailure::SkipPermanently(nonce_error()));
    assert_eq!(
        classify_reason(Some(GravityContractError::LogicCallTimedOut)),
        ClassifiedFailure::SkipPermanently(GravityContractError::LogicCallTimedOut)
    );
    assert_eq!(
        classify_reason(Some(GravityContractError::BatchTimedOut)),
        ClassifiedFailure::LoggedUnhandled(GravityContractError::BatchTimedOut)
    );
    assert_eq!(
        classify_reason(Some(GravityContractError::InvalidValsetNonce(
            RawChainInteger::from_u64(1),
            RawChainInteger::from_u64(1)
        ))),
        ClassifiedFailure::LoggedUnhandled(GravityContractError::InvalidValsetNonce(
            RawChainInteger::from_u64(1),
            RawChainInteger::from_u64(1)
        ))
    );
}

#[test]
fn decode_each_error_without_arguments() {
    let cases = [
        ("BatchTimedOut()", GravityContractError::BatchTimedOut),
        ("IncorrectCheckpoint()", GravityContractError::IncorrectCheckpoint),
        ("InvalidLogicCallFees()", GravityContractError::InvalidLogicCallFees),
        ("InvalidLogicCallTransfers()", GravityContractError::InvalidLogicCallTransfers),
        ("InvalidSendToCosmos()", GravityContractError::InvalidSendToCosmos),
        ("InvalidSignature()", GravityContractError::InvalidSignature),
        ("LogicCallTimedOut()", GravityContractError::LogicCallTimedOut),
        ("MalformedBatch()", GravityContractError::MalformedBatch),
        ("MalformedCurrentValidatorSet()", GravityContractError::MalformedCurrentValidatorSet),
        ("MalformedNewValidatorSet()", GravityContractError::MalformedNewValidatorSet),
    ];
    for (signature, expected) in cases {
        assert_eq!(decode_gravity_error(revert_data(signature, &[])), Some(expected));
    }
}

#[test]
fn decode_each_error_with_arguments() {
    let first = RawChainInteger::from_u64(11);
    let second = RawChainInteger::from_u64(u64::MAX);
    let arguments = [11, u64::MAX];
    assert_eq!(
        decode_gravity_error(revert_data("InsufficientPower(uint256,uint256)", &arguments)),
        Some(GravityContractError::InsufficientPower(first, second))
    );
    assert_eq!(
        decode_gravity_error(revert_data("InvalidBatchNonce(uint256,uint256)", &arguments)),
        Some(GravityContractError::InvalidBatchNonce(first, second))
    );
    assert_eq!(
        decode_gravity_error(revert_data("InvalidLogicCallNonce(uint256,uint256)", &arguments)),
        Some(GravityContractError::InvalidLogicCallNonce(first, second))
    );
    assert_eq!(
        decode_gravity_error(revert_data("InvalidValsetNonce(uint256,uint256)", &arguments)),
        Some(GravityContractError::InvalidValsetNonce(first, second))
    );
}

#[test]
fn decode_reads_arguments_beyond_64_bits() {
    let mut data = selector_of("InsufficientPower(uint256,uint256)").to_vec();
    let mut first = vec![0u8; 32];
    first[0] = 0x80;
    data.extend(first);
    data.extend(word_of(3));
    assert_eq!(
        decode_gravity_error(data),
        Some(GravityContractError::InsufficientPower(
            RawChainInteger { limb0: 0, limb1: 0, limb2: 0, limb3: 1 << 63 },
            RawChainInteger::from_u64(3)
        ))
    );
}

#[test]
fn decode_refuses_what_is_no_error_of_the_contract() {
    assert_eq!(decode_gravity_error(vec![]), None);
    assert_eq!(decode_gravity_error(vec![1, 2, 3]), None);
    assert_eq!(decode_gravity_error(vec![0, 0, 0, 0]), None);
    assert_eq!(decode_gravity_error(revert_data("Error(string)", &[])), None);
}

#[test]
fn decode_refuses_arguments_cut_short() {
    let mut data = revert_data("InvalidLogicCallNonce(uint256,uint256)", &[5, 7]);
    data.pop();
    assert_eq!(decode_gravity_error(data), None);
    assert_eq!(decode_gravity_error(revert_data("InvalidLogicCallNonce(uint256,uint256)", &[5])), None);
    assert_eq!(decode_gravity_error(revert_data("InvalidLogicCallNonce(uint256,uint256)", &[])), None);
}

#[test]
fn decode_passes_over_bytes_behind_the_arguments() {
    let mut data = revert_data("InvalidLogicCallNonce(uint256,uint256)", &[5, 7]);
    data.push(0xaa);
    assert_eq!(decode_gravity_error(data), Some(nonce_error()));
    let mut data = revert_data("MalformedBatch()", &[]);
    data.extend_from_slice(&[1, 2, 3]);
    assert_eq!(decode_gravity_error(data), Some(GravityContractError::MalformedBatch));
}

#[test]
fn kinds_in_their_order() {
    assert_eq!(KIND_COUNT, 14);
    assert_eq!(ContractErrorKind::from_index(0), ContractErrorKind::BatchTimedOut);
    assert_eq!(ContractErrorKind::from_index(5), ContractErrorKind::InvalidLogicCallNonce);
    assert_eq!(ContractErrorKind::from_index(13), ContractErrorKind::MalformedNewValidatorSet);
    assert_eq!(ContractErrorKind::InvalidValsetNonce.signature_text(), "InvalidValsetNonce(uint256,uint256)");
    assert!(ContractErrorKind::InsufficientPower.carries_arguments());
    assert!(!ContractErrorKind::LogicCallTimedOut.carries_arguments());
}

#[test]
fn hex_text_in_either_case() {
    assert_eq!(hex_str_to_bytes("0x0aFf"), Some(vec![0x0a, 0xff]));
    assert_eq!(hex_str_to_bytes("0AfF"), Some(vec![0x0a, 0xff]));
    assert_eq!(hex_str_to_bytes("00010203090a0f10"), Some(vec![0, 1, 2, 3, 9, 10, 15, 16]));
    assert_eq!(hex_str_to_bytes("ABCDEF"), Some(vec![0xab, 0xcd, 0xef]));
}

#[test]
fn hex_text_that_is_empty() {
    assert_eq!(hex_str_to_bytes(""), Some(vec![]));
    assert_eq!(hex_str_to_bytes("0x"), Some(vec![]));
}

#[test]
fn hex_text_that_is_refused() {
    assert_eq!(hex_str_to_bytes("abc"), None);
    assert_eq!(hex_str_to_bytes("0xabc"), None);
    assert_eq!(hex_str_to_bytes("zz"), None);
    assert_eq!(hex_str_to_bytes("0g"), None);
    assert_eq!(hex_str_to_bytes("g0"), None);
    assert_eq!(hex_str_to_bytes("0X00"), None);
    assert_eq!(hex_str_to_bytes("+f"), None);
    assert_eq!(hex_str_to_bytes("a b0"), None);
    assert_eq!(hex_str_to_bytes("\u{e4}\u{e4}"), None);
    assert_eq!(hex_str_to_bytes("0x0x"), None);
    assert_eq!(hex_str_to_bytes("/0"), None);
    assert_eq!(hex_str_to_bytes(":0"), None);
    assert_eq!(hex_str_to_bytes("@0"), None);
    assert_eq!(hex_str_to_bytes("G0"), None);
    assert_eq!(hex_str_to_bytes("`0"), None);
}
