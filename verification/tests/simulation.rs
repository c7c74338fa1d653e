use activate_stylus_program::abi::DecodeError;
use activate_stylus_program::address::{Address, ARB_WASM_ADDRESS};
use activate_stylus_program::error::ActivationError;
use activate_stylus_program::overrides::{fund_caller, simulation_state};
use activate_stylus_program::hexadecimal::decode_revert_payload;
use activate_stylus_program::simulate::{
    build_estimation_call, classify_reply, estimate_activation_data_fee, fee_from_outcome,
    CallOutcome, CallReply, ErrorData,
};
use activate_stylus_program::uint256::U256;
use ethers::abi::Token;
use ethers::types::spoof;

fn return_tuple(version: u64, data_fee: u64) -> Vec<u8> {
    ethers::abi::encode(&[
        Token::Uint(ethers::types::U256::from(version)),
        Token::Uint(ethers::types::U256::from(data_fee)),
    ])
}

fn program() -> Address {
    Address { bytes: [0x11; 20] }
}

#[test]
fn revert_with_hex_data_keeps_the_message() {
    let reply = CallReply::ErrorResponse {
        message: String::from("execution reverted: already activated"),
        data: ErrorData::Text(String::from("0x6f7a11")),
    };
    assert_eq!(
        estimate_activation_data_fee(reply),
        Err(ActivationError::SimulationReverted {
            message: String::from("execution reverted: already activated")
        })
    );
}

#[test]
fn revert_with_hex_data_is_classified_with_its_payload() {
    let reply = CallReply::ErrorResponse {
        message: String::from("execution reverted: already activated"),
        data: ErrorData::Text(String::from("0x6f7a11")),
    };
    assert_eq!(
        classify_reply(reply),
        Ok(CallOutcome::Reverted {
            data: vec![0x6f, 0x7a, 0x11],
            message: String::from("execution reverted: already activated"),
        })
    );
}

#[test]
fn error_data_that_is_no_string_is_malformed() {
    let reply = CallReply::ErrorResponse {
        message: String::from("execution reverted"),
        data: ErrorData::Other(String::from("{\"code\":3}")),
    };
    assert_eq!(
        estimate_activation_data_fee(reply),
        Err(ActivationError::MalformedRpcError { data: String::from("{\"code\":3}") })
    );
}

#[test]
fn error_data_that_is_no_hex_is_malformed() {
    for text in ["0x6f7", "0xzz", "not hex", "0x0x12", "6f 7a", "0X12", "\u{e9}\u{e9}"] {
        let reply = CallReply::ErrorResponse {
            message: String::from("execution reverted"),
            data: ErrorData::Text(String::from(text)),
        };
        assert_eq!(
            estimate_activation_data_fee(reply),
            Err(ActivationError::MalformedRpcError { data: String::from(text) })
        );
    }
}

#[test]
fn error_without_data_is_a_revert_with_an_empty_payload() {
    let reply = CallReply::ErrorResponse {
        message: String::from("execution reverted"),
        data: ErrorData::Absent,
    };
    assert_eq!(
        classify_reply(reply.clone()),
        Ok(CallOutcome::Reverted { data: vec![], message: String::from("execution reverted") })
    );
    assert_eq!(
        estimate_activation_data_fee(reply),
        Err(ActivationError::SimulationReverted { message: String::from("execution reverted") })
    );
}

#[test]
fn successful_call_gives_the_data_fee() {
    let reply = CallReply::Returned(return_tuple(2, 999_000));
    assert_eq!(estimate_activation_data_fee(reply), Ok(U256::from_u64(999_000)));
}

#[test]
fn successful_call_is_classified_with_its_bytes() {
    let bytes = return_tuple(2, 999_000);
    assert_eq!(classify_reply(CallReply::Returned(bytes.clone())), Ok(CallOutcome::Success(bytes)));
}

#[test]
fn successful_call_with_a_short_payload_is_a_decode_error() {
    let reply = CallReply::Returned(vec![0u8; 32]);
    assert_eq!(
        estimate_activation_data_fee(reply),
        Err(ActivationError::DecodeError(DecodeError::Truncated))
    );
    assert_eq!(
        fee_from_outcome(CallOutcome::Success(vec![0xff; 64])),
        Err(ActivationError::DecodeError(DecodeError::BadPadding))
    );
}

#[test]
fn transport_failure_is_passed_on() {
    let reply = CallReply::TransportFailure { detail: String::from("connection refused") };
    let error = estimate_activation_data_fee(reply).unwrap_err();
    assert_eq!(error, ActivationError::TransportError { detail: String::from("connection refused") });
    assert!(error.is_retryable());
}

#[test]
fn only_transport_failures_are_retryable() {
    assert!(!ActivationError::MalformedRpcError { data: String::new() }.is_retryable());
    assert!(!ActivationError::SimulationReverted { message: String::new() }.is_retryable());
    assert!(!ActivationError::DecodeError(DecodeError::Truncated).is_retryable());
    assert!(!ActivationError::ActivationNotConfirmed.is_retryable());
    assert!(ActivationError::TransportError { detail: String::new() }.is_retryable());
}

#[test]
fn revert_payload_is_read_from_hex() {
    assert_eq!(decode_revert_payload("0x"), Some(vec![]));
    assert_eq!(decode_revert_payload(""), Some(vec![]));
    assert_eq!(decode_revert_payload("0x00ff"), Some(vec![0x00, 0xff]));
    assert_eq!(decode_revert_payload("00ff"), Some(vec![0x00, 0xff]));
    assert_eq!(decode_revert_payload("0xAbCdEf0123456789"), hex::decode("abcdef0123456789").ok());
    assert_eq!(decode_revert_payload("0x0"), None);
    assert_eq!(decode_revert_payload("0xg0"), None);
    assert_eq!(decode_revert_payload("x0"), None);
}

#[test]
fn estimation_call_goes_to_the_precompile_with_one_ether() {
    let call = build_estimation_call(&program());
    assert_eq!(call.from, None);
    assert_eq!(call.to, Address::arb_wasm());
    assert_eq!(call.to.bytes, ARB_WASM_ADDRESS);
    assert_eq!(
        ethers::types::H160(call.to.bytes),
        "0x0000000000000000000000000000000000000071".parse::<ethers::types::H160>().unwrap()
    );
    let one_ether: ethers::types::U256 = ethers::utils::parse_units("1", "ether").unwrap().into();
    assert_eq!(ethers::types::U256(call.value.limbs), one_ether);
    assert_eq!(call.value, U256::from_u64(1_000_000_000_000_000_000));
    let mut data = vec![0x58, 0xc7, 0x80, 0xc2];
    data.extend([0u8; 12]);
    data.extend([0x11u8; 20]);
    assert_eq!(call.data, data);
}

#[test]
fn simulation_state_overrides_code_and_balance() {
    let code = vec![0xef, 0xf0, 0x00, 0x01];
    let state = simulation_state(&program(), &code);
    let mut expected = spoof::code(ethers::types::H160([0x11; 20]), ethers::types::Bytes::from(code));
    expected.account(ethers::types::H160::zero()).balance = Some(ethers::types::U256::MAX);
    assert_eq!(state, expected);
    assert_ne!(state, spoof::state());
}

#[test]
fn simulation_state_for_the_zero_address_is_one_account() {
    let code = vec![1, 2, 3];
    let state = simulation_state(&Address::zero(), &code);
    let mut expected = spoof::state();
    expected
        .account(ethers::types::H160::zero())
        .code(ethers::types::Bytes::from(code))
        .balance(ethers::types::U256::MAX);
    assert_eq!(state, expected);
}

#[test]
fn funding_the_caller_keeps_what_is_overridden() {
    let other = ethers::types::H160([0x22; 20]);
    let mut state = spoof::nonce(other, 7u64.into());
    state.account(ethers::types::H160::zero()).nonce(9u64.into()).balance(5u64.into());
    fund_caller(&mut state);
    let mut expected = spoof::nonce(other, 7u64.into());
    expected.account(ethers::types::H160::zero()).nonce(9u64.into()).balance(ethers::types::U256::MAX);
    assert_eq!(state, expected);
}
