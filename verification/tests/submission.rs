use activate_stylus_program::address::Address;
use activate_stylus_program::config::CommonConfig;
use activate_stylus_program::error::ActivationError;
use activate_stylus_program::hexadecimal::decode_revert_payload;
use activate_stylus_program::simulate::{estimate_activation_data_fee, CallReply};
use activate_stylus_program::submit::{
    build_activation_transaction, SubmitAction, SubmitEvent, Submission, Transaction, TxHash,
};
use activate_stylus_program::uint256::U256;
use ethers::abi::Token;

fn program() -> Address {
    Address { bytes: [0x33; 20] }
}

fn sender() -> Address {
    Address { bytes: [0x44; 20] }
}

fn built() -> Submission {
    Submission::new(&program(), U256::from_u64(1200), &sender())
}

fn hash() -> TxHash {
    let mut bytes = [0u8; 32];
    for (i, b) in bytes.iter_mut().enumerate() {
        *b = (i * 8 + 1) as u8;
    }
    TxHash { bytes }
}

fn expected_transaction(value: u64) -> Transaction {
    let mut data = vec![0x58, 0xc7, 0x80, 0xc2];
    data.extend([0u8; 12]);
    data.extend([0x33u8; 20]);
    Transaction { from: sender(), to: Address::arb_wasm(), value: U256::from_u64(value), data }
}

#[test]
fn estimate_of_one_thousand_bumped_by_twenty_pays_twelve_hundred() {
    let cfg = CommonConfig {
        private_key: String::from("key"),
        endpoint: String::from("http://localhost:8547"),
        address: program(),
        bump_fee_percent: Some(20),
    };
    let reply = CallReply::Returned(ethers::abi::encode(&[
        Token::Uint(ethers::types::U256::from(1u64)),
        Token::Uint(ethers::types::U256::from(1000u64)),
    ]));
    let estimate = estimate_activation_data_fee(reply).unwrap();
    assert_eq!(estimate, U256::from_u64(1000));
    assert_eq!(cfg.data_fee_to_pay(estimate), Some(U256::from_u64(1200)));
    match cfg.submission(estimate, &sender()) {
        Some(Submission::Built(tx)) => {
            assert_eq!(tx.value, U256::from_u64(1200));
            assert_eq!(tx, expected_transaction(1200));
        }
        other => panic!("not built: {:?}", other),
    }
}

#[test]
fn submission_is_not_planned_for_a_fee_out_of_range() {
    let cfg = CommonConfig {
        private_key: String::from("key"),
        endpoint: String::from("http://localhost:8547"),
        address: program(),
        bump_fee_percent: Some(1),
    };
    assert_eq!(cfg.submission(U256::max_value(), &sender()), None);
    let plain = CommonConfig { bump_fee_percent: None, ..cfg };
    assert_eq!(
        plain.submission(U256::max_value(), &sender()),
        Some(Submission::new(&program(), U256::max_value(), &sender()))
    );
}

#[test]
fn transaction_pays_the_fee_to_the_precompile() {
    let tx = build_activation_transaction(&program(), U256::from_u64(5), &sender());
    assert_eq!(tx, expected_transaction(5));
    assert_eq!(tx.to.bytes[19], 0x71);
    assert_eq!(&tx.to.bytes[..19], &[0u8; 19]);
}

#[test]
fn submission_that_is_confirmed() {
    let state = built();
    assert_eq!(state, Submission::Built(expected_transaction(1200)));
    assert_eq!(state.action(), SubmitAction::Send);
    assert_eq!(state.clone().result(), None);
    let state = state.advance(SubmitEvent::Sent);
    assert_eq!(state, Submission::Submitted);
    assert_eq!(state.action(), SubmitAction::AwaitReceipt);
    assert_eq!(state.clone().result(), None);
    let state = state.advance(SubmitEvent::Receipt(Some(hash())));
    assert_eq!(state, Submission::Confirmed { tx_hash: hash() });
    assert_eq!(state.action(), SubmitAction::Stop);
    assert_eq!(state.result(), Some(Ok(hash())));
}

#[test]
fn submission_without_a_receipt() {
    let state = built().advance(SubmitEvent::Sent).advance(SubmitEvent::Receipt(None));
    assert_eq!(state, Submission::NotConfirmed);
    assert_eq!(state.action(), SubmitAction::Stop);
    assert_eq!(state.result(), Some(Err(ActivationError::ActivationNotConfirmed)));
}

#[test]
fn submission_that_fails_while_sending() {
    let state = built().advance(SubmitEvent::Failed { detail: String::from("nonce too low") });
    assert_eq!(state, Submission::TransportFailed { detail: String::from("nonce too low") });
    assert_eq!(state.action(), SubmitAction::Stop);
    assert_eq!(
        state.result(),
        Some(Err(ActivationError::TransportError { detail: String::from("nonce too low") }))
    );
}

#[test]
fn submission_that_fails_while_waiting() {
    let state = built()
        .advance(SubmitEvent::Sent)
        .advance(SubmitEvent::Failed { detail: String::from("timed out") });
    assert_eq!(state, Submission::TransportFailed { detail: String::from("timed out") });
}

#[test]
fn submission_that_has_ended_stays_as_it_is() {
    let ended = [
        Submission::Confirmed { tx_hash: hash() },
        Submission::NotConfirmed,
        Submission::TransportFailed { detail: String::from("gone") },
    ];
    let events = [
        SubmitEvent::Sent,
        SubmitEvent::Receipt(None),
        SubmitEvent::Receipt(Some(TxHash { bytes: [9; 32] })),
        SubmitEvent::Failed { detail: String::from("again") },
    ];
    for state in ended.iter() {
        for event in events.iter() {
            assert_eq!(state.clone().advance(event.clone()), state.clone());
        }
    }
}

#[test]
fn submission_ignores_what_it_does_not_wait_for() {
    let state = built().advance(SubmitEvent::Receipt(Some(hash())));
    assert_eq!(state, built());
    let state = state.advance(SubmitEvent::Sent).advance(SubmitEvent::Sent);
    assert_eq!(state, Submission::Submitted);
}

#[test]
fn hash_is_reported_in_hex() {
    let text = hash().to_hex();
    assert_eq!(text, "0109111921293139414951596169717981899199a1a9b1b9c1c9d1d9e1e9f1f9");
    assert_eq!(hex::decode(&text).unwrap(), hash().bytes.to_vec());
    assert_eq!(decode_revert_payload(&text), Some(hash().bytes.to_vec()));
    assert_eq!(TxHash { bytes: [0xab; 32] }.to_hex(), "ab".repeat(32));
}
