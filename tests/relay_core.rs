use relayer::abi::{encode_call, encode_with_selector, EncodingError, MethodDescriptor, ParamType, Token};
use relayer::nonce::{ContextError, NonceTracker};
use relayer::relay::{
    backoff_delay, classify_lowered, classify_rejection, find_bytes, Action, Failure, Phase, ReceiptStatus, RejectReason, Relay, RetryPolicy, Stage,
    SubmissionOutcome,
};
use relayer::tx::{build_transaction, bump_fee, BuildError, FeeParams, SignedTransaction};

fn transfer() -> MethodDescriptor {
    MethodDescriptor { name: b"transfer".to_vec(), inputs: vec![ParamType::Address, ParamType::Uint(256)] }
}

fn addr() -> Vec<u8> {
    let mut a = vec![0u8; 20];
    a[0] = 0xAB;
    a[1] = 0xCD;
    a[18] = 0x12;
    a[19] = 0x34;
    a
}

fn policy() -> RetryPolicy {
    RetryPolicy {
        max_attempts: 3,
        max_resubmits: 3,
        max_polls: 4,
        fee_bump_percent: 10,
        base_delay_ms: 100,
        max_delay_ms: 1000,
    }
}

fn fee() -> FeeParams {
    FeeParams { gas_limit: 21000, gas_price: 1000 }
}

fn signed(tag: u8) -> SignedTransaction {
    SignedTransaction { raw: vec![tag, 1, 2], hash: vec![tag; 32] }
}

fn started(tracker: &mut NonceTracker, count: u64) -> (Relay, Action) {
    let (mut relay, first) = Relay::new(
        addr(),
        &transfer(),
        &vec![Token::Address(addr()), Token::Uint(1000)],
        Some(fee()),
        policy(),
    );
    assert!(matches!(first, Action::FetchContext { delay_ms: 0 }));
    let action = relay.on_context(tracker, Some((1, count)), None);
    (relay, action)
}

#[test]
fn signature_text() {
    assert_eq!(transfer().signature(), b"transfer(address,uint256)".to_vec());
    let m = MethodDescriptor {
        name: b"f".to_vec(),
        inputs: vec![ParamType::Bool, ParamType::FixedBytes(4), ParamType::Uint(8)],
    };
    assert_eq!(m.signature(), b"f(bool,bytes4,uint8)".to_vec());
    let none = MethodDescriptor { name: b"g".to_vec(), inputs: vec![] };
    assert_eq!(none.signature(), b"g()".to_vec());
}

#[test]
fn transfer_selector() {
    assert_eq!(transfer().selector(), [0xa9, 0x05, 0x9c, 0xbb]);
}

#[test]
fn encode_transfer_call() {
    let data = encode_call(&transfer(), &vec![Token::Address(addr()), Token::Uint(1000)]).unwrap();
    let mut expected = vec![0xa9, 0x05, 0x9c, 0xbb];
    expected.extend(vec![0u8; 12]);
    expected.extend(addr());
    expected.extend(vec![0u8; 30]);
    expected.extend(vec![0x03, 0xe8]);
    assert_eq!(data.len(), 68);
    assert_eq!(data, expected);
}

#[test]
fn encoding_is_deterministic() {
    let args = vec![Token::Address(addr()), Token::Uint(1000)];
    let a = encode_call(&transfer(), &args).unwrap();
    let b = encode_call(&transfer().clone(), &args.clone()).unwrap();
    assert_eq!(a, b);
}

#[test]
fn encode_bool_and_fixed_bytes() {
    let m = MethodDescriptor { name: b"f".to_vec(), inputs: vec![ParamType::Bool, ParamType::FixedBytes(4)] };
    let data = encode_with_selector(&[1, 2, 3, 4], &m, &vec![Token::Bool(true), Token::FixedBytes(vec![9, 8])]).unwrap();
    let mut expected = vec![1, 2, 3, 4];
    expected.extend(vec![0u8; 31]);
    expected.push(1);
    expected.extend(vec![9, 8]);
    expected.extend(vec![0u8; 30]);
    assert_eq!(data, expected);
}

#[test]
fn encode_errors() {
    let t = transfer();
    assert_eq!(encode_call(&t, &vec![Token::Address(addr())]), Err(EncodingError::ArgumentCount));
    assert_eq!(
        encode_call(&t, &vec![Token::Uint(1), Token::Uint(1000)]),
        Err(EncodingError::InvalidArgument { index: 0 })
    );
    assert_eq!(
        encode_call(&t, &vec![Token::Address(vec![1, 2, 3]), Token::Bool(true)]),
        Err(EncodingError::InvalidArgument { index: 0 })
    );
    let small = MethodDescriptor { name: b"s".to_vec(), inputs: vec![ParamType::Bool, ParamType::Uint(8)] };
    assert_eq!(
        encode_call(&small, &vec![Token::Bool(false), Token::Uint(256)]),
        Err(EncodingError::InvalidArgument { index: 1 })
    );
    assert!(encode_call(&small, &vec![Token::Bool(false), Token::Uint(255)]).is_ok());
    let fixed = MethodDescriptor { name: b"b".to_vec(), inputs: vec![ParamType::FixedBytes(2)] };
    assert_eq!(
        encode_call(&fixed, &vec![Token::FixedBytes(vec![1, 2, 3])]),
        Err(EncodingError::InvalidArgument { index: 0 })
    );
    let bad = MethodDescriptor { name: b"x".to_vec(), inputs: vec![ParamType::Uint(7)] };
    assert_eq!(encode_call(&bad, &vec![Token::Uint(1)]), Err(EncodingError::InvalidDescriptor));
}

#[test]
fn nonce_needs_context() {
    let mut t = NonceTracker::new();
    assert_eq!(t.reserve_nonce(), Err(ContextError::ContextUnavailable));
    assert_eq!(t.chain_id(), None);
}

#[test]
fn reservations_strictly_increase() {
    let mut t = NonceTracker::new();
    t.sync(5, 7);
    assert_eq!(t.chain_id(), Some(5));
    let a = t.reserve_nonce().unwrap();
    let b = t.reserve_nonce().unwrap();
    assert_eq!((a, b), (7, 8));
    assert!(t.is_reserved(7) && t.is_reserved(8));
    t.release_on_failure(7);
    assert!(!t.is_reserved(7));
    let c = t.reserve_nonce().unwrap();
    assert_eq!(c, 9);
    t.sync(5, 3);
    assert_eq!(t.reserve_nonce().unwrap(), 10);
    t.sync(5, 20);
    assert_eq!(t.reserve_nonce().unwrap(), 20);
    t.advance_to(30);
    assert_eq!(t.next_nonce(), 30);
}

#[test]
fn nonces_exhausted() {
    let mut t = NonceTracker::new();
    t.sync(1, u64::MAX);
    assert_eq!(t.reserve_nonce(), Err(ContextError::NoncesExhausted));
}

#[test]
fn build_checks_target_and_fee() {
    let data = vec![1u8, 2];
    assert_eq!(build_transaction(&vec![1, 2], &data, 0, 1, Some(fee())).unwrap_err(), BuildError::InvalidTarget);
    assert_eq!(build_transaction(&addr(), &data, 0, 1, None).unwrap_err(), BuildError::FeeEstimationFailed);
    let tx = build_transaction(&addr(), &data, 4, 9, Some(fee())).unwrap();
    assert_eq!((tx.to, tx.data, tx.nonce, tx.chain_id, tx.fee), (addr(), data, 4, 9, fee()));
}

#[test]
fn fee_bump_values() {
    assert_eq!(bump_fee(fee(), 10).unwrap().gas_price, 1100);
    assert_eq!(bump_fee(fee(), 10).unwrap().gas_limit, 21000);
    assert_eq!(bump_fee(FeeParams { gas_limit: 1, gas_price: 10 }, 5).unwrap().gas_price, 11);
    assert_eq!(bump_fee(FeeParams { gas_limit: 1, gas_price: 0 }, 0).unwrap().gas_price, 1);
    assert_eq!(bump_fee(FeeParams { gas_limit: 1, gas_price: u128::MAX }, 10), None);
    assert_eq!(bump_fee(FeeParams { gas_limit: 1, gas_price: u128::MAX / 2 }, 200), None);
}

#[test]
fn backoff_doubles_up_to_cap() {
    assert_eq!(backoff_delay(100, 1000, 0), 100);
    assert_eq!(backoff_delay(100, 1000, 1), 200);
    assert_eq!(backoff_delay(100, 1000, 3), 800);
    assert_eq!(backoff_delay(100, 1000, 4), 1000);
    assert_eq!(backoff_delay(5000, 1000, 0), 1000);
    assert_eq!(backoff_delay(u64::MAX, u64::MAX, 2), u64::MAX);
}

#[test]
fn accepted_then_confirmed() {
    let mut t = NonceTracker::new();
    let (mut relay, action) = started(&mut t, 4);
    let tx = match action {
        Action::Sign(tx) => tx,
        _ => panic!("expected a transaction to sign"),
    };
    assert_eq!((tx.nonce, tx.chain_id), (4, 1));
    assert!(!relay.was_broadcast());
    match relay.on_signed(signed(7)) {
        Action::Submit { raw, delay_ms } => assert_eq!((raw, delay_ms), (vec![7, 1, 2], 0)),
        _ => panic!("expected a submission"),
    }
    match relay.on_submission(&mut t, SubmissionOutcome::Accepted) {
        Action::PollReceipt { hash } => assert_eq!(hash, vec![7; 32]),
        _ => panic!("expected a receipt poll"),
    }
    assert!(matches!(relay.on_receipt(ReceiptStatus::StillPending), Action::PollReceipt { .. }));
    assert!(matches!(relay.on_receipt(ReceiptStatus::Confirmed), Action::Finish));
    assert!(matches!(relay.phase(), Phase::Confirmed));
    assert_eq!(relay.tx_hash(), Some(vec![7; 32]));
    assert!(relay.was_broadcast());
}

#[test]
fn nonce_too_low_reserves_next() {
    let mut t = NonceTracker::new();
    let (mut relay, _) = started(&mut t, 4);
    relay.on_signed(signed(1));
    let next = relay.on_submission(&mut t, SubmissionOutcome::Rejected(RejectReason::NonceTooLow));
    assert!(matches!(next, Action::FetchContext { delay_ms: 0 }));
    assert!(!t.is_reserved(4));
    let data = relay.call_data().clone();
    match relay.on_context(&mut t, Some((1, 4)), None) {
        Action::Sign(tx) => {
            assert_eq!(tx.nonce, 5);
            assert_eq!(tx.data, data);
        },
        _ => panic!("expected a transaction to sign"),
    }
}

#[test]
fn underpriced_bumps_fee_same_nonce() {
    let mut t = NonceTracker::new();
    let (mut relay, first) = started(&mut t, 9);
    let first = match first {
        Action::Sign(tx) => tx,
        _ => panic!("expected a transaction to sign"),
    };
    relay.on_signed(signed(1));
    match relay.on_submission(&mut t, SubmissionOutcome::Rejected(RejectReason::Underpriced)) {
        Action::Sign(tx) => {
            assert_eq!(tx.nonce, 9);
            assert_eq!((&tx.to, &tx.data, tx.chain_id), (&first.to, &first.data, first.chain_id));
            assert_eq!(tx.fee.gas_price, 1100);
            assert_eq!(tx.fee.gas_limit, 21000);
        },
        _ => panic!("expected a transaction to sign"),
    }
    assert_eq!(relay.nonce(), 9);
    assert_eq!(relay.fee().gas_price, 1100);
    assert!(t.is_reserved(9));
}

#[test]
fn network_error_three_attempts() {
    let mut t = NonceTracker::new();
    let (mut relay, _) = started(&mut t, 0);
    relay.on_signed(signed(3));
    match relay.on_submission(&mut t, SubmissionOutcome::NetworkError) {
        Action::Submit { raw, delay_ms } => assert_eq!((raw, delay_ms), (vec![3, 1, 2], 100)),
        _ => panic!("expected a resubmission"),
    }
    assert!(matches!(relay.phase(), Phase::Retrying(Stage::Submission)));
    match relay.on_submission(&mut t, SubmissionOutcome::NetworkError) {
        Action::Submit { raw, delay_ms } => assert_eq!((raw, delay_ms), (vec![3, 1, 2], 200)),
        _ => panic!("expected a resubmission"),
    }
    assert!(matches!(relay.on_submission(&mut t, SubmissionOutcome::NetworkError), Action::Finish));
    assert!(matches!(relay.phase(), Phase::Failed(Failure::NetworkError)));
    assert_eq!(relay.nonce(), 0);
    assert_eq!(t.next_nonce(), 1);
    assert!(relay.was_broadcast());
}

#[test]
fn final_rejections() {
    let mut t = NonceTracker::new();
    let (mut relay, _) = started(&mut t, 0);
    relay.on_signed(signed(1));
    relay.on_submission(&mut t, SubmissionOutcome::Rejected(RejectReason::InsufficientFunds));
    assert!(matches!(relay.phase(), Phase::Failed(Failure::Rejected(RejectReason::InsufficientFunds))));
    let (mut other, _) = started(&mut t, 0);
    other.on_signed(signed(2));
    other.on_submission(&mut t, SubmissionOutcome::Rejected(RejectReason::Other("gas".to_string())));
    match other.phase() {
        Phase::Failed(Failure::Rejected(RejectReason::Other(m))) => assert_eq!(m, "gas"),
        _ => panic!("expected a final rejection"),
    }
}

#[test]
fn signing_unavailable_is_fatal() {
    let mut t = NonceTracker::new();
    let (mut relay, _) = started(&mut t, 2);
    assert!(matches!(relay.on_signing_unavailable(&mut t), Action::Finish));
    assert!(matches!(relay.phase(), Phase::Failed(Failure::SigningUnavailable)));
    assert!(!t.is_reserved(2));
    assert!(!relay.was_broadcast());
}

#[test]
fn encoding_error_fails_at_once() {
    let (relay, action) = Relay::new(addr(), &transfer(), &vec![Token::Bool(true)], None, policy());
    assert!(matches!(action, Action::Finish));
    assert!(matches!(relay.phase(), Phase::Failed(Failure::Encoding(EncodingError::ArgumentCount))));
}

#[test]
fn context_unavailable_retries_then_fails() {
    let mut t = NonceTracker::new();
    let (mut relay, _) = Relay::new(addr(), &transfer(), &vec![Token::Address(addr()), Token::Uint(1)], None, policy());
    assert!(matches!(relay.on_context(&mut t, None, None), Action::FetchContext { delay_ms: 100 }));
    assert!(matches!(relay.on_context(&mut t, Some((1, 0)), None), Action::FetchContext { delay_ms: 200 }));
    assert!(matches!(relay.on_context(&mut t, None, None), Action::Finish));
    assert!(matches!(relay.phase(), Phase::Failed(Failure::ContextUnavailable)));
}

#[test]
fn estimated_fee_is_used() {
    let mut t = NonceTracker::new();
    let (mut relay, _) = Relay::new(addr(), &transfer(), &vec![Token::Address(addr()), Token::Uint(1)], None, policy());
    match relay.on_context(&mut t, Some((3, 0)), Some(FeeParams { gas_limit: 50000, gas_price: 7 })) {
        Action::Sign(tx) => assert_eq!(tx.fee, FeeParams { gas_limit: 50000, gas_price: 7 }),
        _ => panic!("expected a transaction to sign"),
    }
}

#[test]
fn invalid_target_fails() {
    let mut t = NonceTracker::new();
    let (mut relay, _) = Relay::new(vec![1, 2, 3], &transfer(), &vec![Token::Address(addr()), Token::Uint(1)], Some(fee()), policy());
    assert!(matches!(relay.on_context(&mut t, Some((1, 0)), None), Action::Finish));
    assert!(matches!(relay.phase(), Phase::Failed(Failure::InvalidTarget)));
    assert!(!t.is_reserved(0));
}

#[test]
fn confirmation_timeout() {
    let mut t = NonceTracker::new();
    let (mut relay, _) = started(&mut t, 0);
    relay.on_signed(signed(1));
    relay.on_submission(&mut t, SubmissionOutcome::Accepted);
    for _ in 0..3 {
        assert!(matches!(relay.on_receipt(ReceiptStatus::NotFound), Action::PollReceipt { .. }));
    }
    assert!(matches!(relay.on_receipt(ReceiptStatus::NotFound), Action::Finish));
    assert!(matches!(relay.phase(), Phase::Failed(Failure::ConfirmationTimeout)));
    assert_eq!(relay.tx_hash(), Some(vec![1; 32]));
}

#[test]
fn find_bytes_positions() {
    assert!(find_bytes(b"abcdef", b"cde"));
    assert!(find_bytes(b"abcdef", b"abcdef"));
    assert!(find_bytes(b"abc", b""));
    assert!(!find_bytes(b"abcdef", b"ce"));
    assert!(!find_bytes(b"ab", b"abc"));
}

#[test]
fn classify_lowered_messages() {
    assert!(matches!(classify_lowered(b"nonce too low: next 5", "x".to_string()), RejectReason::NonceTooLow));
    assert!(matches!(classify_lowered(b"replacement transaction underpriced", "x".to_string()), RejectReason::Underpriced));
    assert!(matches!(
        classify_lowered(b"insufficient funds for gas * price + value", "x".to_string()),
        RejectReason::InsufficientFunds
    ));
    match classify_lowered(b"Nonce Too Low", "Nonce Too Low".to_string()) {
        RejectReason::Other(m) => assert_eq!(m, "Nonce Too Low"),
        _ => panic!("expected the message to be kept"),
    }
}

#[test]
fn classify_ignores_case() {
    assert!(matches!(classify_rejection("Nonce Too Low".to_string()), RejectReason::NonceTooLow));
    assert!(matches!(classify_rejection("Transaction UNDERPRICED".to_string()), RejectReason::Underpriced));
    assert!(matches!(classify_rejection("Insufficient Funds".to_string()), RejectReason::InsufficientFunds));
    match classify_rejection("execution reverted".to_string()) {
        RejectReason::Other(m) => assert_eq!(m, "execution reverted"),
        _ => panic!("expected another reason"),
    }
}

#[test]
fn cancel_before_sending_releases_nonce() {
    let mut t = NonceTracker::new();
    let (mut relay, _) = started(&mut t, 6);
    assert!(t.is_reserved(6));
    assert!(matches!(relay.cancel(&mut t), Action::Finish));
    assert!(matches!(relay.phase(), Phase::Failed(Failure::Cancelled)));
    assert!(!t.is_reserved(6));
    assert!(!relay.was_broadcast());
}

#[test]
fn cancel_after_sending_stops_watching() {
    let mut t = NonceTracker::new();
    let (mut relay, _) = started(&mut t, 6);
    relay.on_signed(signed(4));
    relay.on_submission(&mut t, SubmissionOutcome::Accepted);
    relay.cancel(&mut t);
    assert!(matches!(relay.phase(), Phase::Failed(Failure::Cancelled)));
    assert!(t.is_reserved(6));
    assert!(relay.was_broadcast());
    assert_eq!(relay.tx_hash(), Some(vec![4; 32]));
}

#[test]
fn cancel_keeps_terminal_phase() {
    let mut t = NonceTracker::new();
    let (mut relay, _) = started(&mut t, 0);
    relay.on_signed(signed(1));
    relay.on_submission(&mut t, SubmissionOutcome::Accepted);
    relay.on_receipt(ReceiptStatus::Confirmed);
    relay.cancel(&mut t);
    assert!(matches!(relay.phase(), Phase::Confirmed));
}

#[test]
fn encode_dynamic_bytes() {
    let m = MethodDescriptor { name: b"adjust_position".to_vec(), inputs: vec![ParamType::Bytes] };
    assert_eq!(m.signature(), b"adjust_position(bytes)".to_vec());
    let data = encode_with_selector(&[9, 9, 9, 9], &m, &vec![Token::Bytes(vec![1, 2, 3])]).unwrap();
    let mut expected = vec![9, 9, 9, 9];
    expected.extend(vec![0u8; 31]);
    expected.push(0x20);
    expected.extend(vec![0u8; 31]);
    expected.push(3);
    expected.extend(vec![1, 2, 3]);
    expected.extend(vec![0u8; 29]);
    assert_eq!(data, expected);
}

#[test]
fn encode_bytes_between_static_words() {
    let m = MethodDescriptor {
        name: b"f".to_vec(),
        inputs: vec![ParamType::Bytes, ParamType::Uint(8), ParamType::Bytes],
    };
    let long = vec![7u8; 33];
    let data = encode_with_selector(
        &[0, 0, 0, 1],
        &m,
        &vec![Token::Bytes(long.clone()), Token::Uint(5), Token::Bytes(vec![])],
    )
    .unwrap();
    let word = |v: u8| {
        let mut w = vec![0u8; 31];
        w.push(v);
        w
    };
    let mut expected = vec![0, 0, 0, 1];
    expected.extend(word(96));
    expected.extend(word(5));
    expected.extend(word(192));
    expected.extend(word(33));
    expected.extend(long);
    expected.extend(vec![0u8; 31]);
    expected.extend(word(0));
    assert_eq!(data, expected);
    assert_eq!(
        encode_with_selector(&[0, 0, 0, 1], &m, &vec![Token::FixedBytes(vec![1]), Token::Uint(5), Token::Bytes(vec![])]),
        Err(EncodingError::InvalidArgument { index: 0 })
    );
}
