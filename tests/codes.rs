use keys_indexer::codes::{ActionKind, ReceiptStatus};

#[test]
fn status_codes_are_stable() {
    assert_eq!(ReceiptStatus::Failure.code(), 1);
    assert_eq!(ReceiptStatus::Success.code(), 2);
}

#[test]
fn add_key_code_is_three() {
    assert_eq!(ActionKind::AddKey.code(), 3);
}

#[test]
fn action_codes_round_trip() {
    let all = [
        ActionKind::CreateAccount,
        ActionKind::DeployContract,
        ActionKind::FunctionCall,
        ActionKind::Transfer,
        ActionKind::Stake,
        ActionKind::AddKey,
        ActionKind::DeleteKey,
        ActionKind::DeleteAccount,
        ActionKind::Delegate,
    ];
    let mut seen = Vec::new();
    for a in all {
        let c = a.code();
        assert!((1..=9).contains(&c));
        assert!(!seen.contains(&c));
        seen.push(c);
        assert_eq!(ActionKind::from_code(c), Some(a));
    }
}

#[test]
fn status_codes_round_trip() {
    for s in [ReceiptStatus::Failure, ReceiptStatus::Success] {
        assert_eq!(ReceiptStatus::from_code(s.code()), Some(s));
    }
}

#[test]
fn unknown_codes_are_rejected() {
    assert_eq!(ActionKind::from_code(0), None);
    assert_eq!(ActionKind::from_code(10), None);
    assert_eq!(ReceiptStatus::from_code(0), None);
    assert_eq!(ReceiptStatus::from_code(3), None);
}
