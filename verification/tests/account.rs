use agent_vault::account::{checked_transfer, TransferError};

#[test]
fn transfer_moves_the_amount() {
    assert_eq!(checked_transfer(100, 7, 30), Ok((70, 37)));
    assert_eq!(checked_transfer(100, 7, 100), Ok((0, 107)));
    assert_eq!(checked_transfer(100, 7, 0), Ok((100, 7)));
    assert_eq!(checked_transfer(0, 0, 0), Ok((0, 0)));
    assert_eq!(checked_transfer(u64::MAX, 0, u64::MAX), Ok((0, u64::MAX)));
}

#[test]
fn transfer_needs_funds() {
    assert_eq!(checked_transfer(99, 7, 100), Err(TransferError::InsufficientFunds));
    assert_eq!(checked_transfer(0, 7, 1), Err(TransferError::InsufficientFunds));
}

#[test]
fn transfer_cannot_overflow_the_receiver() {
    assert_eq!(checked_transfer(10, u64::MAX, 1), Err(TransferError::Overflow));
    assert_eq!(checked_transfer(10, u64::MAX - 9, 10), Err(TransferError::Overflow));
    assert_eq!(checked_transfer(10, u64::MAX - 10, 10), Ok((0, u64::MAX)));
}

#[test]
fn transfer_reports_missing_funds_before_overflow() {
    assert_eq!(checked_transfer(1, u64::MAX, 2), Err(TransferError::InsufficientFunds));
}
