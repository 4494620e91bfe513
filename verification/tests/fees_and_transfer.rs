use stream_flow_demo::errors::EscrowError;
use stream_flow_demo::fees::net_amount_after_fee;
use stream_flow_demo::identity::Identity;
use stream_flow_demo::token::transfer_checked;
use stream_flow_demo::token::TokenAccount;

fn id(byte: u8) -> Identity {
    Identity { bytes: vec![byte; 32] }
}

#[test]
fn fee_on_ten_thousand() {
    assert_eq!(net_amount_after_fee(10_000), 9_901);
}

#[test]
fn fee_floors_one_to_zero() {
    assert_eq!(net_amount_after_fee(1), 0);
}

#[test]
fn fee_examples() {
    assert_eq!(net_amount_after_fee(0), 0);
    assert_eq!(net_amount_after_fee(100), 99);
    assert_eq!(net_amount_after_fee(101), 100);
    assert_eq!(net_amount_after_fee(u64::MAX), u64::MAX / 10_000 * 9_901 + u64::MAX % 10_000 * 9_901 / 10_000);
}

#[test]
fn transfer_checked_moves_amount() {
    let mut from = TokenAccount { address: id(1), authority: id(2), balance: 100 };
    let mut to = TokenAccount { address: id(3), authority: id(4), balance: 5 };
    let r = transfer_checked(&mut from, &mut to, &id(2), 40, 9, 9);
    assert!(r.is_ok());
    assert_eq!(from.balance, 60);
    assert_eq!(to.balance, 45);
}

#[test]
fn transfer_checked_rejects_wrong_authority() {
    let mut from = TokenAccount { address: id(1), authority: id(2), balance: 100 };
    let mut to = TokenAccount { address: id(3), authority: id(4), balance: 5 };
    let r = transfer_checked(&mut from, &mut to, &id(9), 40, 9, 9);
    assert_eq!(r, Err(EscrowError::InvalidAuthority));
    assert_eq!(from.balance, 100);
    assert_eq!(to.balance, 5);
}

#[test]
fn transfer_checked_rejects_wrong_decimals() {
    let mut from = TokenAccount { address: id(1), authority: id(2), balance: 100 };
    let mut to = TokenAccount { address: id(3), authority: id(4), balance: 5 };
    let r = transfer_checked(&mut from, &mut to, &id(2), 40, 9, 6);
    assert_eq!(r, Err(EscrowError::PrecisionMismatch));
    assert_eq!(from.balance, 100);
}

#[test]
fn transfer_checked_rejects_overdraw_and_overflow() {
    let mut from = TokenAccount { address: id(1), authority: id(2), balance: 100 };
    let mut to = TokenAccount { address: id(3), authority: id(4), balance: u64::MAX - 10 };
    assert_eq!(
        transfer_checked(&mut from, &mut to, &id(2), 101, 9, 9),
        Err(EscrowError::InsufficientFunds)
    );
    assert_eq!(
        transfer_checked(&mut from, &mut to, &id(2), 11, 9, 9),
        Err(EscrowError::BalanceOverflow)
    );
    assert_eq!(from.balance, 100);
    assert_eq!(to.balance, u64::MAX - 10);
}
