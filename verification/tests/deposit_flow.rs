use stream_flow_demo::deposit::deposit;
use stream_flow_demo::deposit::Deposit;
use stream_flow_demo::deposit::UserDepositAccount;
use stream_flow_demo::errors::EscrowError;
use stream_flow_demo::identity::derive_custody_authority;
use stream_flow_demo::identity::Identity;
use stream_flow_demo::token::TokenAccount;

fn id(byte: u8) -> Identity {
    Identity { bytes: vec![byte; 32] }
}

fn deposit_ctx(source_balance: u64, vault_balance: u64, program: &Identity) -> Deposit {
    let sender = id(7);
    let (key, _bump) = derive_custody_authority(&sender, program).unwrap();
    Deposit {
        sender: sender.duplicate(),
        sender_tokens: TokenAccount {
            address: id(0xA1),
            authority: sender,
            balance: source_balance,
        },
        sender_deposit_account: UserDepositAccount { amount: 0 },
        deposit_account_key: key.duplicate(),
        sender_vault: TokenAccount { address: id(0xA2), authority: key, balance: vault_balance },
        mint: id(0xA3),
        mint_decimals: 9,
    }
}

#[test]
fn deposit_moves_funds_and_records_amount() {
    let program = id(11);
    let mut ctx = deposit_ctx(1_000, 0, &program);
    let r = deposit(&mut ctx, 400, &program);
    assert!(r.is_ok());
    assert_eq!(ctx.sender_tokens.balance, 600);
    assert_eq!(ctx.sender_vault.balance, 400);
    assert_eq!(ctx.sender_deposit_account.amount, 400);
}

#[test]
fn deposit_overwrites_recorded_balance() {
    let program = id(11);
    let mut ctx = deposit_ctx(1_000, 0, &program);
    assert!(deposit(&mut ctx, 100, &program).is_ok());
    assert!(deposit(&mut ctx, 50, &program).is_ok());
    assert_eq!(ctx.sender_deposit_account.amount, 50);
    assert_eq!(ctx.sender_vault.balance, 150);
    assert_eq!(ctx.sender_tokens.balance, 850);
}

#[test]
fn deposit_zero_amount_is_recorded() {
    let program = id(11);
    let mut ctx = deposit_ctx(1_000, 0, &program);
    assert!(deposit(&mut ctx, 100, &program).is_ok());
    assert!(deposit(&mut ctx, 0, &program).is_ok());
    assert_eq!(ctx.sender_deposit_account.amount, 0);
    assert_eq!(ctx.sender_vault.balance, 100);
}

#[test]
fn deposit_rejects_insufficient_source_balance() {
    let program = id(11);
    let mut ctx = deposit_ctx(30, 0, &program);
    let r = deposit(&mut ctx, 31, &program);
    assert_eq!(r, Err(EscrowError::InsufficientFunds));
    assert_eq!(ctx.sender_tokens.balance, 30);
    assert_eq!(ctx.sender_vault.balance, 0);
    assert_eq!(ctx.sender_deposit_account.amount, 0);
}

#[test]
fn deposit_rejects_precision_mismatch() {
    let program = id(11);
    let mut ctx = deposit_ctx(1_000, 0, &program);
    ctx.mint_decimals = 6;
    let r = deposit(&mut ctx, 10, &program);
    assert_eq!(r, Err(EscrowError::PrecisionMismatch));
    assert_eq!(ctx.sender_tokens.balance, 1_000);
}

#[test]
fn deposit_rejects_vault_balance_overflow() {
    let program = id(11);
    let mut ctx = deposit_ctx(10, u64::MAX, &program);
    let r = deposit(&mut ctx, 1, &program);
    assert_eq!(r, Err(EscrowError::BalanceOverflow));
    assert_eq!(ctx.sender_vault.balance, u64::MAX);
    assert_eq!(ctx.sender_tokens.balance, 10);
}

#[test]
fn deposit_rejects_foreign_custody_account() {
    let program = id(11);
    let mut ctx = deposit_ctx(1_000, 0, &program);
    let (foreign_key, _) = derive_custody_authority(&id(8), &program).unwrap();
    ctx.deposit_account_key = foreign_key.duplicate();
    ctx.sender_vault.authority = foreign_key;
    let r = deposit(&mut ctx, 10, &program);
    assert_eq!(r, Err(EscrowError::InvalidDerivedAccount));
    assert_eq!(ctx.sender_tokens.balance, 1_000);
    assert_eq!(ctx.sender_vault.balance, 0);
}

#[test]
fn deposit_transfer_ctx_selects_depositor_accounts() {
    let program = id(11);
    let ctx = deposit_ctx(1_000, 0, &program);
    let accounts = ctx.to_transfer_ctx();
    assert!(accounts.mint.same_as(&ctx.mint));
    assert!(accounts.authority.same_as(&ctx.sender));
    assert!(accounts.from.same_as(&ctx.sender_tokens.address));
    assert!(accounts.to.same_as(&ctx.sender_vault.address));
}
