//! Deposit flow: funding a user's vault and recording the deposited amount.
//!
//! A deposit moves funds from the depositor's own token account into a vault
//! whose spending authority is the depositor's custody account, then
//! overwrites the custody record's recorded balance with the amount of this
//! call. The recorded balance is replaced, not accumulated, while the
//! vault's actual balance accumulates across calls.

use vstd::prelude::*;

use crate::errors::EscrowError;
use crate::identity::custody_derivation;
use crate::identity::derive_custody_authority;
use crate::identity::spec_domain_tag;
use crate::identity::Identity;
use crate::token::spec_transfer_checked;
use crate::token::transfer_checked;
use crate::token::TokenAccount;
use crate::token::TokenAccountV;
use crate::token::ASSET_DECIMALS;

verus! {

/// Custody record: bookkeeping for a user's most recent deposit amount.
#[derive(Clone, Copy, PartialEq, Eq, Structural, Debug)]
pub struct UserDepositAccount {
    pub amount: u64,
}

/// The accounts a deposit call works on.
pub struct Deposit {
    /// The depositor; also the authority over `sender_tokens`.
    pub sender: Identity,
    /// The depositor's own token account, funding the deposit.
    pub sender_tokens: TokenAccount,
    /// The custody record of `sender`.
    pub sender_deposit_account: UserDepositAccount,
    /// Address of the custody record, derived from the domain tag and
    /// `sender`.
    pub deposit_account_key: Identity,
    /// The vault receiving the deposit; its authority is the custody
    /// record's address, never the depositor's own key.
    pub sender_vault: TokenAccount,
    /// The asset mint.
    pub mint: Identity,
    /// The mint's configured decimal precision.
    pub mint_decimals: u8,
}

/// Mathematical value of a [`Deposit`] context.
#[verifier::ext_equal]
pub struct DepositV {
    pub sender: Seq<u8>,
    pub sender_tokens: TokenAccountV,
    pub recorded_balance: u64,
    pub deposit_account_key: Seq<u8>,
    pub sender_vault: TokenAccountV,
    pub mint: Seq<u8>,
    pub mint_decimals: u8,
}

impl View for Deposit {
    type V = DepositV;

    open spec fn view(&self) -> DepositV {
        DepositV {
            sender: self.sender@,
            sender_tokens: self.sender_tokens@,
            recorded_balance: self.sender_deposit_account.amount,
            deposit_account_key: self.deposit_account_key@,
            sender_vault: self.sender_vault@,
            mint: self.mint@,
            mint_decimals: self.mint_decimals,
        }
    }
}

impl Deposit {
    /// Well-formed: every identity has full length.
    pub open spec fn wf(&self) -> bool {
        self.sender.wf() && self.sender_tokens.wf() && self.deposit_account_key.wf()
            && self.sender_vault.wf() && self.mint.wf()
    }

    /// Selects the accounts of the deposit transfer: the depositor funds the
    /// vault under the depositor's own authority.
    pub fn to_transfer_ctx(&self) -> (r: TransferAccounts)
        ensures
            r.mint@ == self.mint@,
            r.authority@ == self.sender@,
            r.from@ == self.sender_tokens.address@,
            r.to@ == self.sender_vault.address@,
    {
        TransferAccounts {
            mint: self.mint.duplicate(),
            authority: self.sender.duplicate(),
            from: self.sender_tokens.address.duplicate(),
            to: self.sender_vault.address.duplicate(),
        }
    }
}

/// Account set of one checked transfer.
pub struct TransferAccounts {
    pub mint: Identity,
    pub authority: Identity,
    pub from: Identity,
    pub to: Identity,
}

/// The deposit transition. The supplied custody record address must be the
/// one derived for `sender`, the vault must be owned by it, and the funding
/// transfer must pass its own checks; the recorded balance is then
/// overwritten with `amount`. Any failure leaves the whole context
/// unchanged.
pub open spec fn spec_deposit(pre: DepositV, amount: u64, program: Seq<u8>) -> Result<
    DepositV,
    EscrowError,
> {
    match custody_derivation(spec_domain_tag(), pre.sender, program) {
        Option::None => Err(EscrowError::DerivationFailed),
        Option::Some(d) => if d.0 != pre.deposit_account_key {
            Err(EscrowError::InvalidDerivedAccount)
        } else if pre.sender_vault.authority != pre.deposit_account_key {
            Err(EscrowError::InvalidDerivedAccount)
        } else {
            match spec_transfer_checked(
                pre.sender_tokens,
                pre.sender_vault,
                pre.sender,
                amount,
                ASSET_DECIMALS,
                pre.mint_decimals,
            ) {
                Err(e) => Err(e),
                Ok(pair) => Ok(
                    DepositV {
                        sender_tokens: pair.0,
                        recorded_balance: amount,
                        sender_vault: pair.1,
                        ..pre
                    },
                ),
            }
        },
    }
}

/// Runs a deposit: funds the vault and overwrites the recorded balance.
pub fn deposit(ctx: &mut Deposit, amount: u64, program: &Identity) -> (r: Result<(), EscrowError>)
    requires
        old(ctx).wf(),
        program.wf(),
    ensures
        final(ctx).wf(),
        match r {
            Ok(_) => spec_deposit(old(ctx)@, amount, program@) == Ok::<DepositV, EscrowError>(
                final(ctx)@,
            ),
            Err(e) => spec_deposit(old(ctx)@, amount, program@) == Err::<DepositV, EscrowError>(e)
                && final(ctx)@ == old(ctx)@,
        },
{
    let derived = derive_custody_authority(&ctx.sender, program);
    match derived {
        Option::None => Err(EscrowError::DerivationFailed),
        Option::Some(d) => {
            if !d.0.same_as(&ctx.deposit_account_key) {
                return Err(EscrowError::InvalidDerivedAccount);
            }
            if !ctx.sender_vault.authority.same_as(&ctx.deposit_account_key) {
                return Err(EscrowError::InvalidDerivedAccount);
            }
            let moved = transfer_checked(
                &mut ctx.sender_tokens,
                &mut ctx.sender_vault,
                &ctx.sender,
                amount,
                ASSET_DECIMALS,
                ctx.mint_decimals,
            );
            match moved {
                Err(e) => {
                    proof {
                        assert(ctx@ =~= old(ctx)@);
                    }
                    Err(e)
                },
                Ok(_) => {
                    ctx.sender_deposit_account.amount = amount;
                    proof {
                        assert(spec_deposit(old(ctx)@, amount, program@) matches Ok(post) && post
                            =~= ctx@);
                    }
                    Ok(())
                },
            }
        },
    }
}

/// Overwrite law: a second deposit replaces the recorded balance with its
/// own amount, while the vault's actual balance accumulates both deposits.
pub proof fn lemma_deposit_overwrites(
    pre: DepositV,
    first_amount: u64,
    second_amount: u64,
    program: Seq<u8>,
    mid: DepositV,
    post: DepositV,
)
    requires
        spec_deposit(pre, first_amount, program) == Ok::<DepositV, EscrowError>(mid),
        spec_deposit(mid, second_amount, program) == Ok::<DepositV, EscrowError>(post),
    ensures
        post.recorded_balance == second_amount,
        post.sender_vault.balance == pre.sender_vault.balance + first_amount + second_amount,
        post.sender_tokens.balance == pre.sender_tokens.balance - first_amount - second_amount,
{
}

} // verus!
