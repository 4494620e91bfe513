//! Release flow: moving a user's recorded balance out of the vault and
//! handing the fee-reduced net amount to the external streaming service.
//!
//! The release is delegated: the caller need not be the depositor. It is
//! authorized by re-deriving the depositor's custody authority from the same
//! seeds used at deposit time; no stored key is involved. The whole call is
//! atomic: if any check fails, or the streaming service rejects the composed
//! parameters, no funds leave the vault.

use vstd::prelude::*;

use crate::deposit::TransferAccounts;
use crate::deposit::UserDepositAccount;
use crate::errors::EscrowError;
use crate::errors::StreamError;
use crate::fees::net_amount_after_fee;
use crate::fees::spec_net_amount;
use crate::identity::custody_derivation;
use crate::identity::derive_custody_authority;
use crate::identity::spec_domain_tag;
use crate::identity::Identity;
use crate::stream::build_stream_params;
use crate::stream::spec_stream_params;
use crate::stream::CreateSfIxArgs;
use crate::stream::StreamParams;
use crate::token::spec_transfer_checked;
use crate::token::TokenAccount;
use crate::token::TokenAccountV;
use crate::token::ASSET_DECIMALS;

verus! {

/// The accounts a release call works on.
pub struct CreateSf {
    /// The relayer executing the release; receives the vault funds and
    /// funds the stream from its own token account.
    pub sender: Identity,
    /// The relayer's token account; the vault funds land here before the
    /// streaming service pulls the net amount into escrow.
    pub sender_tokens: TokenAccount,
    /// The depositor whose recorded balance is released; also the stream's
    /// recipient.
    pub depositor: Identity,
    /// The depositor's token account, named as the stream's recipient
    /// account.
    pub depositor_tokens: Identity,
    /// The depositor's custody record.
    pub depositor_account: UserDepositAccount,
    /// Address of the custody record, derived from the domain tag and
    /// `depositor`.
    pub depositor_account_key: Identity,
    /// The vault holding the depositor's funds; its authority is the
    /// custody record's address.
    pub depositor_vault: TokenAccount,
    /// Account that will hold the stream's metadata.
    pub metadata: Identity,
    /// Escrow account the streaming service moves the net amount into.
    pub escrow_tokens: Identity,
    /// The streaming service's treasury.
    pub streamflow_treasury: Identity,
    /// Token account of the streaming service's treasury.
    pub streamflow_treasury_tokens: Identity,
    /// Delegate allowed to withdraw automatically on the recipient's
    /// behalf.
    pub withdrawor: Identity,
    /// Partner treasury account.
    pub partner: Identity,
    /// Token account of the partner treasury.
    pub partner_tokens: Identity,
    /// The asset mint.
    pub mint: Identity,
    /// The mint's configured decimal precision.
    pub mint_decimals: u8,
    /// The streaming service's fee oracle.
    pub fee_oracle: Identity,
    /// The rent sysvar account.
    pub rent: Identity,
    /// The streaming service program.
    pub streamflow_program: Identity,
    /// The token program.
    pub token_program: Identity,
    /// The associated-token program.
    pub associated_token_program: Identity,
    /// The system program.
    pub system_program: Identity,
}

/// Mathematical value of a [`CreateSf`] context.
#[verifier::ext_equal]
pub struct CreateSfV {
    pub sender: Seq<u8>,
    pub sender_tokens: TokenAccountV,
    pub depositor: Seq<u8>,
    pub depositor_tokens: Seq<u8>,
    pub recorded_balance: u64,
    pub depositor_account_key: Seq<u8>,
    pub depositor_vault: TokenAccountV,
    pub metadata: Seq<u8>,
    pub escrow_tokens: Seq<u8>,
    pub streamflow_treasury: Seq<u8>,
    pub streamflow_treasury_tokens: Seq<u8>,
    pub withdrawor: Seq<u8>,
    pub partner: Seq<u8>,
    pub partner_tokens: Seq<u8>,
    pub mint: Seq<u8>,
    pub mint_decimals: u8,
    pub fee_oracle: Seq<u8>,
    pub rent: Seq<u8>,
    pub streamflow_program: Seq<u8>,
    pub token_program: Seq<u8>,
    pub associated_token_program: Seq<u8>,
    pub system_program: Seq<u8>,
}

impl View for CreateSf {
    type V = CreateSfV;

    open spec fn view(&self) -> CreateSfV {
        CreateSfV {
            sender: self.sender@,
            sender_tokens: self.sender_tokens@,
            depositor: self.depositor@,
            depositor_tokens: self.depositor_tokens@,
            recorded_balance: self.depositor_account.amount,
            depositor_account_key: self.depositor_account_key@,
            depositor_vault: self.depositor_vault@,
            metadata: self.metadata@,
            escrow_tokens: self.escrow_tokens@,
            streamflow_treasury: self.streamflow_treasury@,
            streamflow_treasury_tokens: self.streamflow_treasury_tokens@,
            withdrawor: self.withdrawor@,
            partner: self.partner@,
            partner_tokens: self.partner_tokens@,
            mint: self.mint@,
            mint_decimals: self.mint_decimals,
            fee_oracle: self.fee_oracle@,
            rent: self.rent@,
            streamflow_program: self.streamflow_program@,
            token_program: self.token_program@,
            associated_token_program: self.associated_token_program@,
            system_program: self.system_program@,
        }
    }
}

/// Account set of the streaming service's create entry point.
pub struct StreamAccounts {
    pub sender: Identity,
    pub sender_tokens: Identity,
    pub recipient: Identity,
    pub recipient_tokens: Identity,
    pub metadata: Identity,
    pub escrow_tokens: Identity,
    pub streamflow_treasury: Identity,
    pub streamflow_treasury_tokens: Identity,
    pub withdrawor: Identity,
    pub partner: Identity,
    pub partner_tokens: Identity,
    pub mint: Identity,
    pub fee_oracle: Identity,
    pub rent: Identity,
    pub timelock_program: Identity,
    pub token_program: Identity,
    pub associated_token_program: Identity,
    pub system_program: Identity,
}

impl CreateSf {
    /// Well-formed: every identity has full length.
    pub open spec fn wf(&self) -> bool {
        &&& self.sender.wf()
        &&& self.sender_tokens.wf()
        &&& self.depositor.wf()
        &&& self.depositor_tokens.wf()
        &&& self.depositor_account_key.wf()
        &&& self.depositor_vault.wf()
        &&& self.metadata.wf()
        &&& self.escrow_tokens.wf()
        &&& self.streamflow_treasury.wf()
        &&& self.streamflow_treasury_tokens.wf()
        &&& self.withdrawor.wf()
        &&& self.partner.wf()
        &&& self.partner_tokens.wf()
        &&& self.mint.wf()
        &&& self.fee_oracle.wf()
        &&& self.rent.wf()
        &&& self.streamflow_program.wf()
        &&& self.token_program.wf()
        &&& self.associated_token_program.wf()
        &&& self.system_program.wf()
    }

    /// Selects the accounts of the release transfer: the custody record's
    /// address, not the depositor's own key, authorizes moving the vault
    /// funds to the relayer's token account.
    pub fn to_transfer_ctx(&self) -> (r: TransferAccounts)
        ensures
            r.mint@ == self.mint@,
            r.authority@ == self.depositor_account_key@,
            r.from@ == self.depositor_vault.address@,
            r.to@ == self.sender_tokens.address@,
    {
        TransferAccounts {
            mint: self.mint.duplicate(),
            authority: self.depositor_account_key.duplicate(),
            from: self.depositor_vault.address.duplicate(),
            to: self.sender_tokens.address.duplicate(),
        }
    }

    /// Maps this context onto the account set of the streaming service's
    /// create entry point: the relayer acts as the stream's sender and the
    /// depositor as its recipient.
    pub fn to_sf_create_ctx(&self) -> (r: StreamAccounts)
        ensures
            r.sender@ == self.sender@,
            r.sender_tokens@ == self.sender_tokens.address@,
            r.recipient@ == self.depositor@,
            r.recipient_tokens@ == self.depositor_tokens@,
            r.metadata@ == self.metadata@,
            r.escrow_tokens@ == self.escrow_tokens@,
            r.streamflow_treasury@ == self.streamflow_treasury@,
            r.streamflow_treasury_tokens@ == self.streamflow_treasury_tokens@,
            r.withdrawor@ == self.withdrawor@,
            r.partner@ == self.partner@,
            r.partner_tokens@ == self.partner_tokens@,
            r.mint@ == self.mint@,
            r.fee_oracle@ == self.fee_oracle@,
            r.rent@ == self.rent@,
            r.timelock_program@ == self.streamflow_program@,
            r.token_program@ == self.token_program@,
            r.associated_token_program@ == self.associated_token_program@,
            r.system_program@ == self.system_program@,
    {
        StreamAccounts {
            sender: self.sender.duplicate(),
            sender_tokens: self.sender_tokens.address.duplicate(),
            recipient: self.depositor.duplicate(),
            recipient_tokens: self.depositor_tokens.duplicate(),
            metadata: self.metadata.duplicate(),
            escrow_tokens: self.escrow_tokens.duplicate(),
            streamflow_treasury: self.streamflow_treasury.duplicate(),
            streamflow_treasury_tokens: self.streamflow_treasury_tokens.duplicate(),
            withdrawor: self.withdrawor.duplicate(),
            partner: self.partner.duplicate(),
            partner_tokens: self.partner_tokens.duplicate(),
            mint: self.mint.duplicate(),
            fee_oracle: self.fee_oracle.duplicate(),
            rent: self.rent.duplicate(),
            timelock_program: self.streamflow_program.duplicate(),
            token_program: self.token_program.duplicate(),
            associated_token_program: self.associated_token_program.duplicate(),
            system_program: self.system_program.duplicate(),
        }
    }
}

/// Everything a release decides before any account changes: the full
/// recorded amount leaving the vault, the fee-reduced net amount, and the
/// stream parameters composed for the external service.
#[derive(Clone, Copy)]
#[verifier::ext_equal]
pub struct SfPlan {
    /// The full recorded balance; this is what leaves the vault.
    pub amount: u64,
    /// The fee-reduced amount; this is what the stream is funded with.
    pub net_amount: u64,
    /// The single-period stream parameters for `net_amount`.
    pub params: StreamParams,
}

/// The release decision. The supplied custody record address must be the
/// one derived for the depositor, the vault and the relayer's token account
/// must be owned as expected, and the release transfer must pass the
/// checked-transfer rules for the full recorded balance; the plan then
/// carries that amount, the fee-reduced net amount, and the single-period
/// stream parameters.
pub open spec fn spec_plan_create_sf(
    pre: CreateSfV,
    args: CreateSfIxArgs,
    program: Seq<u8>,
) -> Result<SfPlan, EscrowError> {
    match custody_derivation(spec_domain_tag(), pre.depositor, program) {
        Option::None => Err(EscrowError::DerivationFailed),
        Option::Some(d) => if d.0 != pre.depositor_account_key {
            Err(EscrowError::InvalidDerivedAccount)
        } else if pre.depositor_vault.authority != pre.depositor_account_key {
            Err(EscrowError::InvalidDerivedAccount)
        } else if pre.sender_tokens.authority != pre.sender {
            Err(EscrowError::InvalidDerivedAccount)
        } else {
            match spec_transfer_checked(
                pre.depositor_vault,
                pre.sender_tokens,
                pre.depositor_account_key,
                pre.recorded_balance,
                ASSET_DECIMALS,
                pre.mint_decimals,
            ) {
                Err(e) => Err(e),
                Ok(_) => Ok(
                    SfPlan {
                        amount: pre.recorded_balance,
                        net_amount: spec_net_amount(pre.recorded_balance) as u64,
                        params: spec_stream_params(
                            args,
                            spec_net_amount(pre.recorded_balance) as u64,
                        ),
                    },
                ),
            }
        },
    }
}

/// The release transition, given the streaming service's verdict on the
/// composed parameters. A rejected stream, like every earlier failure,
/// yields an error and leaves every account as it was; only a fully
/// successful release moves the recorded balance from the vault to the
/// relayer's token account. The custody record keeps its recorded balance
/// even after a successful release.
pub open spec fn spec_create_sf(
    pre: CreateSfV,
    args: CreateSfIxArgs,
    program: Seq<u8>,
    verdict: Result<(), StreamError>,
) -> Result<CreateSfV, EscrowError> {
    match spec_plan_create_sf(pre, args, program) {
        Err(e) => Err(e),
        Ok(plan) => match verdict {
            Err(_) => Err(EscrowError::StreamRejected),
            Ok(_) => match spec_transfer_checked(
                pre.depositor_vault,
                pre.sender_tokens,
                pre.depositor_account_key,
                plan.amount,
                ASSET_DECIMALS,
                pre.mint_decimals,
            ) {
                Err(e) => Err(e),
                Ok(pair) => Ok(CreateSfV { depositor_vault: pair.0, sender_tokens: pair.1, ..pre }),
            },
        },
    }
}

/// Decides a release without touching any account: re-derives the custody
/// authority, validates the supplied accounts against it, checks that the
/// vault can cover the recorded balance, and composes the fee-reduced
/// stream parameters.
pub fn plan_create_sf(ctx: &CreateSf, args: &CreateSfIxArgs, program: &Identity) -> (r: Result<
    SfPlan,
    EscrowError,
>)
    requires
        ctx.wf(),
        program.wf(),
    ensures
        r == spec_plan_create_sf(ctx@, *args, program@),
{
    let derived = derive_custody_authority(&ctx.depositor, program);
    match derived {
        Option::None => Err(EscrowError::DerivationFailed),
        Option::Some(d) => {
            if !d.0.same_as(&ctx.depositor_account_key) {
                return Err(EscrowError::InvalidDerivedAccount);
            }
            if !ctx.depositor_vault.authority.same_as(&ctx.depositor_account_key) {
                return Err(EscrowError::InvalidDerivedAccount);
            }
            if !ctx.sender_tokens.authority.same_as(&ctx.sender) {
                return Err(EscrowError::InvalidDerivedAccount);
            }
            let amount = ctx.depositor_account.amount;
            if ASSET_DECIMALS != ctx.mint_decimals {
                return Err(EscrowError::PrecisionMismatch);
            }
            if ctx.depositor_vault.balance < amount {
                return Err(EscrowError::InsufficientFunds);
            }
            if amount > u64::MAX - ctx.sender_tokens.balance {
                return Err(EscrowError::BalanceOverflow);
            }
            let net_amount = net_amount_after_fee(amount);
            let params = build_stream_params(args, net_amount);
            let plan = SfPlan { amount, net_amount, params };
            proof {
                assert(spec_plan_create_sf(ctx@, *args, program@) matches Ok(p) && p =~= plan);
            }
            Ok(plan)
        },
    }
}

/// Runs a release: authorizes and plans it, consults the streaming
/// service's verdict on the composed parameters, and only then moves the
/// recorded balance out of the vault. Any failure, the service's rejection
/// included, leaves the whole context unchanged.
pub fn create_sf(
    ctx: &mut CreateSf,
    args: &CreateSfIxArgs,
    program: &Identity,
    verdict: Result<(), StreamError>,
) -> (r: Result<(), EscrowError>)
    requires
        old(ctx).wf(),
        program.wf(),
    ensures
        final(ctx).wf(),
        match r {
            Ok(_) => spec_create_sf(old(ctx)@, *args, program@, verdict) == Ok::<
                CreateSfV,
                EscrowError,
            >(final(ctx)@),
            Err(e) => spec_create_sf(old(ctx)@, *args, program@, verdict) == Err::<
                CreateSfV,
                EscrowError,
            >(e) && final(ctx)@ == old(ctx)@,
        },
{
    let plan = plan_create_sf(ctx, args, program);
    match plan {
        Err(e) => Err(e),
        Ok(p) => {
            match verdict {
                Err(_) => Err(EscrowError::StreamRejected),
                Ok(_) => {
                    ctx.depositor_vault.balance = ctx.depositor_vault.balance - p.amount;
                    ctx.sender_tokens.balance = ctx.sender_tokens.balance + p.amount;
                    proof {
                        assert(spec_create_sf(old(ctx)@, *args, program@, verdict) matches Ok(post)
                            && post =~= ctx@);
                    }
                    Ok(())
                },
            }
        },
    }
}

/// Atomic failure: when the streaming service rejects the composed
/// parameters, the release transition yields an error; by `create_sf`'s
/// contract, an erroneous release leaves every account, the vault balance
/// included, exactly as it was.
pub proof fn lemma_stream_rejection_is_atomic(
    pre: CreateSfV,
    args: CreateSfIxArgs,
    program: Seq<u8>,
    verdict: Result<(), StreamError>,
)
    requires
        verdict is Err,
    ensures
        spec_create_sf(pre, args, program, verdict) is Err,
{
}

/// Authorization boundary: a release whose supplied custody account was
/// derived for a different owner than the depositor is rejected, provided
/// the two owners' derivations differ. By `create_sf`'s contract, the
/// rejection leaves every account unchanged.
pub proof fn lemma_foreign_custody_account_rejected(
    pre: CreateSfV,
    args: CreateSfIxArgs,
    program: Seq<u8>,
    verdict: Result<(), StreamError>,
    other_owner: Seq<u8>,
    other_derived: (Seq<u8>, u8),
    own_derived: (Seq<u8>, u8),
)
    requires
        custody_derivation(spec_domain_tag(), other_owner, program) == Some(other_derived),
        custody_derivation(spec_domain_tag(), pre.depositor, program) == Some(own_derived),
        pre.depositor_account_key == other_derived.0,
        other_derived.0 != own_derived.0,
    ensures
        spec_create_sf(pre, args, program, verdict) == Err::<CreateSfV, EscrowError>(
            EscrowError::InvalidDerivedAccount,
        ),
{
}

/// Insufficient funds: when the recorded balance exceeds the vault's actual
/// balance, an otherwise well-formed release fails with an
/// insufficient-funds error, so no stream is created and, by `create_sf`'s
/// contract, no account changes.
pub proof fn lemma_insufficient_vault_rejected(
    pre: CreateSfV,
    args: CreateSfIxArgs,
    program: Seq<u8>,
    verdict: Result<(), StreamError>,
)
    requires
        custody_derivation(spec_domain_tag(), pre.depositor, program) matches Some(d) && d.0
            == pre.depositor_account_key,
        pre.depositor_vault.authority == pre.depositor_account_key,
        pre.sender_tokens.authority == pre.sender,
        pre.mint_decimals == ASSET_DECIMALS,
        pre.recorded_balance > pre.depositor_vault.balance,
    ensures
        spec_create_sf(pre, args, program, verdict) == Err::<CreateSfV, EscrowError>(
            EscrowError::InsufficientFunds,
        ),
{
}

} // verus!
