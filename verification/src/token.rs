//! Model of the token accounts the protocol moves funds between, and of the
//! audited checked-transfer primitive it relies on.

use vstd::prelude::*;

use crate::errors::EscrowError;
use crate::identity::Identity;

verus! {

/// Decimal precision the protocol fixes for its configured asset.
pub const ASSET_DECIMALS: u8 = 9;

/// A token-holding account: its address, the identity allowed to move its
/// funds, and its balance.
pub struct TokenAccount {
    pub address: Identity,
    pub authority: Identity,
    pub balance: u64,
}

/// Mathematical value of a [`TokenAccount`].
#[verifier::ext_equal]
pub struct TokenAccountV {
    pub address: Seq<u8>,
    pub authority: Seq<u8>,
    pub balance: u64,
}

impl View for TokenAccount {
    type V = TokenAccountV;

    open spec fn view(&self) -> TokenAccountV {
        TokenAccountV { address: self.address@, authority: self.authority@, balance: self.balance }
    }
}

impl TokenAccount {
    /// Well-formed: address and authority are full-length identities.
    pub open spec fn wf(&self) -> bool {
        self.address.wf() && self.authority.wf()
    }
}

/// What the checked-transfer primitive does: `amount` moves from `from` to
/// `to` when the presented authority owns `from`, the caller's precision
/// matches the asset's, the source balance suffices and the destination
/// balance stays representable; otherwise the matching error comes back and
/// both accounts stay as they were.
pub open spec fn spec_transfer_checked(
    from: TokenAccountV,
    to: TokenAccountV,
    authority: Seq<u8>,
    amount: u64,
    expected_decimals: u8,
    mint_decimals: u8,
) -> Result<(TokenAccountV, TokenAccountV), EscrowError> {
    if from.authority != authority {
        Err(EscrowError::InvalidAuthority)
    } else if expected_decimals != mint_decimals {
        Err(EscrowError::PrecisionMismatch)
    } else if from.balance < amount {
        Err(EscrowError::InsufficientFunds)
    } else if to.balance + amount > u64::MAX {
        Err(EscrowError::BalanceOverflow)
    } else {
        Ok(
            (
                TokenAccountV {
                    address: from.address,
                    authority: from.authority,
                    balance: (from.balance - amount) as u64,
                },
                TokenAccountV {
                    address: to.address,
                    authority: to.authority,
                    balance: (to.balance + amount) as u64,
                },
            ),
        )
    }
}

/// Moves `amount` from `from` to `to` if the authority, precision and
/// balance checks pass; a failing call changes neither account.
pub fn transfer_checked(
    from: &mut TokenAccount,
    to: &mut TokenAccount,
    authority: &Identity,
    amount: u64,
    expected_decimals: u8,
    mint_decimals: u8,
) -> (r: Result<(), EscrowError>)
    ensures
        match r {
            Ok(_) => spec_transfer_checked(
                old(from)@,
                old(to)@,
                authority@,
                amount,
                expected_decimals,
                mint_decimals,
            ) == Ok::<_, EscrowError>((final(from)@, final(to)@)),
            Err(e) => spec_transfer_checked(
                old(from)@,
                old(to)@,
                authority@,
                amount,
                expected_decimals,
                mint_decimals,
            ) == Err::<(TokenAccountV, TokenAccountV), _>(e) && final(from)@ == old(from)@
                && final(to)@ == old(to)@,
        },
{
    if !from.authority.same_as(authority) {
        return Err(EscrowError::InvalidAuthority);
    }
    if expected_decimals != mint_decimals {
        return Err(EscrowError::PrecisionMismatch);
    }
    if from.balance < amount {
        return Err(EscrowError::InsufficientFunds);
    }
    if amount > u64::MAX - to.balance {
        return Err(EscrowError::BalanceOverflow);
    }
    from.balance = from.balance - amount;
    to.balance = to.balance + amount;
    proof {
        assert(spec_transfer_checked(
            old(from)@,
            old(to)@,
            authority@,
            amount,
            expected_decimals,
            mint_decimals,
        ) matches Ok(pair) && pair.0 =~= from@ && pair.1 =~= to@);
    }
    Ok(())
}

} // verus!
