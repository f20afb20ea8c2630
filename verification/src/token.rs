//! Token accounts and the movement of funds between them.

use crate::address::Address;
use vstd::prelude::*;

verus! {

/// An account that holds an amount of one asset for its owner.
#[derive(Clone, Copy, Debug)]
pub struct TokenAccount {
    /// Where the account lives.
    pub key: Address,
    /// The asset it holds.
    pub mint: Address,
    /// The identity that may move its funds.
    pub owner: Address,
    /// How much it holds.
    pub amount: u64,
    /// The identity that the owner has allowed to move funds, if any.
    pub delegate: Option<Address>,
    /// How much the delegate may still move.
    pub delegated_amount: u64,
}

/// Why a transfer did not happen.
#[derive(Clone, Copy, Debug, PartialEq, Eq, Structural)]
pub enum TransferError {
    /// The paying account holds less than the amount, or its delegate may
    /// not move as much.
    InsufficientBalance,
    /// The two accounts hold different assets.
    MintMismatch,
    /// The signer is neither the owner nor the delegate of the paying account.
    Unauthorized,
    /// The receiving account cannot hold the sum.
    Overflow,
}

/// `authority` signs for `account` as its delegate.
pub open spec fn is_delegate(account: TokenAccount, authority: Address) -> bool {
    account.delegate == Some(authority)
}

/// What a transfer of `amount` from `from` to `to` is refused for, if it is,
/// when `authority` signs it.
pub open spec fn transfer_error(
    from: TokenAccount,
    to: TokenAccount,
    authority: Address,
    amount: u64,
) -> Option<TransferError> {
    if from.amount < amount {
        Some(TransferError::InsufficientBalance)
    } else if from.mint != to.mint {
        Some(TransferError::MintMismatch)
    } else if is_delegate(from, authority) && from.delegated_amount < amount {
        Some(TransferError::InsufficientBalance)
    } else if !is_delegate(from, authority) && from.owner != authority {
        Some(TransferError::Unauthorized)
    } else if to.amount + amount > u64::MAX {
        Some(TransferError::Overflow)
    } else {
        None
    }
}

/// `account` with `amount` taken out under the signature of `authority`.
/// Where the delegate signed, it may move as much less afterwards, and is no
/// longer the delegate once it may move nothing.
pub open spec fn debited(account: TokenAccount, authority: Address, amount: u64) -> TokenAccount {
    if is_delegate(account, authority) {
        TokenAccount {
            amount: (account.amount - amount) as u64,
            delegate: if account.delegated_amount == amount {
                None
            } else {
                account.delegate
            },
            delegated_amount: (account.delegated_amount - amount) as u64,
            ..account
        }
    } else {
        TokenAccount { amount: (account.amount - amount) as u64, ..account }
    }
}

/// `account` with `amount` put in.
pub open spec fn credited(account: TokenAccount, amount: u64) -> TokenAccount {
    TokenAccount { amount: (account.amount + amount) as u64, ..account }
}

/// Moves `amount` from `from` to `to` under the signature of `authority`,
/// who must be the owner of `from` or its delegate.
///
/// The transfer is refused, and both accounts stay as they are, where `from`
/// holds less than `amount`, the accounts hold different assets, `authority`
/// may not move the amount, or `to` cannot hold the sum.
pub fn transfer(
    from: &mut TokenAccount,
    to: &mut TokenAccount,
    authority: &Address,
    amount: u64,
) -> (r: Result<(), TransferError>)
    ensures
        match transfer_error(*old(from), *old(to), *authority, amount) {
            Some(e) => r == Err::<(), TransferError>(e) && *final(from) == *old(from) && *final(to)
                == *old(to),
            None => r is Ok && *final(from) == debited(*old(from), *authority, amount) && *final(to) == credited(*old(to), amount),
        },
{
    if from.amount < amount {
        return Err(TransferError::InsufficientBalance);
    }
    if from.mint != to.mint {
        return Err(TransferError::MintMismatch);
    }
    let as_delegate = match from.delegate {
        Some(delegate) => delegate == *authority,
        None => false,
    };
    if as_delegate {
        if from.delegated_amount < amount {
            return Err(TransferError::InsufficientBalance);
        }
    } else if from.owner != *authority {
        return Err(TransferError::Unauthorized);
    }
    if amount > u64::MAX - to.amount {
        return Err(TransferError::Overflow);
    }
    if as_delegate {
        from.delegated_amount = from.delegated_amount - amount;
        if from.delegated_amount == 0 {
            from.delegate = None;
        }
    }
    from.amount = from.amount - amount;
    to.amount = to.amount + amount;
    Ok(())
}

} // verus!
