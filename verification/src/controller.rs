//! The escrow controller: Initialize, Deposit and Withdraw.
//!
//! Each balance-mutating operation is split along its one external call, the
//! token transfer. The decision half (`deposit`, `withdraw`) validates the
//! caller and the balance and, when every check passes, returns the
//! [`TransferOrder`] the host must carry out. The settlement half
//! (`deposit_settle`, `withdraw_settle`) takes the outcome of that transfer
//! and commits the balance update only on success, so a failed transfer
//! leaves the record exactly as it was.

use vstd::prelude::*;

use crate::account::EscrowAccount;
use crate::account::Identity;

verus! {

/// The reasons a deposit or a withdrawal is refused before any external
/// transfer is attempted. Every refusal is detected locally and leaves the
/// record untouched.
#[derive(Clone, Copy, PartialEq, Eq, Structural, Debug)]
pub enum ErrorCode {
    /// The caller is not the account's owner.
    Unauthorized,
    /// The withdrawal amount exceeds the current balance.
    InsufficientFunds,
    /// Committing the deposit would overflow the 64-bit balance; the
    /// controller fails closed rather than wrapping or saturating.
    BalanceOverflow,
}

/// Who authorizes a transfer between token-holding accounts.
#[derive(Clone, Copy, PartialEq, Eq, Structural, Debug)]
pub enum TransferAuthority {
    /// The named identity signs for the movement out of its own account.
    Owner(Identity),
    /// The controller's own custody capability over the escrow-held token
    /// account; it is never exposed outside the controller's host.
    Escrow,
}

/// An instruction to the external transfer primitive: move `amount` token
/// base units from `from` to `to`, authorized by `authority`.
#[derive(Clone, Copy, PartialEq, Eq, Structural, Debug)]
pub struct TransferOrder {
    pub from: Identity,
    pub to: Identity,
    pub authority: TransferAuthority,
    pub amount: u64,
}

/// The accounts an initialization call presents: the verified caller, who
/// becomes the owner, and the token-holding account the escrow will custody.
#[derive(Clone, Copy, PartialEq, Eq, Structural, Debug)]
pub struct Initialize {
    pub user: Identity,
    pub token_account: Identity,
}

/// The accounts a deposit call presents: the verified caller and the two
/// token-holding accounts value moves between.
#[derive(Clone, Copy, PartialEq, Eq, Structural, Debug)]
pub struct Deposit {
    pub owner: Identity,
    pub owner_token_account: Identity,
    pub escrow_token_account: Identity,
}

/// The accounts a withdrawal call presents: the verified caller and the two
/// token-holding accounts value moves between.
#[derive(Clone, Copy, PartialEq, Eq, Structural, Debug)]
pub struct Withdraw {
    pub owner: Identity,
    pub owner_token_account: Identity,
    pub escrow_token_account: Identity,
}

/// What a deposit call decides, before any external transfer: refused with
/// `Unauthorized` when the caller is not the owner, refused with
/// `BalanceOverflow` when committing the amount could not be represented,
/// and otherwise an order moving the amount from the caller's token account
/// into the escrow-held one, signed by the caller.
pub open spec fn deposit_decision(escrow: EscrowAccount, call: Deposit, amount: u64) -> Result<
    TransferOrder,
    ErrorCode,
> {
    if call.owner != escrow.owner {
        Err(ErrorCode::Unauthorized)
    } else if escrow.balance + amount > u64::MAX {
        Err(ErrorCode::BalanceOverflow)
    } else {
        Ok(
            TransferOrder {
                from: call.owner_token_account,
                to: call.escrow_token_account,
                authority: TransferAuthority::Owner(call.owner),
                amount,
            },
        )
    }
}

/// What a withdrawal call decides, before any external transfer: refused
/// with `Unauthorized` when the caller is not the owner, refused with
/// `InsufficientFunds` when the amount exceeds the balance, and otherwise an
/// order moving the amount from the escrow-held token account back to the
/// caller's, authorized by the controller's custody capability.
pub open spec fn withdraw_decision(escrow: EscrowAccount, call: Withdraw, amount: u64) -> Result<
    TransferOrder,
    ErrorCode,
> {
    if call.owner != escrow.owner {
        Err(ErrorCode::Unauthorized)
    } else if amount > escrow.balance {
        Err(ErrorCode::InsufficientFunds)
    } else {
        Ok(
            TransferOrder {
                from: call.escrow_token_account,
                to: call.owner_token_account,
                authority: TransferAuthority::Escrow,
                amount,
            },
        )
    }
}

/// Creates the escrow record: the caller becomes the sole owner, the given
/// token-holding account is bound for the record's lifetime, and the balance
/// starts at zero. Exactly-once creation per identifier is the storage
/// collaborator's duty; the controller only ever constructs a fresh record
/// and never resets an existing one.
pub fn initialize(call: &Initialize) -> (r: EscrowAccount)
    ensures
        r.owner == call.user,
        r.token_account == call.token_account,
        r.balance == 0,
{
    EscrowAccount { owner: call.user, token_account: call.token_account, balance: 0 }
}

/// The decision half of a deposit. On success the returned order is what the
/// host must hand to the external transfer primitive before settling with
/// [`deposit_settle`]; on refusal nothing may be transferred. The record is
/// read only, so a refused call trivially leaves the balance unchanged.
pub fn deposit(escrow: &EscrowAccount, call: &Deposit, amount: u64) -> (r: Result<
    TransferOrder,
    ErrorCode,
>)
    ensures
        r == deposit_decision(*escrow, *call, amount),
{
    if call.owner != escrow.owner {
        Err(ErrorCode::Unauthorized)
    } else if amount > u64::MAX - escrow.balance {
        Err(ErrorCode::BalanceOverflow)
    } else {
        Ok(
            TransferOrder {
                from: call.owner_token_account,
                to: call.escrow_token_account,
                authority: TransferAuthority::Owner(call.owner),
                amount,
            },
        )
    }
}

/// The settlement half of a deposit: takes the outcome of the external
/// transfer the order directed. On success the balance grows by exactly the
/// amount; on failure the record is left untouched and the transfer's own
/// error is surfaced unmodified. Owner and token account never change.
pub fn deposit_settle<E>(escrow: &mut EscrowAccount, amount: u64, transfer: Result<(), E>) -> (r:
    Result<(), E>)
    requires
        old(escrow).balance + amount <= u64::MAX,
    ensures
        final(escrow).owner == old(escrow).owner,
        final(escrow).token_account == old(escrow).token_account,
        transfer is Ok ==> final(escrow).balance == old(escrow).balance + amount,
        transfer is Err ==> *final(escrow) == *old(escrow),
        r == transfer,
{
    if transfer.is_ok() {
        escrow.balance = escrow.balance + amount;
    }
    transfer
}

/// The decision half of a withdrawal. On success the returned order is what
/// the host must hand to the external transfer primitive before settling
/// with [`withdraw_settle`]; on refusal nothing may be transferred. The
/// record is read only, so a refused call trivially leaves the balance
/// unchanged.
pub fn withdraw(escrow: &EscrowAccount, call: &Withdraw, amount: u64) -> (r: Result<
    TransferOrder,
    ErrorCode,
>)
    ensures
        r == withdraw_decision(*escrow, *call, amount),
{
    if call.owner != escrow.owner {
        Err(ErrorCode::Unauthorized)
    } else if amount > escrow.balance {
        Err(ErrorCode::InsufficientFunds)
    } else {
        Ok(
            TransferOrder {
                from: call.escrow_token_account,
                to: call.owner_token_account,
                authority: TransferAuthority::Escrow,
                amount,
            },
        )
    }
}

/// The settlement half of a withdrawal: takes the outcome of the external
/// transfer the order directed. On success the balance shrinks by exactly
/// the amount; on failure the record is left untouched and the transfer's
/// own error is surfaced unmodified. Owner and token account never change.
pub fn withdraw_settle<E>(escrow: &mut EscrowAccount, amount: u64, transfer: Result<(), E>) -> (r:
    Result<(), E>)
    requires
        amount <= old(escrow).balance,
    ensures
        final(escrow).owner == old(escrow).owner,
        final(escrow).token_account == old(escrow).token_account,
        transfer is Ok ==> final(escrow).balance == old(escrow).balance - amount,
        transfer is Err ==> *final(escrow) == *old(escrow),
        r == transfer,
{
    if transfer.is_ok() {
        escrow.balance = escrow.balance - amount;
    }
    transfer
}

/// The complete deposit operation as one transition: the decision, the
/// external transfer (represented by whether it succeeded), and the
/// settlement. The record changes exactly when the decision admits the call
/// and the transfer went through, and then only in its balance.
pub open spec fn deposit_step(
    escrow: EscrowAccount,
    call: Deposit,
    amount: u64,
    transfer_ok: bool,
) -> EscrowAccount {
    if deposit_decision(escrow, call, amount) is Ok && transfer_ok {
        EscrowAccount {
            owner: escrow.owner,
            token_account: escrow.token_account,
            balance: (escrow.balance + amount) as u64,
        }
    } else {
        escrow
    }
}

/// The complete withdrawal operation as one transition, in the same shape as
/// [`deposit_step`].
pub open spec fn withdraw_step(
    escrow: EscrowAccount,
    call: Withdraw,
    amount: u64,
    transfer_ok: bool,
) -> EscrowAccount {
    if withdraw_decision(escrow, call, amount) is Ok && transfer_ok {
        EscrowAccount {
            owner: escrow.owner,
            token_account: escrow.token_account,
            balance: (escrow.balance - amount) as u64,
        }
    } else {
        escrow
    }
}

} // verus!

