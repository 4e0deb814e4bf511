//! The laws the controller obeys, stated over the specification-level
//! transition functions and proved once for all inputs.

use vstd::prelude::*;
use vstd::assert_seqs_equal;

use crate::account::EscrowAccount;
use crate::controller::Deposit;
use crate::controller::ErrorCode;
use crate::controller::TransferOrder;
use crate::controller::Withdraw;
use crate::controller::deposit_decision;
use crate::controller::deposit_step;
use crate::controller::withdraw_decision;
use crate::controller::withdraw_step;

verus! {

/// Authorization law, deposit half: whenever the caller is not the owner,
/// the deposit is refused with `Unauthorized` and the record is unchanged,
/// whatever the amount and whether or not a transfer would have succeeded.
pub proof fn lemma_deposit_requires_owner(
    escrow: EscrowAccount,
    call: Deposit,
    amount: u64,
    transfer_ok: bool,
)
    requires
        call.owner != escrow.owner,
    ensures
        deposit_decision(escrow, call, amount) == Err::<TransferOrder, ErrorCode>(ErrorCode::Unauthorized),
        deposit_step(escrow, call, amount, transfer_ok) == escrow,
{
}

/// Authorization law, withdrawal half: whenever the caller is not the owner,
/// the withdrawal is refused with `Unauthorized` and the record is
/// unchanged, whatever the amount and the funds available.
pub proof fn lemma_withdraw_requires_owner(
    escrow: EscrowAccount,
    call: Withdraw,
    amount: u64,
    transfer_ok: bool,
)
    requires
        call.owner != escrow.owner,
    ensures
        withdraw_decision(escrow, call, amount) == Err::<TransferOrder, ErrorCode>(ErrorCode::Unauthorized),
        withdraw_step(escrow, call, amount, transfer_ok) == escrow,
{
}

/// Sufficiency law: whenever the owner asks to withdraw more than the
/// balance, the withdrawal is refused with `InsufficientFunds` and the
/// record is unchanged.
pub proof fn lemma_withdraw_requires_funds(
    escrow: EscrowAccount,
    call: Withdraw,
    amount: u64,
    transfer_ok: bool,
)
    requires
        call.owner == escrow.owner,
        amount > escrow.balance,
    ensures
        withdraw_decision(escrow, call, amount) == Err::<TransferOrder, ErrorCode>(ErrorCode::InsufficientFunds),
        withdraw_step(escrow, call, amount, transfer_ok) == escrow,
{
}

/// Atomicity law: whenever the external transfer fails, the record after the
/// operation equals the record before it exactly, for deposits and
/// withdrawals alike, even when every local check had passed.
pub proof fn lemma_failed_transfer_changes_nothing(
    escrow: EscrowAccount,
    dcall: Deposit,
    wcall: Withdraw,
    amount: u64,
)
    ensures
        deposit_step(escrow, dcall, amount, false) == escrow,
        withdraw_step(escrow, wcall, amount, false) == escrow,
{
}

/// One balance movement of the abstract ledger: how much a successful
/// operation deposits into or withdraws from the holding balance.
pub enum LedgerOp {
    Deposit(u64),
    Withdraw(u64),
}

/// Whether one operation may succeed at the given balance: a deposit must
/// still be representable, a withdrawal must be covered.
pub open spec fn op_allowed(balance: u64, op: LedgerOp) -> bool {
    match op {
        LedgerOp::Deposit(amount) => balance + amount <= u64::MAX,
        LedgerOp::Withdraw(amount) => amount <= balance,
    }
}

/// The balance after one successful operation.
pub open spec fn op_apply(balance: u64, op: LedgerOp) -> u64 {
    match op {
        LedgerOp::Deposit(amount) => (balance + amount) as u64,
        LedgerOp::Withdraw(amount) => (balance - amount) as u64,
    }
}

/// Whether a whole sequence of operations succeeds in order from the given
/// balance.
pub open spec fn ops_allowed(balance: u64, ops: Seq<LedgerOp>) -> bool
    decreases ops.len(),
{
    ops.len() == 0 || (op_allowed(balance, ops[0]) && ops_allowed(
        op_apply(balance, ops[0]),
        ops.drop_first(),
    ))
}

/// The balance after a whole sequence of successful operations.
pub open spec fn ops_apply(balance: u64, ops: Seq<LedgerOp>) -> u64
    decreases ops.len(),
{
    if ops.len() == 0 {
        balance
    } else {
        ops_apply(op_apply(balance, ops[0]), ops.drop_first())
    }
}

/// The net amount a sequence of operations moves into the holding balance:
/// the sum of its deposits minus the sum of its withdrawals.
pub open spec fn net_amount(ops: Seq<LedgerOp>) -> int
    decreases ops.len(),
{
    if ops.len() == 0 {
        0
    } else {
        (match ops[0] {
            LedgerOp::Deposit(amount) => amount as int,
            LedgerOp::Withdraw(amount) => -(amount as int),
        }) + net_amount(ops.drop_first())
    }
}

/// A successful deposit moves the balance exactly as the abstract ledger
/// says: an authorized deposit is admitted precisely when the ledger allows
/// it, and committing it applies the ledger's deposit.
pub proof fn lemma_deposit_step_is_ledger_op(escrow: EscrowAccount, call: Deposit, amount: u64)
    requires
        call.owner == escrow.owner,
    ensures
        deposit_decision(escrow, call, amount) is Ok <==> op_allowed(
            escrow.balance,
            LedgerOp::Deposit(amount),
        ),
        deposit_decision(escrow, call, amount) is Ok ==> deposit_step(escrow, call, amount, true).balance
            == op_apply(escrow.balance, LedgerOp::Deposit(amount)),
{
}

/// A successful withdrawal moves the balance exactly as the abstract ledger
/// says, in the same shape as [`lemma_deposit_step_is_ledger_op`].
pub proof fn lemma_withdraw_step_is_ledger_op(escrow: EscrowAccount, call: Withdraw, amount: u64)
    requires
        call.owner == escrow.owner,
    ensures
        withdraw_decision(escrow, call, amount) is Ok <==> op_allowed(
            escrow.balance,
            LedgerOp::Withdraw(amount),
        ),
        withdraw_decision(escrow, call, amount) is Ok ==> withdraw_step(
            escrow,
            call,
            amount,
            true,
        ).balance == op_apply(escrow.balance, LedgerOp::Withdraw(amount)),
{
}

/// Running a successful sequence from any balance lands on that balance
/// plus the sequence's net amount.
pub proof fn lemma_ops_apply_is_net(balance: u64, ops: Seq<LedgerOp>)
    requires
        ops_allowed(balance, ops),
    ensures
        ops_apply(balance, ops) == balance + net_amount(ops),
    decreases ops.len(),
{
    if ops.len() > 0 {
        lemma_ops_apply_is_net(op_apply(balance, ops[0]), ops.drop_first());
    }
}

/// Every prefix of a successful sequence is itself successful.
pub proof fn lemma_prefix_allowed(balance: u64, ops: Seq<LedgerOp>, i: int)
    requires
        ops_allowed(balance, ops),
        0 <= i <= ops.len(),
    ensures
        ops_allowed(balance, ops.take(i)),
    decreases i,
{
    if i > 0 {
        lemma_prefix_allowed(op_apply(balance, ops[0]), ops.drop_first(), i - 1);
        assert_seqs_equal!(ops.take(i).drop_first() == ops.drop_first().take(i - 1));
    }
}

/// Balance conservation law: a sequence of successful deposits and
/// withdrawals starting from a zero balance ends with exactly the sum of the
/// deposited amounts minus the sum of the withdrawn amounts, and the running
/// net amount never goes negative at any prefix of the sequence.
pub proof fn lemma_balance_conservation(ops: Seq<LedgerOp>)
    requires
        ops_allowed(0, ops),
    ensures
        ops_apply(0, ops) == net_amount(ops),
        forall|i: int| 0 <= i <= ops.len() ==> #[trigger] net_amount(ops.take(i)) >= 0,
{
    lemma_ops_apply_is_net(0, ops);
    assert forall|i: int| 0 <= i <= ops.len() implies #[trigger] net_amount(ops.take(i)) >= 0 by {
        lemma_prefix_allowed(0, ops, i);
        lemma_ops_apply_is_net(0, ops.take(i));
    }
}

} // verus!
