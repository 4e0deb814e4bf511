//! A minimal custodial escrow ledger.
//!
//! One owner deposits fungible-token value into a segregated holding balance
//! and later withdraws it. Every operation is gated by an ownership check and,
//! for withdrawals, a balance-sufficiency check. The actual movement of token
//! value between token-holding accounts is an external collaborator: the
//! controller decides whether a transfer may be attempted, hands the caller a
//! transfer order, and applies the balance update only once the caller reports
//! that the transfer succeeded.

mod account;
mod controller;
mod laws;

pub use account::EscrowAccount;
pub use account::Identity;
pub use controller::Deposit;
pub use controller::ErrorCode;
pub use controller::Initialize;
pub use controller::TransferAuthority;
pub use controller::TransferOrder;
pub use controller::Withdraw;
pub use controller::deposit;
pub use controller::deposit_decision;
pub use controller::deposit_settle;
pub use controller::deposit_step;
pub use controller::initialize;
pub use controller::withdraw;
pub use controller::withdraw_decision;
pub use controller::withdraw_settle;
pub use controller::withdraw_step;
pub use laws::LedgerOp;
pub use laws::lemma_balance_conservation;
pub use laws::lemma_deposit_requires_owner;
pub use laws::lemma_deposit_step_is_ledger_op;
pub use laws::lemma_failed_transfer_changes_nothing;
pub use laws::lemma_ops_apply_is_net;
pub use laws::lemma_prefix_allowed;
pub use laws::lemma_withdraw_requires_funds;
pub use laws::lemma_withdraw_requires_owner;
pub use laws::lemma_withdraw_step_is_ledger_op;
pub use laws::net_amount;
pub use laws::op_allowed;
pub use laws::op_apply;
pub use laws::ops_allowed;
pub use laws::ops_apply;
