use escrow_ledger::Deposit;
use escrow_ledger::ErrorCode;
use escrow_ledger::EscrowAccount;
use escrow_ledger::Identity;
use escrow_ledger::Initialize;
use escrow_ledger::TransferAuthority;
use escrow_ledger::TransferOrder;
use escrow_ledger::Withdraw;
use escrow_ledger::deposit;
use escrow_ledger::deposit_settle;
use escrow_ledger::initialize;
use escrow_ledger::withdraw;
use escrow_ledger::withdraw_settle;

fn ident(n: u64) -> Identity {
    Identity { w0: n, w1: 0, w2: 0, w3: 0 }
}

fn fresh_account(owner: u64, token_account: u64) -> EscrowAccount {
    initialize(&Initialize { user: ident(owner), token_account: ident(token_account) })
}

fn deposit_call(owner: u64) -> Deposit {
    Deposit {
        owner: ident(owner),
        owner_token_account: ident(100),
        escrow_token_account: ident(200),
    }
}

fn withdraw_call(owner: u64) -> Withdraw {
    Withdraw {
        owner: ident(owner),
        owner_token_account: ident(100),
        escrow_token_account: ident(200),
    }
}

#[test]
fn initialize_sets_owner_token_account_and_zero_balance() {
    let escrow = fresh_account(1, 2);
    assert_eq!(escrow.owner, ident(1));
    assert_eq!(escrow.token_account, ident(2));
    assert_eq!(escrow.balance, 0);
}

#[test]
fn deposit_by_owner_orders_transfer_and_grows_balance() {
    let mut escrow = fresh_account(1, 200);
    let order = deposit(&escrow, &deposit_call(1), 100).unwrap();
    assert_eq!(
        order,
        TransferOrder {
            from: ident(100),
            to: ident(200),
            authority: TransferAuthority::Owner(ident(1)),
            amount: 100,
        }
    );
    let settled: Result<(), u32> = deposit_settle(&mut escrow, order.amount, Ok(()));
    assert_eq!(settled, Ok(()));
    assert_eq!(escrow.balance, 100);
    assert_eq!(escrow.owner, ident(1));
    assert_eq!(escrow.token_account, ident(200));
}

#[test]
fn deposit_by_stranger_is_unauthorized() {
    let escrow = fresh_account(1, 200);
    assert_eq!(deposit(&escrow, &deposit_call(9), 100), Err(ErrorCode::Unauthorized));
    assert_eq!(escrow.balance, 0);
}

#[test]
fn deposit_overflowing_the_balance_fails_closed() {
    let mut escrow = fresh_account(1, 200);
    let order = deposit(&escrow, &deposit_call(1), u64::MAX - 5).unwrap();
    let settled: Result<(), u32> = deposit_settle(&mut escrow, order.amount, Ok(()));
    assert_eq!(settled, Ok(()));
    assert_eq!(deposit(&escrow, &deposit_call(1), 6), Err(ErrorCode::BalanceOverflow));
    assert_eq!(escrow.balance, u64::MAX - 5);
    assert!(deposit(&escrow, &deposit_call(1), 5).is_ok());
}

#[test]
fn withdraw_by_stranger_is_unauthorized_before_funds_are_looked_at() {
    let mut escrow = fresh_account(1, 200);
    let order = deposit(&escrow, &deposit_call(1), 40).unwrap();
    let _: Result<(), u32> = deposit_settle(&mut escrow, order.amount, Ok(()));
    // refused for identity, not for funds, even though the amount is covered
    assert_eq!(withdraw(&escrow, &withdraw_call(9), 10), Err(ErrorCode::Unauthorized));
    // and also when the amount would not be covered
    assert_eq!(withdraw(&escrow, &withdraw_call(9), 50), Err(ErrorCode::Unauthorized));
    assert_eq!(escrow.balance, 40);
}

#[test]
fn withdraw_beyond_balance_reports_insufficient_funds() {
    let mut escrow = fresh_account(1, 200);
    let order = deposit(&escrow, &deposit_call(1), 40).unwrap();
    let _: Result<(), u32> = deposit_settle(&mut escrow, order.amount, Ok(()));
    assert_eq!(withdraw(&escrow, &withdraw_call(1), 41), Err(ErrorCode::InsufficientFunds));
    assert_eq!(escrow.balance, 40);
}

#[test]
fn withdraw_order_moves_custodied_funds_under_escrow_authority() {
    let mut escrow = fresh_account(1, 200);
    let order = deposit(&escrow, &deposit_call(1), 40).unwrap();
    let _: Result<(), u32> = deposit_settle(&mut escrow, order.amount, Ok(()));
    let order = withdraw(&escrow, &withdraw_call(1), 15).unwrap();
    assert_eq!(
        order,
        TransferOrder {
            from: ident(200),
            to: ident(100),
            authority: TransferAuthority::Escrow,
            amount: 15,
        }
    );
}

#[test]
fn failed_transfer_leaves_balance_exactly_as_it_was() {
    let mut escrow = fresh_account(1, 200);
    let order = deposit(&escrow, &deposit_call(1), 70).unwrap();
    let _: Result<(), &str> = deposit_settle(&mut escrow, order.amount, Ok(()));

    // a deposit whose transfer fails commits nothing and surfaces the
    // collaborator's error unmodified
    let order = deposit(&escrow, &deposit_call(1), 5).unwrap();
    let settled = deposit_settle(&mut escrow, order.amount, Err("source account is short"));
    assert_eq!(settled, Err("source account is short"));
    assert_eq!(escrow.balance, 70);

    // the same for a withdrawal
    let order = withdraw(&escrow, &withdraw_call(1), 5).unwrap();
    let settled = withdraw_settle(&mut escrow, order.amount, Err("token ledger refused"));
    assert_eq!(settled, Err("token ledger refused"));
    assert_eq!(escrow.balance, 70);
}

#[test]
fn scenario_deposit_then_overdraw_then_withdraw_all() {
    let mut escrow = fresh_account(1, 200);
    assert_eq!(escrow.balance, 0);

    let order = deposit(&escrow, &deposit_call(1), 100).unwrap();
    let settled: Result<(), u32> = deposit_settle(&mut escrow, order.amount, Ok(()));
    assert_eq!(settled, Ok(()));
    assert_eq!(escrow.balance, 100);

    assert_eq!(deposit(&escrow, &deposit_call(2), 50), Err(ErrorCode::Unauthorized));
    assert_eq!(escrow.balance, 100);

    assert_eq!(withdraw(&escrow, &withdraw_call(1), 150), Err(ErrorCode::InsufficientFunds));
    assert_eq!(escrow.balance, 100);

    let order = withdraw(&escrow, &withdraw_call(1), 100).unwrap();
    let settled: Result<(), u32> = withdraw_settle(&mut escrow, order.amount, Ok(()));
    assert_eq!(settled, Ok(()));
    assert_eq!(escrow.balance, 0);
}

#[test]
fn successful_operations_conserve_the_balance() {
    let mut escrow = fresh_account(1, 200);
    let mut deposited: u64 = 0;
    let mut withdrawn: u64 = 0;

    for amount in [5u64, 7, 11] {
        let order = deposit(&escrow, &deposit_call(1), amount).unwrap();
        let settled: Result<(), u32> = deposit_settle(&mut escrow, order.amount, Ok(()));
        assert_eq!(settled, Ok(()));
        deposited += amount;
        assert_eq!(escrow.balance, deposited - withdrawn);
    }
    for amount in [3u64, 9] {
        let order = withdraw(&escrow, &withdraw_call(1), amount).unwrap();
        let settled: Result<(), u32> = withdraw_settle(&mut escrow, order.amount, Ok(()));
        assert_eq!(settled, Ok(()));
        withdrawn += amount;
        assert_eq!(escrow.balance, deposited - withdrawn);
    }
    assert_eq!(escrow.balance, 11);
}

#[test]
fn zero_amount_operations_are_admitted_and_change_nothing() {
    let mut escrow = fresh_account(1, 200);
    let order = deposit(&escrow, &deposit_call(1), 0).unwrap();
    assert_eq!(order.amount, 0);
    let settled: Result<(), u32> = deposit_settle(&mut escrow, order.amount, Ok(()));
    assert_eq!(settled, Ok(()));
    assert_eq!(escrow.balance, 0);
    let order = withdraw(&escrow, &withdraw_call(1), 0).unwrap();
    assert_eq!(order.amount, 0);
    let settled: Result<(), u32> = withdraw_settle(&mut escrow, order.amount, Ok(()));
    assert_eq!(settled, Ok(()));
    assert_eq!(escrow.balance, 0);
}
