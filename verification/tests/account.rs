//! Tests of the account state machine: deposits, withdrawals and the
//! dispute lifecycle. Amounts are written as counts of ten-thousandths of a
//! unit, so `625_550` is 62.555.

use transactions_handler::Account;
use transactions_handler::Amount;
use transactions_handler::Error;
use transactions_handler::Snapshot;
use transactions_handler::Transaction;

#[test]
fn test_do_not_double_chargeback_withdraw() {
    let dep = Transaction::create_deposit(2, 1, Amount::from_raw(625_550)).unwrap();
    let withdraw = Transaction::create_withdraw(2, 2, Amount::from_raw(300_000)).unwrap();
    let disp = Transaction::create_dispute(2, withdraw.tx).unwrap();
    let chargeback = Transaction::create_chargeback(2, withdraw.tx).unwrap();
    let chargeback2 = Transaction::create_chargeback(2, withdraw.tx).unwrap();

    let mut account = Account::new(2);
    account.add_transaction(dep).unwrap();
    account.add_transaction(withdraw).unwrap();

    account.add_transaction(disp).unwrap();
    let s = account.take_snapshot();
    assert_eq!(s.get_available(), Amount::from_raw(325_550));
    assert_eq!(s.held, Amount::from_raw(300_000));

    account.add_transaction(chargeback).unwrap();
    let s = account.take_snapshot();
    assert_eq!(s.get_available(), s.total);
    assert_eq!(s.total, Amount::from_raw(325_550));
    assert_eq!(s.held, Amount::from_raw(0));

    account.add_transaction(chargeback2).unwrap();
    let s = account.take_snapshot();
    assert_eq!(s.get_available(), s.total);
    assert_eq!(s.total, Amount::from_raw(325_550));
    assert_eq!(s.held, Amount::from_raw(0));
}

#[test]
fn test_chargeback_withdraw() {
    let dep = Transaction::create_deposit(2, 1, Amount::from_raw(625_550)).unwrap();
    let withdraw = Transaction::create_withdraw(2, 2, Amount::from_raw(300_000)).unwrap();
    let disp = Transaction::create_dispute(2, withdraw.tx).unwrap();
    let chargeback = Transaction::create_chargeback(2, withdraw.tx).unwrap();

    let mut account = Account::new(2);
    account.add_transaction(dep).unwrap();
    account.add_transaction(withdraw).unwrap();

    account.add_transaction(disp).unwrap();
    let s = account.take_snapshot();
    assert_eq!(s.get_available(), Amount::from_raw(325_550));
    assert_eq!(s.held, Amount::from_raw(300_000));

    account.add_transaction(chargeback).unwrap();
    let s = account.take_snapshot();
    assert_eq!(s.get_available(), s.total);
    assert_eq!(s.total, Amount::from_raw(325_550));
    assert_eq!(s.held, Amount::from_raw(0));
}

#[test]
fn test_chargeback_deposit() {
    let dep1 = Transaction::create_deposit(2, 1, Amount::from_raw(57_231)).unwrap();
    let dep2 = Transaction::create_deposit(2, 2, Amount::from_raw(100_000)).unwrap();
    let disp = Transaction::create_dispute(2, 1).unwrap();
    let chargeback = Transaction::create_chargeback(2, 1).unwrap();

    let mut account = Account::new(2);
    account.add_transaction(dep1).unwrap();
    account.add_transaction(dep2).unwrap();

    account.add_transaction(disp).unwrap();
    let s = account.take_snapshot();
    assert_eq!(s.total, Amount::from_raw(157_231));
    assert_eq!(s.held, Amount::from_raw(57_231));

    account.add_transaction(chargeback).unwrap();
    let s = account.take_snapshot();
    assert_eq!(s.get_available(), s.total);
    assert_eq!(s.total, Amount::from_raw(100_000));
    assert_eq!(s.held, Amount::from_raw(0));
}

#[test]
fn test_resolve_withdraw() {
    let dep = Transaction::create_deposit(2, 1, Amount::from_raw(572_310)).unwrap();
    let withdraw = Transaction::create_withdraw(2, 2, Amount::from_raw(100_000)).unwrap();
    let disp = Transaction::create_dispute(2, withdraw.tx).unwrap();
    let resolve = Transaction::create_resolve(2, withdraw.tx).unwrap();

    let mut account = Account::new(2);
    account.add_transaction(dep).unwrap();
    account.add_transaction(withdraw).unwrap();
    let s = account.take_snapshot();
    assert_eq!(s.get_available(), Amount::from_raw(472_310));
    assert_eq!(s.held, Amount::from_raw(0));

    account.add_transaction(disp).unwrap();
    let s = account.take_snapshot();
    assert_eq!(s.total, Amount::from_raw(572_310));
    assert_eq!(s.get_available(), Amount::from_raw(472_310));
    assert_eq!(s.held, Amount::from_raw(100_000));

    account.add_transaction(resolve).unwrap();
    let s = account.take_snapshot();
    assert_eq!(s.get_available(), s.total);
    assert_eq!(s.get_available(), Amount::from_raw(572_310));
    assert_eq!(s.held, Amount::from_raw(0));
}

#[test]
fn test_resolve_deposit() {
    let dep1 = Transaction::create_deposit(2, 1, Amount::from_raw(57_231)).unwrap();
    let dep2 = Transaction::create_deposit(2, 2, Amount::from_raw(100_000)).unwrap();
    let disp = Transaction::create_dispute(2, dep1.tx).unwrap();
    let resolve = Transaction::create_resolve(2, dep1.tx).unwrap();

    let mut account = Account::new(2);
    account.add_transaction(dep1).unwrap();
    account.add_transaction(dep2).unwrap();
    let s = account.take_snapshot();
    assert_eq!(s.get_available(), Amount::from_raw(157_231));
    assert_eq!(s.held, Amount::from_raw(0));

    account.add_transaction(disp).unwrap();
    let s = account.take_snapshot();
    assert_eq!(s.total, Amount::from_raw(157_231));
    assert_eq!(s.get_available(), Amount::from_raw(100_000));
    assert_eq!(s.held, Amount::from_raw(57_231));

    account.add_transaction(resolve).unwrap();
    let s = account.take_snapshot();
    assert_eq!(s.get_available(), s.total);
    assert_eq!(s.get_available(), Amount::from_raw(157_231));
    assert_eq!(s.held, Amount::from_raw(0));
}

#[test]
fn test_open_dispute_withdraw() {
    let dep1 = Transaction::create_deposit(2, 1, Amount::from_raw(572_222)).unwrap();
    let withdraw = Transaction::create_withdraw(2, 2, Amount::from_raw(100_000)).unwrap();
    let disp = Transaction::create_dispute(2, withdraw.tx).unwrap();

    let mut account = Account::new(2);
    account.add_transaction(dep1).unwrap();
    account.add_transaction(withdraw).unwrap();
    let s = account.take_snapshot();
    assert_eq!(s.get_available(), Amount::from_raw(472_222));
    assert_eq!(s.total, Amount::from_raw(472_222));
    assert_eq!(s.held, Amount::from_raw(0));

    account.add_transaction(disp).unwrap();
    let s = account.take_snapshot();
    assert_eq!(s.get_available(), Amount::from_raw(472_222));
    assert_eq!(s.total, Amount::from_raw(572_222));
    assert_eq!(s.held, Amount::from_raw(100_000));
}

#[test]
fn test_open_dispute_deposit() {
    let dep1 = Transaction::create_deposit(2, 1, Amount::from_raw(57_200)).unwrap();
    let dep2 = Transaction::create_deposit(2, 2, Amount::from_raw(100_000)).unwrap();
    let disp = Transaction::create_dispute(2, 1).unwrap();

    let mut account = Account::new(2);
    account.add_transaction(dep1).unwrap();
    account.add_transaction(dep2).unwrap();
    let s = account.take_snapshot();
    assert_eq!(s.get_available(), Amount::from_raw(157_200));

    account.add_transaction(disp).unwrap();
    let s = account.take_snapshot();
    assert_eq!(s.get_available(), Amount::from_raw(100_000));
    assert_eq!(s.total, Amount::from_raw(157_200));
    assert_eq!(s.held, Amount::from_raw(57_200));
}

#[test]
fn test_deposit_to_account() {
    let amount = Amount::from_raw(110_100);
    let t = Transaction::create_deposit(2, 5, amount.clone()).unwrap();
    let mut account = Account::new(2);
    assert_eq!(account.take_snapshot().get_available(), Amount::from_raw(0));

    account.add_transaction(t).unwrap();
    account.take_snapshot();
    assert_eq!(account.take_snapshot().get_available(), amount);
}

#[test]
fn test_withdraw_from_account() {
    let amount = Amount::from_raw(110_100);
    let t = Transaction::create_withdraw(2, 5, amount.clone()).unwrap();
    let mut account = Account::new(2);
    assert_eq!(account.take_snapshot().get_available(), Amount::from_raw(0));

    account.add_transaction(t).unwrap();
    assert_eq!(
        account.take_snapshot().get_available(),
        Amount::from_raw(-110_100)
    );
}

#[test]
fn test_mismatching_client() {
    let t = Transaction::create_withdraw(999, 5, Amount::from_raw(110_100)).unwrap();
    let mut account = Account::new(2);

    let r = account.add_transaction(t);
    assert_eq!(r, Err(Error::ClientMismatch));
    assert_eq!(
        r.unwrap_err().message(),
        "Invalid transaction client for this account"
    );
}

#[test]
fn test_new_account() {
    let client = 3;
    let a = Account::new(client);
    assert_eq!(a.client, client);
    assert_eq!(a.transactions.len(), 0);
}

#[test]
fn test_get_total() {
    let s = Snapshot {
        client: 3,
        total: Amount::from_raw(120_000),
        held: Amount::from_raw(50_000),
        locked: false,
    };
    assert_eq!(
        s.get_available(),
        Amount::from_raw(s.total.to_raw() - s.held.to_raw())
    )
}

#[test]
fn second_dispute_on_open_dispute_is_noop() {
    let dep = Transaction::create_deposit(2, 1, Amount::from_raw(100_000)).unwrap();
    let disp = Transaction::create_dispute(2, 1).unwrap();
    let disp_again = Transaction::create_dispute(2, 1).unwrap();

    let mut account = Account::new(2);
    account.add_transaction(dep).unwrap();
    account.add_transaction(disp).unwrap();
    let s = account.take_snapshot();
    assert_eq!(s.held, Amount::from_raw(100_000));
    assert_eq!(s.total, Amount::from_raw(100_000));

    account.add_transaction(disp_again).unwrap();
    let s = account.take_snapshot();
    assert_eq!(s.held, Amount::from_raw(100_000));
    assert_eq!(s.total, Amount::from_raw(100_000));
}

#[test]
fn resolve_after_chargeback_does_not_resurrect() {
    let dep = Transaction::create_deposit(2, 1, Amount::from_raw(100_000)).unwrap();
    let disp = Transaction::create_dispute(2, 1).unwrap();
    let chargeback = Transaction::create_chargeback(2, 1).unwrap();
    let resolve = Transaction::create_resolve(2, 1).unwrap();

    let mut account = Account::new(2);
    account.add_transaction(dep).unwrap();
    account.add_transaction(disp).unwrap();
    account.add_transaction(chargeback).unwrap();
    let s = account.take_snapshot();
    assert_eq!(s.total, Amount::from_raw(0));
    assert_eq!(s.held, Amount::from_raw(0));
    assert!(s.locked);

    account.add_transaction(resolve).unwrap();
    let s = account.take_snapshot();
    assert_eq!(s.total, Amount::from_raw(0));
    assert_eq!(s.held, Amount::from_raw(0));
    assert!(s.locked);
}
