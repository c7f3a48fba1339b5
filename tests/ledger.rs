use wrapped_token_utils::amount::Amount;
use wrapped_token_utils::ledger::{AccountId, LedgerError, TokenLedger};

fn account(n: u128) -> AccountId {
    AccountId { hi: 0, lo: n }
}

fn amt(v: u128) -> Amount {
    Amount::from_u128(v)
}

#[test]
fn deposit_then_transfer_scenario() {
    let a = account(0xA);
    let b = account(0xB);
    let mut ledger = TokenLedger::new();
    assert_eq!(ledger.deposit(a, 1000), Ok(()));
    assert_eq!(ledger.balance_of(a), amt(1000));
    assert_eq!(ledger.transfer(a, b, amt(400)), Ok(()));
    assert_eq!(ledger.balance_of(a), amt(600));
    assert_eq!(ledger.balance_of(b), amt(400));
}

#[test]
fn new_ledger_holds_nothing() {
    let ledger = TokenLedger::new();
    assert_eq!(ledger.balance_of(account(1)), Amount::zero());
    assert_eq!(ledger.balance_of(AccountId { hi: u32::MAX, lo: u128::MAX }), Amount::zero());
}

#[test]
fn deposit_adds_exactly_the_value() {
    let a = account(7);
    let other = account(8);
    let mut ledger = TokenLedger::new();
    assert_eq!(ledger.deposit(a, 5), Ok(()));
    assert_eq!(ledger.deposit(a, 12), Ok(()));
    assert_eq!(ledger.balance_of(a), amt(17));
    assert_eq!(ledger.balance_of(other), Amount::zero());
}

#[test]
fn deposit_past_u128_carries_into_high_limb() {
    let a = account(1);
    let mut ledger = TokenLedger::new();
    assert_eq!(ledger.deposit(a, u128::MAX), Ok(()));
    assert_eq!(ledger.deposit(a, 2), Ok(()));
    assert_eq!(ledger.balance_of(a), Amount { hi: 1, lo: 1 });
}

#[test]
fn transfer_moves_balance_between_accounts() {
    let a = account(1);
    let b = account(2);
    let c = account(3);
    let mut ledger = TokenLedger::new();
    assert_eq!(ledger.deposit(a, 50), Ok(()));
    assert_eq!(ledger.deposit(b, 10), Ok(()));
    assert_eq!(ledger.transfer(a, b, amt(20)), Ok(()));
    assert_eq!(ledger.balance_of(a), amt(30));
    assert_eq!(ledger.balance_of(b), amt(30));
    assert_eq!(ledger.balance_of(c), Amount::zero());
}

#[test]
fn transfer_of_whole_balance_leaves_zero() {
    let a = account(1);
    let b = account(2);
    let mut ledger = TokenLedger::new();
    assert_eq!(ledger.deposit(a, 9), Ok(()));
    assert_eq!(ledger.transfer(a, b, amt(9)), Ok(()));
    assert_eq!(ledger.balance_of(a), Amount::zero());
    assert_eq!(ledger.balance_of(b), amt(9));
}

#[test]
fn transfer_beyond_balance_is_refused_and_changes_nothing() {
    let a = account(1);
    let b = account(2);
    let mut ledger = TokenLedger::new();
    assert_eq!(ledger.deposit(a, 100), Ok(()));
    assert_eq!(ledger.deposit(b, 3), Ok(()));
    assert_eq!(ledger.transfer(a, b, amt(101)), Err(LedgerError::InsufficientBalance));
    assert_eq!(ledger.balance_of(a), amt(100));
    assert_eq!(ledger.balance_of(b), amt(3));
}

#[test]
fn transfer_from_unknown_account_is_refused() {
    let mut ledger = TokenLedger::new();
    assert_eq!(
        ledger.transfer(account(4), account(5), amt(1)),
        Err(LedgerError::InsufficientBalance)
    );
    assert_eq!(ledger.balance_of(account(5)), Amount::zero());
}

#[test]
fn transfer_of_zero_succeeds_and_changes_nothing() {
    let a = account(1);
    let b = account(2);
    let mut ledger = TokenLedger::new();
    assert_eq!(ledger.deposit(a, 42), Ok(()));
    assert_eq!(ledger.transfer(a, b, Amount::zero()), Ok(()));
    assert_eq!(ledger.transfer(account(9), b, Amount::zero()), Ok(()));
    assert_eq!(ledger.balance_of(a), amt(42));
    assert_eq!(ledger.balance_of(b), Amount::zero());
    assert_eq!(ledger.balance_of(account(9)), Amount::zero());
}

#[test]
fn transfer_to_self_keeps_balance() {
    let a = account(1);
    let mut ledger = TokenLedger::new();
    assert_eq!(ledger.deposit(a, 10), Ok(()));
    assert_eq!(ledger.transfer(a, a, amt(10)), Ok(()));
    assert_eq!(ledger.balance_of(a), amt(10));
    assert_eq!(ledger.transfer(a, a, amt(11)), Err(LedgerError::InsufficientBalance));
}

#[test]
fn accounts_differing_only_in_high_bits_are_distinct() {
    let low = AccountId { hi: 0, lo: 5 };
    let high = AccountId { hi: 1, lo: 5 };
    let mut ledger = TokenLedger::new();
    assert_eq!(ledger.deposit(low, 3), Ok(()));
    assert_eq!(ledger.balance_of(high), Amount::zero());
    assert_eq!(ledger.transfer(low, high, amt(2)), Ok(()));
    assert_eq!(ledger.balance_of(low), amt(1));
    assert_eq!(ledger.balance_of(high), amt(2));
}
