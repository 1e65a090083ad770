use pallet_kitties::runtime::{Config, LocalRuntime};
use pallet_kitties::types::CurrencyError;

fn ledger() -> LocalRuntime {
    let mut runtime = LocalRuntime::new(500);
    runtime.set_balance(1, 10_000);
    runtime.set_balance(2, 100);
    runtime
}

#[test]
fn local_runtime_hands_out_what_it_was_given() {
    let mut runtime = ledger();
    assert_eq!(runtime.existential_deposit(), 500);
    assert_eq!(runtime.random_seed(), ([0; 32], 0));
    assert_eq!(runtime.extrinsic_index(), None);
    assert_eq!(runtime.free_balance(1), 10_000);
    assert_eq!(runtime.free_balance(3), 0);
    runtime.set_randomness([9; 32], 4, Some(1));
    assert_eq!(runtime.random_seed(), ([9; 32], 4));
    assert_eq!(runtime.extrinsic_index(), Some(1));
}

#[test]
fn transfer_moves_exactly_the_value() {
    let mut runtime = ledger();
    assert_eq!(runtime.transfer(1, 2, 400), Ok(()));
    assert_eq!(runtime.free_balance(1), 9_600);
    assert_eq!(runtime.free_balance(2), 500);
    assert_eq!(runtime.transfer(1, 3, 9_100), Ok(()));
    assert_eq!(runtime.free_balance(1), 500);
    assert_eq!(runtime.free_balance(3), 9_100);
    assert_eq!(runtime.free_balance(2), 500);
}

#[test]
fn transfer_refusals_change_nothing() {
    let mut runtime = ledger();
    assert_eq!(runtime.transfer(2, 1, 101), Err(CurrencyError::InsufficientBalance));
    assert_eq!(runtime.transfer(1, 2, 9_501), Err(CurrencyError::KeepAlive));
    assert_eq!(runtime.transfer(1, 3, 499), Err(CurrencyError::ExistentialDeposit));
    runtime.set_balance(4, u128::MAX);
    assert_eq!(runtime.transfer(1, 4, 1), Err(CurrencyError::Overflow));
    assert_eq!(runtime.free_balance(1), 10_000);
    assert_eq!(runtime.free_balance(2), 100);
    assert_eq!(runtime.free_balance(3), 0);
    assert_eq!(runtime.free_balance(4), u128::MAX);
}

#[test]
fn transfer_to_oneself_or_of_nothing_succeeds() {
    let mut runtime = ledger();
    assert_eq!(runtime.transfer(2, 2, 1_000_000), Ok(()));
    assert_eq!(runtime.transfer(2, 1, 0), Ok(()));
    assert_eq!(runtime.free_balance(1), 10_000);
    assert_eq!(runtime.free_balance(2), 100);
}
