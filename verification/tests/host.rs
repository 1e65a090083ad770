use pallet_kitties::pallet::Pallet;
use pallet_kitties::runtime::Config;
use pallet_kitties::types::{CurrencyError, DispatchError, Error, Event, Kitty};

/// A host whose currency records every payment asked of it and refuses
/// those above its limit.
struct Recorder {
    limit: u128,
    asked: Vec<(u64, u64, u128)>,
}

impl Config for Recorder {
    fn random_seed(&self) -> ([u8; 32], u64) {
        ([7; 32], 5)
    }

    fn extrinsic_index(&self) -> Option<u32> {
        Some(3)
    }

    fn free_balance(&self, _who: u64) -> u128 {
        0
    }

    fn transfer(&mut self, source: u64, dest: u64, value: u128) -> Result<(), CurrencyError> {
        self.asked.push((source, dest, value));
        if value > self.limit {
            Err(CurrencyError::Other)
        } else {
            Ok(())
        }
    }
}

const PALLET_ACCOUNT_ID: u64 = 0x6b2f_7970_6c64_6f6d;

#[test]
fn rejected_calls_ask_for_no_payment() {
    let mut kitties = Pallet::new(Recorder { limit: 100, asked: Vec::new() }, 42, *b"py/kitty");
    let name = *b"test0000";
    assert_eq!(kitties.breed(1, 0, 0, name), Err(DispatchError::Module(Error::SamedKittyId)));
    assert_eq!(kitties.breed(1, 0, 1, name), Err(DispatchError::Module(Error::InvalidKittyId)));
    assert_eq!(kitties.buy(1, 0), Err(DispatchError::Module(Error::InvalidKittyId)));
    assert_eq!(kitties.sale(1, 0), Err(DispatchError::Module(Error::InvalidKittyId)));
    assert_eq!(kitties.transfer(1, 2, 0), Err(DispatchError::Module(Error::InvalidKittyId)));
    kitties.set_next_kitty_id(u32::MAX);
    assert_eq!(kitties.create(1, name), Err(DispatchError::Module(Error::Overflow)));
    assert!(kitties.runtime().asked.is_empty());
}

#[test]
fn calls_pay_the_price_to_the_right_account() {
    let mut kitties = Pallet::new(Recorder { limit: 100, asked: Vec::new() }, 42, *b"py/kitty");
    let name = *b"test0000";
    let dna = [222, 74, 100, 79, 130, 232, 71, 221, 34, 217, 195, 25, 113, 20, 180, 38];
    assert_eq!(
        kitties.create(1, name),
        Ok(Event::KittyCreated { who: 1, kitty_id: 0, kitty: Kitty { dna, name } })
    );
    assert!(kitties.create(2, name).is_ok());
    assert!(kitties.breed(3, 0, 1, name).is_ok());
    assert!(kitties.sale(1, 0).is_ok());
    assert!(kitties.buy(2, 0).is_ok());
    assert!(kitties.transfer(2, 3, 1).is_ok());
    assert_eq!(
        kitties.runtime().asked,
        vec![
            (1, PALLET_ACCOUNT_ID, 42),
            (2, PALLET_ACCOUNT_ID, 42),
            (3, PALLET_ACCOUNT_ID, 42),
            (2, 1, 42),
        ]
    );
}

#[test]
fn refused_payment_is_handed_on_and_changes_nothing() {
    let mut kitties = Pallet::new(Recorder { limit: 100, asked: Vec::new() }, 42, *b"py/kitty");
    let name = *b"test0000";
    assert!(kitties.create(1, name).is_ok());
    assert!(kitties.create(1, name).is_ok());
    assert!(kitties.sale(1, 0).is_ok());
    kitties.set_runtime(Recorder { limit: 0, asked: Vec::new() });

    assert_eq!(kitties.create(1, name), Err(DispatchError::Currency(CurrencyError::Other)));
    assert_eq!(kitties.breed(1, 0, 1, name), Err(DispatchError::Currency(CurrencyError::Other)));
    assert_eq!(kitties.buy(2, 0), Err(DispatchError::Currency(CurrencyError::Other)));
    assert_eq!(kitties.next_kitty_id(), 2);
    assert_eq!(kitties.kitties(2), None);
    assert_eq!(kitties.kitty_owner(2), None);
    assert_eq!(kitties.kitty_parents(2), None);
    assert_eq!(kitties.kitty_owner(0), Some(1));
    assert_eq!(kitties.kitty_on_sale(0), Some(()));
    assert_eq!(kitties.runtime().asked.len(), 3);
}

#[test]
fn restore_puts_a_record_back() {
    let mut kitties = Pallet::new(Recorder { limit: 100, asked: Vec::new() }, 42, *b"py/kitty");
    let kitty = Kitty { dna: [9; 16], name: *b"restored" };
    kitties.set_next_kitty_id(8);
    kitties.restore(7, kitty, Some(4), Some((1, 2)), true);
    assert_eq!(kitties.kitties(7), Some(kitty));
    assert_eq!(kitties.kitty_owner(7), Some(4));
    assert_eq!(kitties.kitty_parents(7), Some((1, 2)));
    assert_eq!(kitties.kitty_on_sale(7), Some(()));
    assert_eq!(kitties.sale(4, 7), Err(DispatchError::Module(Error::AlreadyOnSale)));
    assert_eq!(kitties.buy(5, 7), Ok(Event::KittyBought { who: 5, kitty_id: 7 }));
    kitties.restore(7, kitty, None, None, false);
    assert_eq!(kitties.kitty_owner(7), None);
    assert_eq!(kitties.kitty_parents(7), None);
    assert_eq!(kitties.kitty_on_sale(7), None);
    assert_eq!(kitties.sale(4, 7), Err(DispatchError::Module(Error::NoOwner)));
    assert_eq!(kitties.buy(4, 7), Err(DispatchError::Module(Error::NoOwner)));
    assert_eq!(kitties.transfer(4, 5, 7), Err(DispatchError::Module(Error::InvalidKittyId)));
    assert_eq!(kitties.next_kitty_id(), 8);
}
