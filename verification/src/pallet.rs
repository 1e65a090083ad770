//! The registry: its stored state and the five calls that change it.
//!
//! A call that costs the price goes in three steps, each a function of its
//! own: the check of the call against the state, which gives the payment to
//! ask for; the payment, which the host makes or refuses; and the
//! settlement, which takes the payment's end and changes the state.

use std::collections::{HashMap, HashSet};
use vstd::prelude::*;
use crate::genetics::crossover;
use crate::randomness::{account_of_pallet_id, pallet_account, selector, selector_spec};
use crate::runtime::Config;
use crate::storage::{lemma_kitty_of, Storage};
use crate::types::{
    AccountId, Balance, CurrencyError, DispatchError, Error, Event, Kitty, KittyId, Payment,
};

verus! {

broadcast use vstd::std_specs::hash::group_hash_axioms;

/// The registry on a host `T`.
pub struct Pallet<T: Config> {
    runtime: T,
    kitty_price: Balance,
    pallet_id: [u8; 8],
    next_kitty_id: KittyId,
    kitties: HashMap<KittyId, Kitty>,
    kitty_owner: HashMap<KittyId, AccountId>,
    kitty_parents: HashMap<KittyId, (KittyId, KittyId)>,
    kitty_on_sale: HashSet<KittyId>,
}

impl<T: Config> Pallet<T> {
    /// The stored state.
    pub closed spec fn view(&self) -> Storage {
        Storage {
            next_kitty_id: self.next_kitty_id,
            kitties: self.kitties@,
            kitty_owner: self.kitty_owner@,
            kitty_parents: self.kitty_parents@,
            kitty_on_sale: self.kitty_on_sale@,
        }
    }

    /// The host.
    pub closed spec fn host(&self) -> T {
        self.runtime
    }

    /// The fixed price of minting, breeding or buying a kitty, and the
    /// identifier from which the registry's own account is derived.
    pub closed spec fn constants(&self) -> (Balance, [u8; 8]) {
        (self.kitty_price, self.pallet_id)
    }

    /// The account that collects the price of minting and breeding.
    pub open spec fn treasury(&self) -> AccountId {
        account_of_pallet_id(self.constants().1@)
    }

    /// The payment of the price by `who` to the registry's own account.
    pub open spec fn fee(&self, who: AccountId) -> Payment {
        Payment { source: who, dest: self.treasury(), value: self.constants().0 }
    }

    /// An empty registry on the given host.
    pub fn new(runtime: T, kitty_price: Balance, pallet_id: [u8; 8]) -> (pallet: Self)
        ensures
            pallet@ == Storage::empty(),
            pallet@.wf(),
            pallet.host() == runtime,
            pallet.constants() == (kitty_price, pallet_id),
    {
        Pallet {
            runtime,
            kitty_price,
            pallet_id,
            next_kitty_id: 0,
            kitties: HashMap::new(),
            kitty_owner: HashMap::new(),
            kitty_parents: HashMap::new(),
            kitty_on_sale: HashSet::new(),
        }
    }

    /// Issues the next identifier, unless every identifier has been issued.
    pub fn get_kitty_id(&mut self) -> (result: Result<KittyId, Error>)
        ensures
            result == (match old(self)@.create_error() {
                Some(e) => Err::<KittyId, Error>(e),
                None => Ok(old(self)@.next_kitty_id),
            }),
            final(self)@ == (if result is Ok {
                (Storage { next_kitty_id: (old(self)@.next_kitty_id + 1) as KittyId, ..old(self)@ })
            } else {
                old(self)@
            }),
            final(self).host() == old(self).host(),
            final(self).constants() == old(self).constants(),
    {
        let current_id: KittyId = self.next_kitty_id;
        if current_id == u32::MAX {
            return Err(Error::Overflow);
        }
        self.next_kitty_id = current_id + 1;
        Ok(current_id)
    }

    /// The account that collects the price of minting and breeding.
    pub fn get_account_id(&self) -> (account: AccountId)
        ensures
            account == self.treasury(),
    {
        pallet_account(self.pallet_id)
    }

    /// Draws a selector for `sender` from what the host's randomness hands
    /// out now.
    pub fn random_value(&self, sender: AccountId) -> (value: [u8; 16])
        ensures
            exists|seed: [u8; 32], block_number: u64, extrinsic_index: Option<u32>|
                value@ == #[trigger] selector_spec(seed@, block_number, sender, extrinsic_index),
    {
        let (seed, block_number) = self.runtime.random_seed();
        let extrinsic_index = self.runtime.extrinsic_index();
        selector(&seed, block_number, sender, extrinsic_index)
    }

    /// Checks whether a kitty can be minted for `who`, and gives the payment
    /// to ask for: the price, from `who` to the registry's own account.
    pub fn check_create(&self, who: AccountId) -> (result: Result<Payment, Error>)
        ensures
            result == (match self@.create_error() {
                Some(e) => Err::<Payment, Error>(e),
                None => Ok(self.fee(who)),
            }),
    {
        if self.next_kitty_id == u32::MAX {
            return Err(Error::Overflow);
        }
        Ok(Payment { source: who, dest: self.get_account_id(), value: self.kitty_price })
    }

    /// Mints a kitty with the given genetic code for `who`, given how the
    /// payment ended.
    ///
    /// The call fails with `Overflow` where no identifier is left, and else
    /// with the currency's error where the payment was refused; a failed
    /// call changes nothing. Otherwise the kitty is stored under the next
    /// identifier with `who` as its owner.
    pub fn settle_create(
        &mut self,
        who: AccountId,
        name: [u8; 8],
        dna: [u8; 16],
        payment: Result<(), CurrencyError>,
    ) -> (result: Result<Event, DispatchError>)
        ensures
            (result, final(self)@) == old(self)@.create_outcome(who, name, dna, payment),
            final(self).host() == old(self).host(),
            final(self).constants() == old(self).constants(),
            old(self)@.wf() ==> final(self)@.wf(),
    {
        if self.next_kitty_id == u32::MAX {
            return Err(DispatchError::Module(Error::Overflow));
        }
        match payment {
            Err(e) => {
                return Err(DispatchError::Currency(e));
            },
            Ok(_) => {},
        }
        let kitty = Kitty { dna, name };
        let kitty_id: KittyId = match self.get_kitty_id() {
            Ok(id) => id,
            Err(e) => {
                return Err(DispatchError::Module(e));
            },
        };
        self.kitties.insert(kitty_id, kitty);
        self.kitty_owner.insert(kitty_id, who);
        Ok(Event::KittyCreated { who, kitty_id, kitty })
    }

    /// Mints a kitty for `who`: checks the call, draws the genetic code from
    /// the host's randomness, asks the host for the payment of the price to
    /// the registry's own account, and settles with what the host answered.
    ///
    /// A call that the check rejects reaches the host's currency not at all.
    pub fn create(&mut self, who: AccountId, name: [u8; 8]) -> (result: Result<Event, DispatchError>)
        ensures
            exists|dna: [u8; 16], payment: Result<(), CurrencyError>|
                (result, final(self)@) == #[trigger] old(self)@.create_outcome(
                    who,
                    name,
                    dna,
                    payment,
                ),
            old(self)@.create_error() is Some ==> final(self).host() == old(self).host(),
            final(self).constants() == old(self).constants(),
            old(self)@.wf() ==> final(self)@.wf(),
    {
        let order = match self.check_create(who) {
            Ok(order) => order,
            Err(e) => {
                assert((Err::<Event, DispatchError>(DispatchError::Module(e)), self@) == old(
                    self,
                )@.create_outcome(who, name, arbitrary(), Ok(())));
                return Err(DispatchError::Module(e));
            },
        };
        let dna = self.random_value(who);
        let payment = self.runtime.transfer(order.source, order.dest, order.value);
        let result = self.settle_create(who, name, dna, payment);
        result
    }

    /// Checks whether `who` can breed the two kitties, and gives the payment
    /// to ask for: the price, from `who` to the registry's own account.
    pub fn check_breed(&self, who: AccountId, kitty_id_1: KittyId, kitty_id_2: KittyId) -> (result:
        Result<Payment, Error>)
        ensures
            result == (match self@.breed_error(kitty_id_1, kitty_id_2) {
                Some(e) => Err::<Payment, Error>(e),
                None => Ok(self.fee(who)),
            }),
    {
        if kitty_id_1 == kitty_id_2 {
            return Err(Error::SamedKittyId);
        }
        if !self.kitties.contains_key(&kitty_id_1) {
            return Err(Error::InvalidKittyId);
        }
        if !self.kitties.contains_key(&kitty_id_2) {
            return Err(Error::InvalidKittyId);
        }
        self.check_create(who)
    }

    /// Breeds a kitty for `who` from two others under a given selector,
    /// given how the payment ended.
    ///
    /// The call fails with `SamedKittyId` where the parents are one kitty,
    /// else with `InvalidKittyId` where one of them does not exist, else with
    /// `Overflow` where no identifier is left, else with the currency's
    /// error where the payment was refused; a failed call changes nothing.
    /// Otherwise the child, whose genetic code is the crossover of its
    /// parents', is stored under the next identifier with `who` as its owner
    /// and the two as its parents.
    pub fn settle_breed(
        &mut self,
        who: AccountId,
        kitty_id_1: KittyId,
        kitty_id_2: KittyId,
        name: [u8; 8],
        selector: [u8; 16],
        payment: Result<(), CurrencyError>,
    ) -> (result: Result<Event, DispatchError>)
        ensures
            (result, final(self)@) == old(self)@.breed_outcome(
                who,
                kitty_id_1,
                kitty_id_2,
                name,
                selector,
                payment,
            ),
            final(self).host() == old(self).host(),
            final(self).constants() == old(self).constants(),
            old(self)@.wf() ==> final(self)@.wf(),
    {
        if kitty_id_1 == kitty_id_2 {
            return Err(DispatchError::Module(Error::SamedKittyId));
        }
        let kitty_1: Kitty = match self.kitties.get(&kitty_id_1) {
            Some(kitty) => *kitty,
            None => {
                return Err(DispatchError::Module(Error::InvalidKittyId));
            },
        };
        let kitty_2: Kitty = match self.kitties.get(&kitty_id_2) {
            Some(kitty) => *kitty,
            None => {
                return Err(DispatchError::Module(Error::InvalidKittyId));
            },
        };
        if self.next_kitty_id == u32::MAX {
            return Err(DispatchError::Module(Error::Overflow));
        }
        match payment {
            Err(e) => {
                return Err(DispatchError::Currency(e));
            },
            Ok(_) => {},
        }
        let dna = crossover(&kitty_1.dna, &kitty_2.dna, &selector);
        let kitty = Kitty { dna, name };
        proof {
            lemma_kitty_of(kitty);
        }
        let kitty_id: KittyId = match self.get_kitty_id() {
            Ok(id) => id,
            Err(e) => {
                return Err(DispatchError::Module(e));
            },
        };
        self.kitties.insert(kitty_id, kitty);
        self.kitty_owner.insert(kitty_id, who);
        self.kitty_parents.insert(kitty_id, (kitty_id_1, kitty_id_2));
        Ok(Event::KittyBred { who, kitty_id, kitty })
    }

    /// Breeds a kitty for `who` from two others: checks the call, draws the
    /// selector from the host's randomness, asks the host for the payment of
    /// the price to the registry's own account, and settles with what the
    /// host answered.
    ///
    /// A call that the check rejects reaches the host's currency not at all.
    pub fn breed(&mut self, who: AccountId, kitty_id_1: KittyId, kitty_id_2: KittyId, name: [u8; 8]) -> (result:
        Result<Event, DispatchError>)
        ensures
            exists|selector: [u8; 16], payment: Result<(), CurrencyError>|
                (result, final(self)@) == #[trigger] old(self)@.breed_outcome(
                    who,
                    kitty_id_1,
                    kitty_id_2,
                    name,
                    selector,
                    payment,
                ),
            old(self)@.breed_error(kitty_id_1, kitty_id_2) is Some ==> final(self).host() == old(
                self,
            ).host(),
            final(self).constants() == old(self).constants(),
            old(self)@.wf() ==> final(self)@.wf(),
    {
        let order = match self.check_breed(who, kitty_id_1, kitty_id_2) {
            Ok(order) => order,
            Err(e) => {
                assert((Err::<Event, DispatchError>(DispatchError::Module(e)), self@) == old(
                    self,
                )@.breed_outcome(who, kitty_id_1, kitty_id_2, name, arbitrary(), Ok(())));
                return Err(DispatchError::Module(e));
            },
        };
        let selector = self.random_value(who);
        let payment = self.runtime.transfer(order.source, order.dest, order.value);
        let result = self.settle_breed(who, kitty_id_1, kitty_id_2, name, selector, payment);
        result
    }

    /// Gives the kitty of `who` to `recipient`.
    ///
    /// The call fails with `InvalidKittyId` where the kitty or its owner is
    /// missing, and else with `NotOwner` where `who` does not own it; a failed
    /// call changes nothing. Otherwise only the kitty's owner changes.
    pub fn transfer(&mut self, who: AccountId, recipient: AccountId, kitty_id: KittyId) -> (result:
        Result<Event, DispatchError>)
        ensures
            (result, final(self)@) == old(self)@.transfer_outcome(who, recipient, kitty_id),
            final(self).host() == old(self).host(),
            final(self).constants() == old(self).constants(),
            old(self)@.wf() ==> final(self)@.wf(),
    {
        if !self.kitties.contains_key(&kitty_id) {
            return Err(DispatchError::Module(Error::InvalidKittyId));
        }
        let owner: AccountId = match self.kitty_owner.get(&kitty_id) {
            Some(owner) => *owner,
            None => {
                return Err(DispatchError::Module(Error::InvalidKittyId));
            },
        };
        if owner != who {
            return Err(DispatchError::Module(Error::NotOwner));
        }
        self.kitty_owner.insert(kitty_id, recipient);
        Ok(Event::KittyTransferred { who, recipient, kitty_id })
    }

    /// Lists the kitty of `who` for sale.
    ///
    /// The call fails with `InvalidKittyId` where the kitty does not exist,
    /// else with `NoOwner` where it has no owner, else with `NotOwner` where
    /// `who` does not own it, else with `AlreadyOnSale` where it is listed; a
    /// failed call changes nothing. Otherwise only the listing changes.
    pub fn sale(&mut self, who: AccountId, kitty_id: KittyId) -> (result: Result<Event, DispatchError>)
        ensures
            (result, final(self)@) == old(self)@.sale_outcome(who, kitty_id),
            final(self).host() == old(self).host(),
            final(self).constants() == old(self).constants(),
            old(self)@.wf() ==> final(self)@.wf(),
    {
        if !self.kitties.contains_key(&kitty_id) {
            return Err(DispatchError::Module(Error::InvalidKittyId));
        }
        let owner: AccountId = match self.kitty_owner.get(&kitty_id) {
            Some(owner) => *owner,
            None => {
                return Err(DispatchError::Module(Error::NoOwner));
            },
        };
        if owner != who {
            return Err(DispatchError::Module(Error::NotOwner));
        }
        if self.kitty_on_sale.contains(&kitty_id) {
            return Err(DispatchError::Module(Error::AlreadyOnSale));
        }
        self.kitty_on_sale.insert(kitty_id);
        Ok(Event::KittyOnSale { who, kitty_id })
    }

    /// Checks whether `who` can buy the kitty, and gives the payment to ask
    /// for: the price, from `who` to the kitty's owner.
    pub fn check_buy(&self, who: AccountId, kitty_id: KittyId) -> (result: Result<Payment, Error>)
        ensures
            result == (match self@.buy_error(who, kitty_id) {
                Some(e) => Err::<Payment, Error>(e),
                None => Ok(
                    Payment {
                        source: who,
                        dest: self@.kitty_owner[kitty_id],
                        value: self.constants().0,
                    },
                ),
            }),
    {
        if !self.kitties.contains_key(&kitty_id) {
            return Err(Error::InvalidKittyId);
        }
        let owner: AccountId = match self.kitty_owner.get(&kitty_id) {
            Some(owner) => *owner,
            None => {
                return Err(Error::NoOwner);
            },
        };
        if owner == who {
            return Err(Error::AlreadyOwned);
        }
        if !self.kitty_on_sale.contains(&kitty_id) {
            return Err(Error::NotOnSale);
        }
        Ok(Payment { source: who, dest: owner, value: self.kitty_price })
    }

    /// Hands a listed kitty to `who`, given how the payment ended.
    ///
    /// The call fails with `InvalidKittyId` where the kitty does not exist,
    /// else with `NoOwner` where it has no owner, else with `AlreadyOwned`
    /// where `who` owns it, else with `NotOnSale` where it is not listed, else
    /// with the currency's error where the payment was refused; a failed
    /// call changes nothing. Otherwise the kitty is owned by `who` and no
    /// longer listed.
    pub fn settle_buy(&mut self, who: AccountId, kitty_id: KittyId, payment: Result<(), CurrencyError>) -> (result:
        Result<Event, DispatchError>)
        ensures
            (result, final(self)@) == old(self)@.buy_outcome(who, kitty_id, payment),
            final(self).host() == old(self).host(),
            final(self).constants() == old(self).constants(),
            old(self)@.wf() ==> final(self)@.wf(),
    {
        match self.check_buy(who, kitty_id) {
            Err(e) => {
                return Err(DispatchError::Module(e));
            },
            Ok(_) => {},
        }
        match payment {
            Err(e) => {
                return Err(DispatchError::Currency(e));
            },
            Ok(_) => {},
        }
        self.kitty_owner.insert(kitty_id, who);
        self.kitty_on_sale.remove(&kitty_id);
        proof {
            if old(self)@.wf() {
                assert forall|id: KittyId| #[trigger]
                    self@.kitty_owner.contains_key(id) implies self@.kitties.contains_key(id) by {
                    if id != kitty_id {
                        assert(old(self)@.kitty_owner.contains_key(id));
                    }
                }
            }
        }
        Ok(Event::KittyBought { who, kitty_id })
    }

    /// Buys a listed kitty for `who`: checks the call, asks the host for the
    /// payment of the price to the kitty's owner, and settles with what the
    /// host answered.
    ///
    /// A call that the check rejects reaches the host's currency not at all.
    pub fn buy(&mut self, who: AccountId, kitty_id: KittyId) -> (result: Result<Event, DispatchError>)
        ensures
            exists|payment: Result<(), CurrencyError>|
                (result, final(self)@) == #[trigger] old(self)@.buy_outcome(who, kitty_id, payment),
            old(self)@.buy_error(who, kitty_id) is Some ==> final(self).host() == old(self).host(),
            final(self).constants() == old(self).constants(),
            old(self)@.wf() ==> final(self)@.wf(),
    {
        let order = match self.check_buy(who, kitty_id) {
            Ok(order) => order,
            Err(e) => {
                assert((Err::<Event, DispatchError>(DispatchError::Module(e)), self@) == old(
                    self,
                )@.buy_outcome(who, kitty_id, Ok(())));
                return Err(DispatchError::Module(e));
            },
        };
        let payment = self.runtime.transfer(order.source, order.dest, order.value);
        let result = self.settle_buy(who, kitty_id, payment);
        result
    }

    /// The host of the registry.
    pub fn runtime(&self) -> (runtime: &T)
        ensures
            *runtime == self.host(),
    {
        &self.runtime
    }

    /// Replaces the host and leaves the stored state as it is.
    pub fn set_runtime(&mut self, runtime: T)
        ensures
            final(self).host() == runtime,
            final(self)@ == old(self)@,
            final(self).constants() == old(self).constants(),
    {
        self.runtime = runtime;
    }

    /// The fixed price of minting, breeding or buying a kitty.
    pub fn kitty_price(&self) -> (price: Balance)
        ensures
            price == self.constants().0,
    {
        self.kitty_price
    }

    /// The identifier from which the registry's own account is derived.
    pub fn pallet_id(&self) -> (id: [u8; 8])
        ensures
            id == self.constants().1,
    {
        self.pallet_id
    }

    /// The identifier that the next kitty will get.
    pub fn next_kitty_id(&self) -> (id: KittyId)
        ensures
            id == self@.next_kitty_id,
    {
        self.next_kitty_id
    }

    /// Puts the counter of identifiers at `id`.
    pub fn set_next_kitty_id(&mut self, id: KittyId)
        ensures
            final(self)@ == (Storage { next_kitty_id: id, ..old(self)@ }),
            final(self).host() == old(self).host(),
            final(self).constants() == old(self).constants(),
    {
        self.next_kitty_id = id;
    }

    /// Puts the record of one kitty back as it had been stored.
    pub fn restore(
        &mut self,
        kitty_id: KittyId,
        kitty: Kitty,
        owner: Option<AccountId>,
        parents: Option<(KittyId, KittyId)>,
        on_sale: bool,
    )
        ensures
            final(self)@ == old(self)@.restored(kitty_id, kitty, owner, parents, on_sale),
            final(self).host() == old(self).host(),
            final(self).constants() == old(self).constants(),
    {
        self.kitties.insert(kitty_id, kitty);
        match owner {
            Some(who) => {
                self.kitty_owner.insert(kitty_id, who);
            },
            None => {
                self.kitty_owner.remove(&kitty_id);
            },
        }
        match parents {
            Some(pair) => {
                self.kitty_parents.insert(kitty_id, pair);
            },
            None => {
                self.kitty_parents.remove(&kitty_id);
            },
        }
        if on_sale {
            self.kitty_on_sale.insert(kitty_id);
        } else {
            self.kitty_on_sale.remove(&kitty_id);
        }
    }

    /// The kitty stored under `kitty_id`, if there is one.
    pub fn kitties(&self, kitty_id: KittyId) -> (kitty: Option<Kitty>)
        ensures
            kitty == (if self@.kitties.contains_key(kitty_id) {
                Some(self@.kitties[kitty_id])
            } else {
                None
            }),
    {
        match self.kitties.get(&kitty_id) {
            Some(kitty) => Some(*kitty),
            None => None,
        }
    }

    /// The owner of the kitty, if it has one.
    pub fn kitty_owner(&self, kitty_id: KittyId) -> (owner: Option<AccountId>)
        ensures
            owner == (if self@.kitty_owner.contains_key(kitty_id) {
                Some(self@.kitty_owner[kitty_id])
            } else {
                None
            }),
    {
        match self.kitty_owner.get(&kitty_id) {
            Some(owner) => Some(*owner),
            None => None,
        }
    }

    /// The two parents of the kitty, if it was bred.
    pub fn kitty_parents(&self, kitty_id: KittyId) -> (parents: Option<(KittyId, KittyId)>)
        ensures
            parents == (if self@.kitty_parents.contains_key(kitty_id) {
                Some(self@.kitty_parents[kitty_id])
            } else {
                None
            }),
    {
        match self.kitty_parents.get(&kitty_id) {
            Some(parents) => Some(*parents),
            None => None,
        }
    }

    /// The sale flag of the kitty: present while it is listed.
    pub fn kitty_on_sale(&self, kitty_id: KittyId) -> (flag: Option<()>)
        ensures
            flag is Some <==> self@.kitty_on_sale.contains(kitty_id),
    {
        if self.kitty_on_sale.contains(&kitty_id) {
            Some(())
        } else {
            None
        }
    }
}

} // verus!
