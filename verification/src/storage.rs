//! The persisted state of the registry as a mathematical value, and the
//! effect of each operation on it.

use vstd::prelude::*;
use crate::genetics::crossover_spec;
use crate::types::{AccountId, CurrencyError, DispatchError, Error, Event, Kitty, KittyId};

verus! {

/// The registry's state: the next identifier, the kitties, their owners,
/// the parents of the bred ones, and the identifiers listed for sale.
pub struct Storage {
    pub next_kitty_id: KittyId,
    pub kitties: Map<KittyId, Kitty>,
    pub kitty_owner: Map<KittyId, AccountId>,
    pub kitty_parents: Map<KittyId, (KittyId, KittyId)>,
    pub kitty_on_sale: Set<KittyId>,
}

/// The kitty with the given genetic code and name.
pub open spec fn kitty_of(dna: Seq<u8>, name: [u8; 8]) -> Kitty {
    choose|kitty: Kitty| kitty.dna@ == dna && kitty.name == name
}

/// A kitty is the one that its genetic code and its name determine.
pub proof fn lemma_kitty_of(kitty: Kitty)
    ensures
        kitty_of(kitty.dna@, kitty.name) == kitty,
{
    let other = kitty_of(kitty.dna@, kitty.name);
    assert(other.dna@ == kitty.dna@ && other.name == kitty.name);
    assert(other.dna =~= kitty.dna);
}

/// What a call answers that is free of `error` where the payment it asked
/// for ended as `payment`: the error if there is one, else the currency's
/// refusal if there is one, else `event`.
pub open spec fn settled(
    error: Option<Error>,
    payment: Result<(), CurrencyError>,
    event: Event,
) -> Result<Event, DispatchError> {
    match error {
        Some(e) => Err(DispatchError::Module(e)),
        None => match payment {
            Err(e) => Err(DispatchError::Currency(e)),
            Ok(_) => Ok(event),
        },
    }
}

impl Storage {
    /// The state of a registry in which nothing has happened.
    pub open spec fn empty() -> Storage {
        Storage {
            next_kitty_id: 0,
            kitties: Map::empty(),
            kitty_owner: Map::empty(),
            kitty_parents: Map::empty(),
            kitty_on_sale: Set::empty(),
        }
    }

    /// What holds of every state that the operations reach from the empty
    /// one: each kitty has an identifier below the next one and an owner,
    /// only kitties have owners, parents are kitties older than their
    /// child, and only owned kitties are listed.
    pub open spec fn wf(self) -> bool {
        &&& forall|id: KittyId| #[trigger]
            self.kitties.contains_key(id) ==> id < self.next_kitty_id
                && self.kitty_owner.contains_key(id)
        &&& forall|id: KittyId| #[trigger]
            self.kitty_owner.contains_key(id) ==> self.kitties.contains_key(id)
        &&& forall|id: KittyId| #[trigger]
            self.kitty_parents.contains_key(id) ==> {
                &&& self.kitties.contains_key(id)
                &&& self.kitties.contains_key(self.kitty_parents[id].0)
                &&& self.kitties.contains_key(self.kitty_parents[id].1)
                &&& self.kitty_parents[id].0 < id
                &&& self.kitty_parents[id].1 < id
            }
        &&& forall|id: KittyId| #[trigger]
            self.kitty_on_sale.contains(id) ==> self.kitty_owner.contains_key(id)
    }

    /// The state after the record of one kitty was put back as it had been
    /// stored: the kitty, its owner and parents where it has them, and its
    /// sale flag.
    pub open spec fn restored(
        self,
        kitty_id: KittyId,
        kitty: Kitty,
        owner: Option<AccountId>,
        parents: Option<(KittyId, KittyId)>,
        on_sale: bool,
    ) -> Storage {
        Storage {
            next_kitty_id: self.next_kitty_id,
            kitties: self.kitties.insert(kitty_id, kitty),
            kitty_owner: match owner {
                Some(who) => self.kitty_owner.insert(kitty_id, who),
                None => self.kitty_owner.remove(kitty_id),
            },
            kitty_parents: match parents {
                Some(pair) => self.kitty_parents.insert(kitty_id, pair),
                None => self.kitty_parents.remove(kitty_id),
            },
            kitty_on_sale: if on_sale {
                self.kitty_on_sale.insert(kitty_id)
            } else {
                self.kitty_on_sale.remove(kitty_id)
            },
        }
    }

    /// The state after `who` minted `kitty` under the next identifier.
    pub open spec fn minted(self, who: AccountId, kitty: Kitty) -> Storage {
        Storage {
            next_kitty_id: (self.next_kitty_id + 1) as KittyId,
            kitties: self.kitties.insert(self.next_kitty_id, kitty),
            kitty_owner: self.kitty_owner.insert(self.next_kitty_id, who),
            ..self
        }
    }

    /// The state after `who` bred `kitty` from the two parents.
    pub open spec fn bred(self, who: AccountId, kitty: Kitty, parent_1: KittyId, parent_2: KittyId) -> Storage {
        Storage {
            kitty_parents: self.kitty_parents.insert(self.next_kitty_id, (parent_1, parent_2)),
            ..self.minted(who, kitty)
        }
    }

    /// The state after the kitty went to `recipient`.
    pub open spec fn transferred(self, recipient: AccountId, kitty_id: KittyId) -> Storage {
        Storage { kitty_owner: self.kitty_owner.insert(kitty_id, recipient), ..self }
    }

    /// The state after the kitty was listed for sale.
    pub open spec fn listed(self, kitty_id: KittyId) -> Storage {
        Storage { kitty_on_sale: self.kitty_on_sale.insert(kitty_id), ..self }
    }

    /// The state after `who` bought the kitty: it is theirs and no longer
    /// listed.
    pub open spec fn bought(self, who: AccountId, kitty_id: KittyId) -> Storage {
        Storage {
            kitty_owner: self.kitty_owner.insert(kitty_id, who),
            kitty_on_sale: self.kitty_on_sale.remove(kitty_id),
            ..self
        }
    }

    /// Why no identifier can be issued, if none can.
    pub open spec fn create_error(self) -> Option<Error> {
        if self.next_kitty_id == u32::MAX {
            Some(Error::Overflow)
        } else {
            None
        }
    }

    /// Why the two kitties cannot be bred, if they cannot.
    pub open spec fn breed_error(self, kitty_id_1: KittyId, kitty_id_2: KittyId) -> Option<Error> {
        if kitty_id_1 == kitty_id_2 {
            Some(Error::SamedKittyId)
        } else if !self.kitties.contains_key(kitty_id_1) || !self.kitties.contains_key(kitty_id_2) {
            Some(Error::InvalidKittyId)
        } else {
            self.create_error()
        }
    }

    /// Why `who` cannot give the kitty away, if they cannot.
    pub open spec fn transfer_error(self, who: AccountId, kitty_id: KittyId) -> Option<Error> {
        if !self.kitties.contains_key(kitty_id) || !self.kitty_owner.contains_key(kitty_id) {
            Some(Error::InvalidKittyId)
        } else if self.kitty_owner[kitty_id] != who {
            Some(Error::NotOwner)
        } else {
            None
        }
    }

    /// Why `who` cannot list the kitty, if they cannot.
    pub open spec fn sale_error(self, who: AccountId, kitty_id: KittyId) -> Option<Error> {
        if !self.kitties.contains_key(kitty_id) {
            Some(Error::InvalidKittyId)
        } else if !self.kitty_owner.contains_key(kitty_id) {
            Some(Error::NoOwner)
        } else if self.kitty_owner[kitty_id] != who {
            Some(Error::NotOwner)
        } else if self.kitty_on_sale.contains(kitty_id) {
            Some(Error::AlreadyOnSale)
        } else {
            None
        }
    }

    /// Why `who` cannot buy the kitty, whatever they hold, if they cannot.
    pub open spec fn buy_error(self, who: AccountId, kitty_id: KittyId) -> Option<Error> {
        if !self.kitties.contains_key(kitty_id) {
            Some(Error::InvalidKittyId)
        } else if !self.kitty_owner.contains_key(kitty_id) {
            Some(Error::NoOwner)
        } else if self.kitty_owner[kitty_id] == who {
            Some(Error::AlreadyOwned)
        } else if !self.kitty_on_sale.contains(kitty_id) {
            Some(Error::NotOnSale)
        } else {
            None
        }
    }

    /// The answer and the state after `who` asked to mint a kitty with the
    /// given genetic code and the payment ended as `payment`.
    pub open spec fn create_outcome(
        self,
        who: AccountId,
        name: [u8; 8],
        dna: [u8; 16],
        payment: Result<(), CurrencyError>,
    ) -> (Result<Event, DispatchError>, Storage) {
        let kitty = Kitty { dna, name };
        let answer = settled(
            self.create_error(),
            payment,
            Event::KittyCreated { who, kitty_id: self.next_kitty_id, kitty },
        );
        (answer, if answer is Ok { self.minted(who, kitty) } else { self })
    }

    /// The answer and the state after `who` asked to breed two kitties
    /// under `selector` and the payment ended as `payment`.
    pub open spec fn breed_outcome(
        self,
        who: AccountId,
        kitty_id_1: KittyId,
        kitty_id_2: KittyId,
        name: [u8; 8],
        selector: [u8; 16],
        payment: Result<(), CurrencyError>,
    ) -> (Result<Event, DispatchError>, Storage) {
        let kitty = kitty_of(
            crossover_spec(
                self.kitties[kitty_id_1].dna@,
                self.kitties[kitty_id_2].dna@,
                selector@,
            ),
            name,
        );
        let answer = settled(
            self.breed_error(kitty_id_1, kitty_id_2),
            payment,
            Event::KittyBred { who, kitty_id: self.next_kitty_id, kitty },
        );
        (answer, if answer is Ok { self.bred(who, kitty, kitty_id_1, kitty_id_2) } else { self })
    }

    /// The answer and the state after `who` asked to give a kitty to
    /// `recipient`.
    pub open spec fn transfer_outcome(self, who: AccountId, recipient: AccountId, kitty_id: KittyId) -> (
        Result<Event, DispatchError>,
        Storage,
    ) {
        match self.transfer_error(who, kitty_id) {
            Some(e) => (Err(DispatchError::Module(e)), self),
            None => (
                Ok(Event::KittyTransferred { who, recipient, kitty_id }),
                self.transferred(recipient, kitty_id),
            ),
        }
    }

    /// The answer and the state after `who` asked to list a kitty.
    pub open spec fn sale_outcome(self, who: AccountId, kitty_id: KittyId) -> (
        Result<Event, DispatchError>,
        Storage,
    ) {
        match self.sale_error(who, kitty_id) {
            Some(e) => (Err(DispatchError::Module(e)), self),
            None => (Ok(Event::KittyOnSale { who, kitty_id }), self.listed(kitty_id)),
        }
    }

    /// The answer and the state after `who` asked to buy a kitty and the
    /// payment ended as `payment`.
    pub open spec fn buy_outcome(
        self,
        who: AccountId,
        kitty_id: KittyId,
        payment: Result<(), CurrencyError>,
    ) -> (Result<Event, DispatchError>, Storage) {
        let answer = settled(
            self.buy_error(who, kitty_id),
            payment,
            Event::KittyBought { who, kitty_id },
        );
        (answer, if answer is Ok { self.bought(who, kitty_id) } else { self })
    }
}

} // verus!
