//! What the registry asks of its host, and a host that keeps everything in
//! memory.

use std::collections::HashMap;
use vstd::prelude::*;
use crate::types::{AccountId, Balance, CurrencyError};

verus! {

broadcast use vstd::std_specs::hash::group_hash_axioms;

/// The host of the registry: its randomness and its currency.
///
/// What a host answers depends on a chain that the registry does not see,
/// so nothing is promised of any answer: the registry states what it does
/// with each of them.
pub trait Config: Sized {
    /// The seed that the host's randomness hands out, and the block number
    /// that came with it.
    fn random_seed(&self) -> ([u8; 32], u64);

    /// The position of the running call in its block, if it is in one.
    fn extrinsic_index(&self) -> Option<u32>;

    /// The free balance of an account.
    fn free_balance(&self, who: AccountId) -> Balance;

    /// Pays `value` from `source` to `dest` without letting `source` go out
    /// of existence, or refuses.
    fn transfer(&mut self, source: AccountId, dest: AccountId, value: Balance) -> Result<
        (),
        CurrencyError,
    >;
}

/// A host in memory: a ledger of free balances with a minimum balance, and
/// randomness that the caller sets.
pub struct LocalRuntime {
    balances: HashMap<AccountId, Balance>,
    existential_deposit: Balance,
    random_seed: [u8; 32],
    block_number: u64,
    extrinsic_index: Option<u32>,
}

/// What a ledger with minimum balance `deposit` answers to a payment of
/// `value` between two accounts holding `from` and `to`.
pub open spec fn ledger_outcome(
    from: Balance,
    to: Balance,
    same: bool,
    value: Balance,
    deposit: Balance,
) -> Result<(), CurrencyError> {
    if same || value == 0 {
        Ok(())
    } else if from < value {
        Err(CurrencyError::InsufficientBalance)
    } else if from - value < deposit {
        Err(CurrencyError::KeepAlive)
    } else if to + value > u128::MAX {
        Err(CurrencyError::Overflow)
    } else if to + value < deposit {
        Err(CurrencyError::ExistentialDeposit)
    } else {
        Ok(())
    }
}

/// The free balance of `who` in a ledger: nothing where it has no entry.
pub open spec fn held(ledger: Map<AccountId, Balance>, who: AccountId) -> Balance {
    if ledger.contains_key(who) {
        ledger[who]
    } else {
        0
    }
}

/// A ledger after `value` went from `source` to `dest`.
pub open spec fn ledger_after(
    ledger: Map<AccountId, Balance>,
    source: AccountId,
    dest: AccountId,
    value: Balance,
) -> Map<AccountId, Balance> {
    if source == dest || value == 0 {
        ledger
    } else {
        ledger.insert(source, (held(ledger, source) - value) as Balance).insert(
            dest,
            (held(ledger, dest) + value) as Balance,
        )
    }
}

impl LocalRuntime {
    /// The minimum balance that an account must keep.
    pub closed spec fn existential_deposit_spec(&self) -> Balance {
        self.existential_deposit
    }

    /// The balances held, by account.
    pub closed spec fn ledger(&self) -> Map<AccountId, Balance> {
        self.balances@
    }

    /// The seed and the block number that the randomness hands out.
    pub closed spec fn random_seed_spec(&self) -> ([u8; 32], u64) {
        (self.random_seed, self.block_number)
    }

    /// The position of the running call.
    pub closed spec fn extrinsic_index_spec(&self) -> Option<u32> {
        self.extrinsic_index
    }

    /// What the ledger answers to a payment now.
    pub open spec fn transfer_outcome(&self, source: AccountId, dest: AccountId, value: Balance) -> Result<
        (),
        CurrencyError,
    > {
        ledger_outcome(
            held(self.ledger(), source),
            held(self.ledger(), dest),
            source == dest,
            value,
            self.existential_deposit_spec(),
        )
    }

    /// A host with no balances, a zero seed, block number zero and no call
    /// running.
    pub fn new(existential_deposit: Balance) -> (runtime: Self)
        ensures
            runtime.existential_deposit_spec() == existential_deposit,
            runtime.ledger() == Map::<AccountId, Balance>::empty(),
            forall|i: int| 0 <= i < 32 ==> runtime.random_seed_spec().0[i] == 0u8,
            runtime.random_seed_spec().1 == 0,
            runtime.extrinsic_index_spec() == None::<u32>,
    {
        LocalRuntime {
            balances: HashMap::new(),
            existential_deposit,
            random_seed: [0u8; 32],
            block_number: 0,
            extrinsic_index: None,
        }
    }

    /// The minimum balance that an account must keep.
    pub fn existential_deposit(&self) -> (deposit: Balance)
        ensures
            deposit == self.existential_deposit_spec(),
    {
        self.existential_deposit
    }

    /// Sets the free balance of `who`, whatever it was.
    pub fn set_balance(&mut self, who: AccountId, free: Balance)
        ensures
            final(self).ledger() == old(self).ledger().insert(who, free),
            final(self).existential_deposit_spec() == old(self).existential_deposit_spec(),
            final(self).random_seed_spec() == old(self).random_seed_spec(),
            final(self).extrinsic_index_spec() == old(self).extrinsic_index_spec(),
    {
        self.balances.insert(who, free);
    }

    /// Sets what the randomness hands out and the position of the running
    /// call.
    pub fn set_randomness(&mut self, seed: [u8; 32], block_number: u64, extrinsic_index: Option<u32>)
        ensures
            final(self).random_seed_spec() == (seed, block_number),
            final(self).extrinsic_index_spec() == extrinsic_index,
            final(self).ledger() == old(self).ledger(),
            final(self).existential_deposit_spec() == old(self).existential_deposit_spec(),
    {
        self.random_seed = seed;
        self.block_number = block_number;
        self.extrinsic_index = extrinsic_index;
    }
}

impl Config for LocalRuntime {
    fn random_seed(&self) -> (seed: ([u8; 32], u64))
        ensures
            seed == self.random_seed_spec(),
    {
        (self.random_seed, self.block_number)
    }

    fn extrinsic_index(&self) -> (index: Option<u32>)
        ensures
            index == self.extrinsic_index_spec(),
    {
        self.extrinsic_index
    }

    fn free_balance(&self, who: AccountId) -> (balance: Balance)
        ensures
            balance == held(self.ledger(), who),
    {
        match self.balances.get(&who) {
            Some(b) => *b,
            None => 0,
        }
    }

    /// A payment to oneself or of nothing is made and changes nothing. Any
    /// other is refused where the payer holds less than the value, else
    /// where it would be left under the minimum balance, else where the
    /// payee's balance cannot be represented, else where the payee would be
    /// left under the minimum balance; a refusal changes nothing. Otherwise
    /// exactly the value moves.
    fn transfer(&mut self, source: AccountId, dest: AccountId, value: Balance) -> (result: Result<
        (),
        CurrencyError,
    >)
        ensures
            result == old(self).transfer_outcome(source, dest, value),
            final(self).ledger() == (if result is Ok {
                ledger_after(old(self).ledger(), source, dest, value)
            } else {
                old(self).ledger()
            }),
            final(self).existential_deposit_spec() == old(self).existential_deposit_spec(),
            final(self).random_seed_spec() == old(self).random_seed_spec(),
            final(self).extrinsic_index_spec() == old(self).extrinsic_index_spec(),
    {
        if source == dest || value == 0 {
            return Ok(());
        }
        let from: Balance = self.free_balance(source);
        let to: Balance = self.free_balance(dest);
        if from < value {
            return Err(CurrencyError::InsufficientBalance);
        }
        if from - value < self.existential_deposit {
            return Err(CurrencyError::KeepAlive);
        }
        if to > u128::MAX - value {
            return Err(CurrencyError::Overflow);
        }
        if to + value < self.existential_deposit {
            return Err(CurrencyError::ExistentialDeposit);
        }
        self.balances.insert(source, from - value);
        self.balances.insert(dest, to + value);
        Ok(())
    }
}

} // verus!
