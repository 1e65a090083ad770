//! The records, events and errors of the registry.

use vstd::prelude::*;

verus! {

/// Identifies a kitty; issued in increasing order and never reused.
pub type KittyId = u32;

/// Identifies an account of the host.
pub type AccountId = u64;

/// An amount of the host's currency.
pub type Balance = u128;

/// A kitty as it is stored: its genetic code and its display name.
#[derive(Clone, Copy, Debug, PartialEq, Eq)]
pub struct Kitty {
    pub dna: [u8; 16],
    pub name: [u8; 8],
}

/// A payment that the registry asks of the host's currency.
#[derive(Clone, Copy, Debug, PartialEq, Eq)]
pub struct Payment {
    pub source: AccountId,
    pub dest: AccountId,
    pub value: Balance,
}

/// What the registry reports to the host's event sink after a call succeeded.
#[derive(Clone, Copy, Debug, PartialEq, Eq)]
pub enum Event {
    KittyCreated { who: AccountId, kitty_id: KittyId, kitty: Kitty },
    KittyBred { who: AccountId, kitty_id: KittyId, kitty: Kitty },
    KittyTransferred { who: AccountId, recipient: AccountId, kitty_id: KittyId },
    KittyOnSale { who: AccountId, kitty_id: KittyId },
    KittyBought { who: AccountId, kitty_id: KittyId },
}

/// Why the registry itself rejected a call.
#[derive(Clone, Copy, Debug, PartialEq, Eq)]
pub enum Error {
    /// The kitty referred to does not exist.
    InvalidKittyId,
    /// Breeding was asked of a kitty with itself.
    SamedKittyId,
    /// The caller does not own the kitty.
    NotOwner,
    /// The kitty is already listed for sale.
    AlreadyOnSale,
    /// The kitty exists but has no ownership record.
    NoOwner,
    /// The buyer already owns the kitty.
    AlreadyOwned,
    /// The kitty is not listed for sale.
    NotOnSale,
    /// Every identifier has been issued.
    Overflow,
}

/// Why the host's currency refused a payment.
#[derive(Clone, Copy, Debug, PartialEq, Eq)]
pub enum CurrencyError {
    /// The payer holds less than the amount.
    InsufficientBalance,
    /// The payment would leave the payer under the minimum balance.
    KeepAlive,
    /// The payment would leave the payee under the minimum balance.
    ExistentialDeposit,
    /// The payee's balance would exceed what can be represented.
    Overflow,
    /// Any other refusal of the host.
    Other,
}

/// The error of a rejected call: the registry's own, or the currency's,
/// handed on as it came.
#[derive(Clone, Copy, Debug, PartialEq, Eq)]
pub enum DispatchError {
    Module(Error),
    Currency(CurrencyError),
}

} // verus!
