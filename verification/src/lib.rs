//! An asset registry and marketplace for collectible kitties: minting,
//! breeding by genetic crossover, ownership, listing and purchase, and the
//! upgrade of stored records from the name-less layout.

pub mod genetics;
pub mod laws;
pub mod migrations;
pub mod pallet;
pub mod randomness;
pub mod runtime;
pub mod storage;
pub mod types;

pub use crate::pallet::Pallet;
pub use crate::runtime::Config;
pub use crate::types::{
    AccountId, Balance, CurrencyError, DispatchError, Error, Event, Kitty, KittyId, Payment,
};
