//! Upgrades of the stored records from one layout to the next.

pub mod v1;
