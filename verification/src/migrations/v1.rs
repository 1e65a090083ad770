//! The upgrade from the layout that stored only the genetic code to the
//! layout with a name.

use vstd::prelude::*;
use crate::types::{Kitty, KittyId};

verus! {

/// A kitty as the first layout stored it: its genetic code alone.
#[derive(Clone, Copy, Debug, PartialEq, Eq)]
pub struct OldKitty(pub [u8; 16]);

/// The storage version that this upgrade starts from.
pub const FROM_VERSION: u16 = 0;

/// The storage version that this upgrade leads to.
pub const TO_VERSION: u16 = 1;

/// What an upgrade writes: every record in the new layout, and then the
/// storage version.
pub struct Migration {
    pub kitties: Vec<(KittyId, Kitty)>,
    pub storage_version: u16,
}

/// The name of a kitty that had none: `None`, filled up with zero bytes.
pub open spec fn default_name_spec() -> Seq<u8> {
    seq![78u8, 111u8, 110u8, 101u8, 0u8, 0u8, 0u8, 0u8]
}

/// Whether `new` is the record `old` in the layout with a name.
pub open spec fn upgraded(old: (KittyId, OldKitty), new: (KittyId, Kitty)) -> bool {
    &&& new.0 == old.0
    &&& new.1.dna == old.1.0
    &&& new.1.name@ == default_name_spec()
}

/// Whether the upgrade applies: the stored version is the one it starts
/// from and the code is at the one it leads to.
pub open spec fn applies(on_chain_version: u16, current_version: u16) -> bool {
    on_chain_version == FROM_VERSION && current_version == TO_VERSION
}

/// The name of a kitty that had none.
pub fn default_name() -> (name: [u8; 8])
    ensures
        name@ == default_name_spec(),
{
    let name: [u8; 8] = [78u8, 111u8, 110u8, 101u8, 0u8, 0u8, 0u8, 0u8];
    assert(name@ =~= default_name_spec());
    name
}

/// Upgrades every record of the first layout.
///
/// Where the upgrade does not apply, nothing is to be written and the
/// answer is `None`. Otherwise the answer holds one record for each old
/// one, in the same order and under the same identifier, with the same
/// genetic code and the default name, and the version to store after them.
pub fn migrate(on_chain_version: u16, current_version: u16, old_kitties: &Vec<(KittyId, OldKitty)>) -> (result:
    Option<Migration>)
    ensures
        result is Some <==> applies(on_chain_version, current_version),
        result matches Some(migration) ==> {
            &&& migration.storage_version == TO_VERSION
            &&& migration.kitties@.len() == old_kitties@.len()
            &&& forall|i: int|
                0 <= i < old_kitties@.len() ==> upgraded(
                    #[trigger] old_kitties@[i],
                    migration.kitties@[i],
                )
        },
{
    if on_chain_version != FROM_VERSION {
        return None;
    }
    if current_version != TO_VERSION {
        return None;
    }
    let mut kitties: Vec<(KittyId, Kitty)> = Vec::new();
    let mut i: usize = 0;
    while i < old_kitties.len()
        invariant
            i <= old_kitties@.len(),
            kitties@.len() == i,
            forall|j: int| 0 <= j < i ==> upgraded(#[trigger] old_kitties@[j], kitties@[j]),
        decreases old_kitties@.len() - i,
    {
        let (index, kitty) = old_kitties[i];
        let new_kitty = Kitty { dna: kitty.0, name: default_name() };
        kitties.push((index, new_kitty));
        i += 1;
    }
    Some(Migration { kitties, storage_version: TO_VERSION })
}

} // verus!
