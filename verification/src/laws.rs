//! What holds of the registry's operations, whatever the state.

use vstd::prelude::*;
use crate::genetics::{crossover_byte, crossover_spec};
use crate::migrations::v1::{applies, TO_VERSION};
use crate::runtime::{held, ledger_after, ledger_outcome};
use crate::storage::Storage;
use crate::types::{AccountId, Balance, Error, Kitty, KittyId};

verus! {

/// Minting issues the identifier that the counter shows and moves the
/// counter up by exactly one; in a well-formed state no kitty had that
/// identifier before, the new kitty is not listed, every kitty that was
/// there stays as it was, and the state stays well-formed.
pub proof fn lemma_minted_identifier_is_fresh(s: Storage, who: AccountId, kitty: Kitty)
    requires
        s.wf(),
        s.create_error() is None,
    ensures
        !s.kitties.contains_key(s.next_kitty_id),
        s.minted(who, kitty).next_kitty_id == s.next_kitty_id + 1,
        s.minted(who, kitty).kitties.contains_key(s.next_kitty_id),
        s.minted(who, kitty).kitties[s.next_kitty_id] == kitty,
        s.minted(who, kitty).kitty_owner[s.next_kitty_id] == who,
        !s.minted(who, kitty).kitty_on_sale.contains(s.next_kitty_id),
        forall|id: KittyId| #[trigger]
            s.kitties.contains_key(id) ==> s.minted(who, kitty).kitties.contains_key(id) && s.minted(
                who,
                kitty,
            ).kitties[id] == s.kitties[id],
        s.minted(who, kitty).wf(),
{
    if s.kitties.contains_key(s.next_kitty_id) {
        assert(s.next_kitty_id < s.next_kitty_id);
    }
    if s.kitty_on_sale.contains(s.next_kitty_id) {
        assert(s.kitty_owner.contains_key(s.next_kitty_id));
    }
    let t = s.minted(who, kitty);
    assert forall|id: KittyId| #[trigger] t.kitties.contains_key(id) implies id < t.next_kitty_id
        && t.kitty_owner.contains_key(id) by {
        if id != s.next_kitty_id {
            assert(s.kitties.contains_key(id));
        }
    }
    assert forall|id: KittyId| #[trigger] t.kitty_owner.contains_key(id) implies t.kitties.contains_key(
        id,
    ) by {
        if id != s.next_kitty_id {
            assert(s.kitty_owner.contains_key(id));
        }
    }
    assert forall|id: KittyId| #[trigger] t.kitty_parents.contains_key(id) implies {
        &&& t.kitties.contains_key(id)
        &&& t.kitties.contains_key(t.kitty_parents[id].0)
        &&& t.kitties.contains_key(t.kitty_parents[id].1)
        &&& t.kitty_parents[id].0 < id
        &&& t.kitty_parents[id].1 < id
    } by {
        assert(s.kitty_parents.contains_key(id));
    }
    assert forall|id: KittyId| #[trigger] t.kitty_on_sale.contains(id) implies t.kitty_owner.contains_key(
        id,
    ) by {
        assert(s.kitty_on_sale.contains(id));
    }
}

/// No operation lowers the counter of identifiers.
pub proof fn lemma_counter_never_decreases(
    s: Storage,
    who: AccountId,
    kitty: Kitty,
    kitty_id_1: KittyId,
    kitty_id_2: KittyId,
)
    requires
        s.create_error() is None,
    ensures
        s.minted(who, kitty).next_kitty_id > s.next_kitty_id,
        s.bred(who, kitty, kitty_id_1, kitty_id_2).next_kitty_id > s.next_kitty_id,
        s.transferred(who, kitty_id_1).next_kitty_id == s.next_kitty_id,
        s.listed(kitty_id_1).next_kitty_id == s.next_kitty_id,
        s.bought(who, kitty_id_1).next_kitty_id == s.next_kitty_id,
{
}

/// Breeding a kitty with itself is refused as `SamedKittyId`, whatever the
/// state.
pub proof fn lemma_breed_rejects_same_parents(s: Storage, kitty_id: KittyId)
    ensures
        s.breed_error(kitty_id, kitty_id) == Some(Error::SamedKittyId),
{
}

/// Breeding two different kitties of which one does not exist is refused as
/// `InvalidKittyId`.
pub proof fn lemma_breed_rejects_missing_parent(s: Storage, kitty_id_1: KittyId, kitty_id_2: KittyId)
    requires
        kitty_id_1 != kitty_id_2,
        !s.kitties.contains_key(kitty_id_1) || !s.kitties.contains_key(kitty_id_2),
    ensures
        s.breed_error(kitty_id_1, kitty_id_2) == Some(Error::InvalidKittyId),
{
}

/// In a well-formed state the parents of a bred kitty exist and are older
/// than the child, and the state stays well-formed.
pub proof fn lemma_bred_parents_are_older(
    s: Storage,
    who: AccountId,
    kitty: Kitty,
    kitty_id_1: KittyId,
    kitty_id_2: KittyId,
)
    requires
        s.wf(),
        s.breed_error(kitty_id_1, kitty_id_2) is None,
    ensures
        s.bred(who, kitty, kitty_id_1, kitty_id_2).kitty_parents[s.next_kitty_id] == (
            kitty_id_1,
            kitty_id_2,
        ),
        kitty_id_1 < s.next_kitty_id,
        kitty_id_2 < s.next_kitty_id,
        s.bred(who, kitty, kitty_id_1, kitty_id_2).wf(),
{
    lemma_minted_identifier_is_fresh(s, who, kitty);
    let m = s.minted(who, kitty);
    let t = s.bred(who, kitty, kitty_id_1, kitty_id_2);
    assert(s.kitties.contains_key(kitty_id_1) && s.kitties.contains_key(kitty_id_2));
    assert forall|id: KittyId| #[trigger] t.kitty_parents.contains_key(id) implies {
        &&& t.kitties.contains_key(id)
        &&& t.kitties.contains_key(t.kitty_parents[id].0)
        &&& t.kitties.contains_key(t.kitty_parents[id].1)
        &&& t.kitty_parents[id].0 < id
        &&& t.kitty_parents[id].1 < id
    } by {
        if id != s.next_kitty_id {
            assert(m.kitty_parents.contains_key(id));
        }
    }
    assert forall|id: KittyId| #[trigger] t.kitties.contains_key(id) implies id < t.next_kitty_id
        && t.kitty_owner.contains_key(id) by {
        assert(m.kitties.contains_key(id));
    }
    assert forall|id: KittyId| #[trigger] t.kitty_owner.contains_key(id) implies t.kitties.contains_key(
        id,
    ) by {
        assert(m.kitty_owner.contains_key(id));
    }
    assert forall|id: KittyId| #[trigger] t.kitty_on_sale.contains(id) implies t.kitty_owner.contains_key(
        id,
    ) by {
        assert(m.kitty_on_sale.contains(id));
    }
}

/// Each bit of the child's byte is the bit of the first parent where the
/// selector's bit is one, and the bit of the second parent where it is zero.
pub proof fn lemma_crossover_chooses_bits(a: u8, b: u8, selector: u8, bit: u8)
    requires
        bit < 8,
    ensures
        (crossover_byte(a, b, selector) >> bit) & 1 == (if (selector >> bit) & 1 == 1 {
            (a >> bit) & 1
        } else {
            (b >> bit) & 1
        }),
{
    assert(((selector & a | !selector & b) >> bit) & 1 == (if (selector >> bit) & 1 == 1 {
        (a >> bit) & 1
    } else {
        (b >> bit) & 1
    })) by (bit_vector)
        requires
            bit < 8,
    ;
}

/// The crossover depends on its three inputs alone: equal inputs give equal
/// children, and the child has sixteen bytes, each given by the formula.
pub proof fn lemma_crossover_is_a_function(
    dna_a: Seq<u8>,
    dna_b: Seq<u8>,
    selector: Seq<u8>,
    other_a: Seq<u8>,
    other_b: Seq<u8>,
    other_selector: Seq<u8>,
)
    requires
        dna_a == other_a,
        dna_b == other_b,
        selector == other_selector,
    ensures
        crossover_spec(dna_a, dna_b, selector) == crossover_spec(other_a, other_b, other_selector),
        crossover_spec(dna_a, dna_b, selector).len() == 16,
        forall|i: int|
            0 <= i < 16 ==> #[trigger] crossover_spec(dna_a, dna_b, selector)[i] == crossover_byte(
                dna_a[i],
                dna_b[i],
                selector[i],
            ),
{
}

/// Giving a kitty away succeeds only for its owner: anyone else is answered
/// `NotOwner` where the kitty and its owner exist, and after a success the
/// recipient owns it while every other kitty keeps its owner.
pub proof fn lemma_transfer_only_by_owner(s: Storage, who: AccountId, recipient: AccountId, kitty_id: KittyId)
    ensures
        s.transfer_error(who, kitty_id) is None ==> s.kitty_owner[kitty_id] == who,
        s.kitties.contains_key(kitty_id) && s.kitty_owner.contains_key(kitty_id)
            && s.kitty_owner[kitty_id] != who ==> s.transfer_error(who, kitty_id) == Some(
            Error::NotOwner,
        ),
        s.transferred(recipient, kitty_id).kitty_owner[kitty_id] == recipient,
        forall|id: KittyId|
            id != kitty_id && #[trigger] s.kitty_owner.contains_key(id) ==> s.transferred(
                recipient,
                kitty_id,
            ).kitty_owner[id] == s.kitty_owner[id],
{
}

/// Listing succeeds only for a kitty that is not listed: after a listing
/// a second one by the same owner is answered `AlreadyOnSale`, and listing a
/// listed kitty would not change the listings.
pub proof fn lemma_sale_only_once(s: Storage, who: AccountId, kitty_id: KittyId)
    requires
        s.sale_error(who, kitty_id) is None,
    ensures
        !s.kitty_on_sale.contains(kitty_id),
        s.listed(kitty_id).kitty_on_sale.contains(kitty_id),
        s.listed(kitty_id).sale_error(who, kitty_id) == Some(Error::AlreadyOnSale),
        s.listed(kitty_id).listed(kitty_id) == s.listed(kitty_id),
{
    assert(s.listed(kitty_id).listed(kitty_id).kitty_on_sale =~= s.listed(kitty_id).kitty_on_sale);
}

/// Buying succeeds only for a listed kitty and a buyer who does not own
/// it; after a purchase the buyer owns the kitty and it is no longer
/// listed, so a second purchase is refused.
pub proof fn lemma_buy_only_listed(s: Storage, who: AccountId, kitty_id: KittyId)
    requires
        s.buy_error(who, kitty_id) is None,
    ensures
        s.kitty_on_sale.contains(kitty_id),
        s.kitty_owner[kitty_id] != who,
        s.bought(who, kitty_id).kitty_owner[kitty_id] == who,
        !s.bought(who, kitty_id).kitty_on_sale.contains(kitty_id),
        s.bought(who, kitty_id).buy_error(who, kitty_id) == Some(Error::AlreadyOwned),
        forall|other: AccountId|
            other != who ==> s.bought(who, kitty_id).buy_error(other, kitty_id) == Some(
                Error::NotOnSale,
            ),
{
}

/// A kitty that its owner listed can be bought by anyone else, as far as
/// the registry is concerned.
pub proof fn lemma_listed_can_be_bought(s: Storage, owner: AccountId, buyer: AccountId, kitty_id: KittyId)
    requires
        s.sale_error(owner, kitty_id) is None,
        buyer != owner,
    ensures
        s.listed(kitty_id).buy_error(buyer, kitty_id) is None,
        s.listed(kitty_id).kitty_owner[kitty_id] == owner,
        s.listed(kitty_id).bought(buyer, kitty_id).kitty_owner[kitty_id] == buyer,
        !s.listed(kitty_id).bought(buyer, kitty_id).kitty_on_sale.contains(kitty_id),
{
}

/// A kitty is listed by `sale` and delisted by `buy`, and nothing else
/// changes a listing: minting, breeding and giving away leave every flag,
/// and `sale` and `buy` leave the flags of all other kitties.
pub proof fn lemma_only_sale_and_buy_change_listings(
    s: Storage,
    who: AccountId,
    kitty: Kitty,
    kitty_id: KittyId,
    other: KittyId,
)
    requires
        other != kitty_id,
    ensures
        s.minted(who, kitty).kitty_on_sale == s.kitty_on_sale,
        s.bred(who, kitty, kitty_id, other).kitty_on_sale == s.kitty_on_sale,
        s.transferred(who, kitty_id).kitty_on_sale == s.kitty_on_sale,
        s.listed(kitty_id).kitty_on_sale.contains(kitty_id),
        s.listed(kitty_id).kitty_on_sale.contains(other) == s.kitty_on_sale.contains(other),
        !s.bought(who, kitty_id).kitty_on_sale.contains(kitty_id),
        s.bought(who, kitty_id).kitty_on_sale.contains(other) == s.kitty_on_sale.contains(other),
{
}

/// Giving away, listing and buying keep a well-formed state well-formed.
pub proof fn lemma_market_keeps_well_formed(
    s: Storage,
    who: AccountId,
    recipient: AccountId,
    kitty_id: KittyId,
)
    requires
        s.wf(),
    ensures
        s.transfer_error(who, kitty_id) is None ==> s.transferred(recipient, kitty_id).wf(),
        s.sale_error(who, kitty_id) is None ==> s.listed(kitty_id).wf(),
        s.buy_error(who, kitty_id) is None ==> s.bought(who, kitty_id).wf(),
{
    if s.transfer_error(who, kitty_id) is None {
        let t = s.transferred(recipient, kitty_id);
        assert forall|id: KittyId| #[trigger] t.kitty_owner.contains_key(id) implies t.kitties.contains_key(
            id,
        ) by {
            if id != kitty_id {
                assert(s.kitty_owner.contains_key(id));
            }
        }
        assert(t.wf());
    }
    if s.sale_error(who, kitty_id) is None {
        let t = s.listed(kitty_id);
        assert forall|id: KittyId| #[trigger] t.kitty_on_sale.contains(id) implies t.kitty_owner.contains_key(
            id,
        ) by {
            if id != kitty_id {
                assert(s.kitty_on_sale.contains(id));
            }
        }
        assert(t.wf());
    }
    if s.buy_error(who, kitty_id) is None {
        let t = s.bought(who, kitty_id);
        assert forall|id: KittyId| #[trigger] t.kitty_owner.contains_key(id) implies t.kitties.contains_key(
            id,
        ) by {
            if id != kitty_id {
                assert(s.kitty_owner.contains_key(id));
            }
        }
        assert forall|id: KittyId| #[trigger] t.kitty_on_sale.contains(id) implies t.kitty_owner.contains_key(
            id,
        ) by {
            assert(s.kitty_on_sale.contains(id));
        }
        assert(t.wf());
    }
}

/// A payment that the ledger makes between two accounts takes exactly the
/// value from the payer, gives exactly the value to the payee, keeps both at
/// or above the minimum balance and touches no other balance.
pub proof fn lemma_ledger_moves_the_value(
    ledger: Map<AccountId, Balance>,
    source: AccountId,
    dest: AccountId,
    value: Balance,
    deposit: Balance,
    other: AccountId,
)
    requires
        source != dest,
        other != source,
        other != dest,
        ledger_outcome(held(ledger, source), held(ledger, dest), false, value, deposit) is Ok,
    ensures
        held(ledger_after(ledger, source, dest, value), source) == held(ledger, source) - value,
        held(ledger_after(ledger, source, dest, value), dest) == held(ledger, dest) + value,
        held(ledger_after(ledger, source, dest, value), other) == held(ledger, other),
        value > 0 ==> held(ledger_after(ledger, source, dest, value), source) >= deposit,
        value > 0 ==> held(ledger_after(ledger, source, dest, value), dest) >= deposit,
{
}

/// Once the upgrade has run and its version is stored, it does not apply
/// again; nor does it apply to a store at or beyond its target.
pub proof fn lemma_migration_runs_once(on_chain_version: u16, current_version: u16)
    ensures
        !applies(TO_VERSION, current_version),
        on_chain_version >= TO_VERSION ==> !applies(on_chain_version, current_version),
{
}

} // verus!
