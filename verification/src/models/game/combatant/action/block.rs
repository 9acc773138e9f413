use vstd::prelude::*;

use crate::models::game::combatant::Health;

verus! {

/// Set the block of `health` to `def`.
pub fn basic_block(health: &mut Health, def: i64)
    ensures
        *final(health) == (Health { block: def, ..*old(health) }),
{
    health.defend(def);
}

} // verus!
