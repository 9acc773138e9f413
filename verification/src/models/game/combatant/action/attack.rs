use vstd::prelude::*;

use crate::models::game::combatant::Health;

verus! {

/// Deal `dmg` damage to the target.
pub fn basic_attack(target: &mut Health, dmg: i64)
    requires
        old(target).hurt_result(dmg) is Some,
    ensures
        old(target).hurt_result(dmg) == Some(*final(target)),
{
    target.hurt(dmg);
}

} // verus!
