use vstd::prelude::*;

use crate::models::game::combatant::Health;

verus! {

/// Heal the target by `heal`.
pub fn basic_heal(target: &mut Health, heal: i64)
    requires
        old(target).heal_result(heal) is Some,
    ensures
        old(target).heal_result(heal) == Some(*final(target)),
{
    target.heal(heal);
}

} // verus!
