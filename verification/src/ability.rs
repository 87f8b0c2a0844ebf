//! Collecting power-ups, which unlock abilities.

use crate::components::{AbilitySet, Collider, Position, PowerUp};
use crate::enums::Ability;
use vstd::prelude::*;

verus! {

/// The side length of the square around a power-up within which it is
/// collected.
pub const POWER_UP_SIZE: i32 = 32_000;

/// Whether the player's box, centred on its position plus the collider's
/// offset, overlaps the square centred on the power-up. Both sides of each
/// comparison are doubled, so that no half is ever rounded.
pub open spec fn touches_power_up(player_pos: Position, collider: Collider, power_up_pos: Position) -> bool {
    let centre_x = 2 * (player_pos.x + collider.offset_x);
    let centre_y = 2 * (player_pos.y + collider.offset_y);
    &&& centre_x + collider.width > 2 * power_up_pos.x - POWER_UP_SIZE
    &&& centre_x - collider.width < 2 * power_up_pos.x + POWER_UP_SIZE
    &&& centre_y + collider.height > 2 * power_up_pos.y - POWER_UP_SIZE
    &&& centre_y - collider.height < 2 * power_up_pos.y + POWER_UP_SIZE
}

/// Decides whether the player touches a power-up.
pub fn player_touches_power_up(player_pos: &Position, collider: &Collider, power_up_pos: &Position) -> (touching: bool)
    ensures
        touching == touches_power_up(*player_pos, *collider, *power_up_pos),
{
    let centre_x: i64 = 2 * (player_pos.x as i64 + collider.offset_x as i64);
    let centre_y: i64 = 2 * (player_pos.y as i64 + collider.offset_y as i64);
    let size: i64 = POWER_UP_SIZE as i64;
    centre_x + collider.width as i64 > 2 * (power_up_pos.x as i64) - size && centre_x - (collider.width as i64) < 2 * (
    power_up_pos.x as i64) + size && centre_y + collider.height as i64 > 2 * (power_up_pos.y as i64) - size
        && centre_y - (collider.height as i64) < 2 * (power_up_pos.y as i64) + size
}

/// Collects every power-up that the player touches: its ability is added to
/// the set, and its index is reported so that the caller can remove it from
/// the level. The indices come in increasing order.
pub fn collect_power_ups_system(player_pos: &Position, player_collider: &Collider, ability_set: &mut AbilitySet, power_ups: &Vec<(Position, PowerUp)>) -> (collected: Vec<usize>)
    ensures
        forall|i: int| 0 <= i < power_ups@.len() ==> (collected@.contains(i as usize) <==> touches_power_up(*player_pos, *player_collider, (#[trigger] power_ups@[i]).0)),
        forall|k: int| 0 <= k < collected@.len() ==> (#[trigger] collected@[k]) < power_ups@.len(),
        forall|k: int, l: int| 0 <= k < l < collected@.len() ==> collected@[k] < collected@[l],
        forall|a: Ability| final(ability_set)@.contains(a) <==> (old(ability_set)@.contains(a) || exists|i: int| 0 <= i < power_ups@.len() && touches_power_up(*player_pos, *player_collider, (#[trigger] power_ups@[i]).0) && power_ups@[i].1.ability == a),
{
    let mut collected: Vec<usize> = Vec::new();
    let mut i: usize = 0;
    while i < power_ups.len()
        invariant
            i <= power_ups.len(),
            forall|j: int| 0 <= j < i ==> (collected@.contains(j as usize) <==> touches_power_up(*player_pos, *player_collider, (#[trigger] power_ups@[j]).0)),
            forall|k: int| 0 <= k < collected@.len() ==> (#[trigger] collected@[k]) < i,
            forall|k: int, l: int| 0 <= k < l < collected@.len() ==> collected@[k] < collected@[l],
            forall|a: Ability| ability_set@.contains(a) <==> (old(ability_set)@.contains(a) || exists|j: int| 0 <= j < i && touches_power_up(*player_pos, *player_collider, (#[trigger] power_ups@[j]).0) && power_ups@[j].1.ability == a),
        decreases power_ups.len() - i,
    {
        let (power_up_pos, power_up) = power_ups[i];
        let ghost before = collected@;
        let ghost abilities_before = ability_set@;
        if player_touches_power_up(player_pos, player_collider, &power_up_pos) {
            ability_set.add(power_up.ability);
            collected.push(i);
            proof {
                assert(collected@[before.len() as int] == i);
                assert forall|j: int| 0 <= j < i + 1 implies (collected@.contains(j as usize) <==> touches_power_up(*player_pos, *player_collider, (#[trigger] power_ups@[j]).0)) by {
                    if j < i {
                        if before.contains(j as usize) {
                            let k = choose|k: int| 0 <= k < before.len() && before[k] == j as usize;
                            assert(collected@[k] == j as usize);
                        }
                        if collected@.contains(j as usize) {
                            let k = choose|k: int| 0 <= k < collected@.len() && collected@[k] == j as usize;
                            assert(k < before.len());
                            assert(before[k] == j as usize);
                        }
                    }
                }
            }
        } else {
            proof {
                assert forall|j: int| 0 <= j < i + 1 implies (collected@.contains(j as usize) <==> touches_power_up(*player_pos, *player_collider, (#[trigger] power_ups@[j]).0)) by {
                    if j == i && collected@.contains(j as usize) {
                        let k = choose|k: int| 0 <= k < collected@.len() && collected@[k] == j as usize;
                        assert(collected@[k] < i);
                    }
                }
            }
        }
        proof {
            assert forall|a: Ability| ability_set@.contains(a) <==> (old(ability_set)@.contains(a) || exists|j: int| 0 <= j < i + 1 && touches_power_up(*player_pos, *player_collider, (#[trigger] power_ups@[j]).0) && power_ups@[j].1.ability == a) by {
                if exists|j: int| 0 <= j < i + 1 && touches_power_up(*player_pos, *player_collider, (#[trigger] power_ups@[j]).0) && power_ups@[j].1.ability == a {
                    let j = choose|j: int| 0 <= j < i + 1 && touches_power_up(*player_pos, *player_collider, (#[trigger] power_ups@[j]).0) && power_ups@[j].1.ability == a;
                    if j < i {
                        assert(abilities_before.contains(a));
                    }
                }
                if abilities_before.contains(a) && !old(ability_set)@.contains(a) {
                    let j = choose|j: int| 0 <= j < i && touches_power_up(*player_pos, *player_collider, (#[trigger] power_ups@[j]).0) && power_ups@[j].1.ability == a;
                    assert(0 <= j < i + 1 && touches_power_up(*player_pos, *player_collider, power_ups@[j].0) && power_ups@[j].1.ability == a);
                }
                if ability_set@.contains(a) && !abilities_before.contains(a) {
                    assert(touches_power_up(*player_pos, *player_collider, power_ups@[i as int].0) && power_ups@[i as int].1.ability == a);
                }
            }
        }
        i += 1;
    }
    collected
}

} // verus!
