//! One tick of enemy fire: who shoots, and what each shot is.

use crate::reload::FiringState;
use crate::trajectory::{plan, planned, BulletArchetype, Trajectory};
use vstd::prelude::*;

verus! {

/// Horizontal distance from a shooter's position to the point where its shots appear.
pub const MUZZLE_OFFSET_X: u32 = 36;

/// Vertical distance from a shooter's position to the point where its shots appear.
pub const MUZZLE_OFFSET_Y: u32 = 72;

/// Whom a projectile hurts.
#[derive(Clone, Copy, Debug, PartialEq, Eq, Structural)]
pub enum DamagesWho {
    Player,
    Enemy,
}

/// What the firing rules need to know of an enemy.
#[derive(Clone, Copy, Debug, PartialEq, Eq, Structural)]
pub struct Shooter {
    pub firing: FiringState,
    pub archetype: BulletArchetype,
}

/// A projectile to create: it appears at the shooter's position moved by the
/// muzzle offset, carries the shooter's archetype, and starts with the velocity
/// that `trajectory` describes.
#[derive(Clone, Copy, Debug, PartialEq, Eq, Structural)]
pub struct Shot {
    /// Position of the shooter in the list that was ticked.
    pub shooter: usize,
    pub archetype: BulletArchetype,
    pub trajectory: Trajectory,
    pub damages: DamagesWho,
}

/// The positions, in ascending order, of the shooters that are due.
pub open spec fn due_indices(shooters: Seq<Shooter>) -> Seq<usize>
    decreases shooters.len(),
{
    if shooters.len() == 0 {
        Seq::empty()
    } else if shooters.last().firing.due() {
        due_indices(shooters.drop_last()).push((shooters.len() - 1) as usize)
    } else {
        due_indices(shooters.drop_last())
    }
}

/// Every shooter one tick later.
pub open spec fn all_ticked(shooters: Seq<Shooter>) -> Seq<Shooter> {
    Seq::new(
        shooters.len(),
        |i: int| Shooter { firing: shooters[i].firing.ticked(), archetype: shooters[i].archetype },
    )
}

/// Whether `shot` is a shot that the shooter at `index` may fire.
pub open spec fn shot_of(shot: Shot, shooters: Seq<Shooter>, index: usize) -> bool {
    let archetype = shooters[index as int].archetype;
    &&& shot.shooter == index
    &&& shot.archetype == archetype
    &&& shot.damages == DamagesWho::Player
    &&& (shot.trajectory == planned(archetype, true) || shot.trajectory == planned(
        archetype,
        false,
    ))
}

/// No shooter that is due carries the player's own archetype.
pub open spec fn can_fire(shooters: Seq<Shooter>) -> bool {
    forall|i: int|
        0 <= i < shooters.len() && (#[trigger] shooters[i]).firing.due()
            ==> !(shooters[i].archetype is PlayerOwned)
}

/// The due positions are the positions of the due shooters and no others, in
/// ascending order.
pub proof fn lemma_due_indices(shooters: Seq<Shooter>)
    requires
        shooters.len() <= usize::MAX,
    ensures
        due_indices(shooters).len() <= shooters.len(),
        forall|k: int|
            0 <= k < due_indices(shooters).len() ==> {
                let index = #[trigger] due_indices(shooters)[k];
                index < shooters.len() && shooters[index as int].firing.due()
            },
        forall|j: int, k: int|
            0 <= j < k < due_indices(shooters).len() ==> due_indices(shooters)[j] < due_indices(
                shooters,
            )[k],
        forall|i: int|
            0 <= i < shooters.len() && (#[trigger] shooters[i]).firing.due() ==> due_indices(
                shooters,
            ).contains(i as usize),
    decreases shooters.len(),
{
    if shooters.len() > 0 {
        let front = shooters.drop_last();
        lemma_due_indices(front);
        let due = due_indices(shooters);
        let last = (shooters.len() - 1) as usize;
        if shooters.last().firing.due() {
            assert(due == due_indices(front).push(last));
            assert(due[due.len() - 1] == last);
            assert forall|i: int|
                0 <= i < shooters.len() && (#[trigger] shooters[i]).firing.due() implies due.contains(
                i as usize,
            ) by {
                if i < front.len() {
                    assert(front[i].firing.due());
                    let k = choose|k: int|
                        0 <= k < due_indices(front).len() && due_indices(front)[k] == i as usize;
                    assert(due[k] == i as usize);
                }
            }
        } else {
            assert forall|i: int|
                0 <= i < shooters.len() && (#[trigger] shooters[i]).firing.due() implies due.contains(
                i as usize,
            ) by {
                assert(front[i].firing.due());
            }
        }
    }
}

/// Runs one tick of enemy fire. While the player is dead nothing happens: no
/// countdown moves and nobody fires. Otherwise every shooter's countdown is
/// ticked once, and each shooter that was due fires one shot at the player,
/// planned for its archetype. The shots come in the order of the shooters.
pub fn volley(player_dead: bool, shooters: &mut Vec<Shooter>) -> (shots: Vec<Shot>)
    requires
        !player_dead ==> can_fire(old(shooters)@),
    ensures
        player_dead ==> final(shooters)@ == old(shooters)@ && shots@.len() == 0,
        !player_dead ==> final(shooters)@ == all_ticked(old(shooters)@),
        !player_dead ==> shots@.len() == due_indices(old(shooters)@).len(),
        !player_dead ==> forall|k: int|
            0 <= k < shots@.len() ==> shot_of(
                #[trigger] shots@[k],
                old(shooters)@,
                due_indices(old(shooters)@)[k],
            ),
{
    let mut shots: Vec<Shot> = Vec::new();
    if player_dead {
        return shots;
    }
    let count = shooters.len();
    let mut i: usize = 0;
    while i < count
        invariant
            i <= count,
            count == old(shooters)@.len(),
            shooters@.len() == count,
            can_fire(old(shooters)@),
            forall|j: int|
                0 <= j < i ==> shooters@[j] == (Shooter {
                    firing: (#[trigger] old(shooters)@[j]).firing.ticked(),
                    archetype: old(shooters)@[j].archetype,
                }),
            forall|j: int| i <= j < count ==> shooters@[j] == old(shooters)@[j],
            shots@.len() == due_indices(old(shooters)@.take(i as int)).len(),
            forall|k: int|
                0 <= k < shots@.len() ==> shot_of(
                    #[trigger] shots@[k],
                    old(shooters)@,
                    due_indices(old(shooters)@.take(i as int))[k],
                ),
        decreases count - i,
    {
        let mut shooter = shooters[i];
        let fires = shooter.firing.tick();
        shooters.set(i, shooter);
        proof {
            let upto = old(shooters)@.take(i + 1);
            assert(upto.drop_last() == old(shooters)@.take(i as int));
            assert(upto.last() == old(shooters)@[i as int]);
        }
        if fires {
            let trajectory = plan(shooter.archetype);
            shots.push(
                Shot {
                    shooter: i,
                    archetype: shooter.archetype,
                    trajectory,
                    damages: DamagesWho::Player,
                },
            );
        }
        i = i + 1;
    }
    proof {
        assert(old(shooters)@.take(count as int) == old(shooters)@);
        assert(shooters@ == all_ticked(old(shooters)@));
    }
    shots
}

} // verus!
