//! What holds of every pick and of every roster.

use crate::wave::{
    best_among, candidate, completed, eligible, lemma_completed_reaches_target,
    lemma_roster_bounds, lemma_spent_push, lemma_weight_bounds, pick, rank_of, roster_of,
    roster_types, score, spent, successor, target_difficulty, weight, EnemyType, ENEMY_TYPES,
};
use vstd::prelude::*;

verus! {

/// Whether `ty` is eligible, no eligible type scores higher, and every eligible
/// type that is considered before it scores lower.
pub open spec fn first_best(
    ty: EnemyType,
    target: nat,
    spent: nat,
    counts: Map<EnemyType, nat>,
) -> bool {
    &&& eligible(ty, target, spent)
    &&& forall|other: EnemyType|
        eligible(other, target, spent) ==> score(other, #[trigger] counts[other]) <= score(
            ty,
            counts[ty],
        )
    &&& forall|other: EnemyType|
        eligible(other, target, spent) && rank_of(other) < rank_of(ty) ==> score(
            other,
            #[trigger] counts[other],
        ) < score(ty, counts[ty])
}

/// The order of consideration names every enemy type exactly once.
pub proof fn lemma_rank_names_type(ty: EnemyType)
    ensures
        0 <= rank_of(ty) < ENEMY_TYPES,
        candidate(rank_of(ty)) == ty,
{
}

/// What `best_among` has found after the first `limit` types.
proof fn lemma_best_among(limit: nat, target: nat, spent: nat, counts: Map<EnemyType, nat>)
    requires
        limit <= ENEMY_TYPES,
    ensures
        match best_among(limit, target, spent, counts) {
            None => forall|ty: EnemyType|
                rank_of(ty) < limit ==> !#[trigger] eligible(ty, target, spent),
            Some(best) => {
                &&& rank_of(best) < limit
                &&& eligible(best, target, spent)
                &&& forall|ty: EnemyType|
                    rank_of(ty) < limit && eligible(ty, target, spent) ==> score(
                        ty,
                        #[trigger] counts[ty],
                    ) <= score(best, counts[best])
                &&& forall|ty: EnemyType|
                    rank_of(ty) < rank_of(best) && eligible(ty, target, spent) ==> score(
                        ty,
                        #[trigger] counts[ty],
                    ) < score(best, counts[best])
            },
        },
    decreases limit,
{
    if limit > 0 {
        lemma_best_among((limit - 1) as nat, target, spent, counts);
        let last = candidate(limit - 1);
        assert(rank_of(last) == limit - 1);
        assert forall|ty: EnemyType| rank_of(ty) < limit implies rank_of(ty) < limit - 1 || ty
            == last by {
            lemma_rank_names_type(ty);
        }
    }
}

/// The pick is the first of the best: where some type is eligible, the pick is
/// eligible, no eligible type scores higher, and every eligible type considered
/// before it scores lower. Where none is eligible, the pick is the basic enemy.
pub proof fn lemma_pick_is_first_best(target: nat, spent: nat, counts: Map<EnemyType, nat>)
    ensures
        (exists|ty: EnemyType| eligible(ty, target, spent)) ==> first_best(
            pick(target, spent, counts),
            target,
            spent,
            counts,
        ),
        (forall|ty: EnemyType| !eligible(ty, target, spent)) ==> pick(target, spent, counts)
            == EnemyType::BasicEnemy,
{
    lemma_best_among(ENEMY_TYPES as nat, target, spent, counts);
    assert forall|ty: EnemyType| rank_of(ty) < ENEMY_TYPES by {
        lemma_rank_names_type(ty);
    }
}

/// Only one type is the first of the best.
pub proof fn lemma_first_best_is_unique(
    a: EnemyType,
    b: EnemyType,
    target: nat,
    spent: nat,
    counts: Map<EnemyType, nat>,
)
    requires
        first_best(a, target, spent, counts),
        first_best(b, target, spent, counts),
    ensures
        a == b,
{
    let score_a = score(a, counts[a]);
    let score_b = score(b, counts[b]);
    assert(score_a <= score_b && score_b <= score_a);
    if rank_of(a) < rank_of(b) {
        assert(score_a < score_b);
    } else if rank_of(b) < rank_of(a) {
        assert(score_b < score_a);
    }
}

/// A type that was picked twice scores nothing, and so does a type of weight
/// three or less that was picked once: the penalty has eaten its weight.
pub proof fn lemma_score_exhausted(ty: EnemyType, repeats: nat)
    requires
        repeats >= 2 || (repeats >= 1 && weight(ty) <= 3),
    ensures
        score(ty, repeats) == 0,
{
    assert(repeats * repeats * 3 >= 3) by (nonlinear_arith)
        requires
            repeats >= 1,
    ;
    assert(repeats >= 2 ==> repeats * repeats * 3 >= 12) by (nonlinear_arith);
}

/// A type that was never picked scores its full weight, and no type ever
/// scores more than its weight.
pub proof fn lemma_score_bounds(ty: EnemyType, repeats: nat)
    ensures
        score(ty, 0) == weight(ty),
        score(ty, repeats) <= weight(ty),
{
    assert(0nat * 0nat * 3 == 0) by (nonlinear_arith);
}

/// The more often a type was picked, the lower it scores.
pub proof fn lemma_score_falls_with_repeats(ty: EnemyType, fewer: nat, more: nat)
    requires
        fewer <= more,
    ensures
        score(ty, more) <= score(ty, fewer),
{
    assert(fewer * fewer * 3 <= more * more * 3) by (nonlinear_arith)
        requires
            fewer <= more,
    ;
}

/// While a type that was never picked is eligible, no type is picked a third
/// time, and none of weight three or less a second time.
pub proof fn lemma_fresh_type_is_preferred(
    fresh: EnemyType,
    target: nat,
    spent: nat,
    counts: Map<EnemyType, nat>,
)
    requires
        eligible(fresh, target, spent),
        counts[fresh] == 0,
    ensures
        counts[pick(target, spent, counts)] <= 1,
        weight(pick(target, spent, counts)) <= 3 ==> counts[pick(target, spent, counts)] == 0,
        score(pick(target, spent, counts), counts[pick(target, spent, counts)]) >= weight(fresh),
{
    let picked = pick(target, spent, counts);
    lemma_pick_is_first_best(target, spent, counts);
    lemma_score_bounds(fresh, 0);
    assert(score(fresh, counts[fresh]) <= score(picked, counts[picked]));
    if counts[picked] >= 2 || (counts[picked] >= 1 && weight(picked) <= 3) {
        lemma_score_exhausted(picked, counts[picked]);
    }
}

/// Every enemy that `completed` adds is the successor of the enemies before it.
pub proof fn lemma_completed_steps(target: nat, roster: Seq<EnemyType>, i: int)
    requires
        roster.len() <= i < completed(target, roster).len(),
    ensures
        completed(target, roster)[i] == successor(target, completed(target, roster).take(i)),
    decreases target + 10 - spent(roster),
{
    if spent(roster) < target {
        let ty = successor(target, roster);
        let next = roster.push(ty);
        lemma_spent_push(roster, ty);
        lemma_weight_bounds(ty);
        lemma_completed_reaches_target(target, next);
        if i == roster.len() {
            assert(completed(target, roster).take(i) == roster);
        } else {
            lemma_completed_steps(target, next, i);
        }
    }
}

/// A roster is made by picking: each of its enemies is the first of the best
/// after the enemies before it, or the basic enemy where no type was eligible.
pub proof fn lemma_roster_is_picked(wave_index: u32, i: int)
    requires
        0 <= i < roster_types(wave_index).len(),
    ensures
        roster_types(wave_index)[i] == successor(
            target_difficulty(wave_index),
            roster_types(wave_index).take(i),
        ),
{
    lemma_completed_steps(target_difficulty(wave_index), Seq::empty(), i);
}

/// A roster reaches its target with its last enemy and not before: it is not
/// empty, what it has spent is at least the target, and without its last enemy
/// it would have spent less.
pub proof fn lemma_roster_meets_budget(wave_index: u32)
    ensures
        roster_types(wave_index).len() > 0,
        spent(roster_types(wave_index)) >= target_difficulty(wave_index),
        spent(roster_types(wave_index).drop_last()) < target_difficulty(wave_index),
        spent(roster_types(wave_index)) < target_difficulty(wave_index) + 10,
{
    let target = target_difficulty(wave_index);
    let roster = roster_types(wave_index);
    lemma_completed_reaches_target(target, Seq::empty());
    assert(spent(Seq::<EnemyType>::empty()) == 0);
    if roster.len() == 0 {
        assert(roster =~= Seq::<EnemyType>::empty());
    } else {
        lemma_weight_bounds(roster.last());
    }
}

/// A roster is at most half its target long, rounded up, and at least a tenth.
pub proof fn lemma_roster_length(wave_index: u32)
    ensures
        2 * (roster_types(wave_index).len() - 1) < target_difficulty(wave_index),
        10 * roster_types(wave_index).len() >= target_difficulty(wave_index),
{
    let roster = roster_types(wave_index);
    lemma_roster_meets_budget(wave_index);
    lemma_roster_bounds(roster, EnemyType::BasicEnemy);
    lemma_roster_bounds(roster.drop_last(), EnemyType::BasicEnemy);
}

/// The roster lists the enemy types of the wave in order, each on the point of
/// the spawn grid that its place in the roster names.
pub proof fn lemma_roster_layout(wave_index: u32, i: int)
    requires
        0 <= i < roster_types(wave_index).len(),
    ensures
        roster_of(wave_index).len() == roster_types(wave_index).len(),
        roster_of(wave_index)[i].enemy == roster_types(wave_index)[i],
        roster_of(wave_index)[i].position.x == 90 * (i % 4),
        roster_of(wave_index)[i].position.y == 20 + 100 * (i / 4),
{
    lemma_roster_length(wave_index);
}

} // verus!
