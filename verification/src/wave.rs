//! Wave rosters: which enemies make up a wave, and where each one spawns.
//!
//! A wave has a difficulty target. Enemies are picked one at a time, each time
//! the eligible type with the best score, until the difficulty spent reaches
//! the target. A type's score is its weight less a penalty that grows with the
//! square of the number of times the type was already picked, so a roster
//! spreads over the types instead of repeating the heaviest one.

use vstd::prelude::*;

verus! {

/// The kinds of enemy a wave can hold.
#[derive(Clone, Copy, Debug, PartialEq, Eq, Hash, Structural)]
pub enum EnemyType {
    BasicEnemy,
    BasicEnemy2,
    AimEnemy,
    AimEnemy2,
    BounceEnemy,
    PredictEnemy,
    TrackingEnemy,
}

/// Number of enemy types.
pub const ENEMY_TYPES: usize = 7;

/// Number of columns of the spawn grid.
pub const GRID_COLUMNS: usize = 4;

/// Horizontal distance between two columns of the spawn grid.
pub const COLUMN_SPACING: u64 = 90;

/// Vertical distance between two rows of the spawn grid.
pub const ROW_SPACING: u64 = 100;

/// Height of the first row of the spawn grid.
pub const TOP_MARGIN: u64 = 20;

/// A point of the spawn grid.
#[derive(Clone, Copy, Debug, PartialEq, Eq, Structural)]
pub struct SpawnPoint {
    pub x: u64,
    pub y: u64,
}

/// One enemy of a wave and the point where it spawns.
#[derive(Clone, Copy, Debug, PartialEq, Eq, Structural)]
pub struct WaveRosterEntry {
    pub position: SpawnPoint,
    pub enemy: EnemyType,
}

/// The difficulty weight of an enemy type.
pub open spec fn weight(ty: EnemyType) -> nat {
    match ty {
        EnemyType::BasicEnemy => 1,
        EnemyType::BasicEnemy2 => 2,
        EnemyType::AimEnemy => 2,
        EnemyType::AimEnemy2 => 4,
        EnemyType::BounceEnemy => 4,
        EnemyType::PredictEnemy => 5,
        EnemyType::TrackingEnemy => 5,
    }
}

/// The enemy types in the order in which they are considered; among equally
/// good types the one considered first is picked.
pub open spec fn candidate(rank: int) -> EnemyType {
    if rank == 0 {
        EnemyType::BasicEnemy
    } else if rank == 1 {
        EnemyType::BasicEnemy2
    } else if rank == 2 {
        EnemyType::AimEnemy
    } else if rank == 3 {
        EnemyType::AimEnemy2
    } else if rank == 4 {
        EnemyType::PredictEnemy
    } else if rank == 5 {
        EnemyType::TrackingEnemy
    } else {
        EnemyType::BounceEnemy
    }
}

/// The place of an enemy type in the order of consideration.
pub open spec fn rank_of(ty: EnemyType) -> int {
    match ty {
        EnemyType::BasicEnemy => 0,
        EnemyType::BasicEnemy2 => 1,
        EnemyType::AimEnemy => 2,
        EnemyType::AimEnemy2 => 3,
        EnemyType::PredictEnemy => 4,
        EnemyType::TrackingEnemy => 5,
        EnemyType::BounceEnemy => 6,
    }
}

/// The difficulty that a wave has to reach.
pub open spec fn target_difficulty(wave_index: u32) -> nat {
    if wave_index == 1 {
        12
    } else if wave_index == 2 {
        14
    } else if wave_index == 3 {
        20
    } else if wave_index == 4 {
        24
    } else {
        (wave_index * 4 + 5) as nat
    }
}

/// The difficulty that a roster has used up: each enemy counts twice its weight.
pub open spec fn spent(roster: Seq<EnemyType>) -> nat
    decreases roster.len(),
{
    if roster.len() == 0 {
        0
    } else {
        spent(roster.drop_last()) + 2 * weight(roster.last())
    }
}

/// How often `ty` occurs in `roster`.
pub open spec fn repeats(roster: Seq<EnemyType>, ty: EnemyType) -> nat
    decreases roster.len(),
{
    if roster.len() == 0 {
        0
    } else if roster.last() == ty {
        repeats(roster.drop_last(), ty) + 1
    } else {
        repeats(roster.drop_last(), ty)
    }
}

/// The number of occurrences of every enemy type in `roster`.
pub open spec fn repeat_counts(roster: Seq<EnemyType>) -> Map<EnemyType, nat> {
    Map::total(|ty: EnemyType| repeats(roster, ty))
}

/// What a type loses for having been picked `repeats` times already: three
/// times the square of that number, but never more than its weight.
pub open spec fn penalty(ty: EnemyType, repeats: nat) -> nat {
    if repeats * repeats * 3 < weight(ty) {
        repeats * repeats * 3
    } else {
        weight(ty)
    }
}

/// The score by which the types compete for the next place in the roster.
pub open spec fn score(ty: EnemyType, repeats: nat) -> nat {
    (weight(ty) - penalty(ty, repeats)) as nat
}

/// Whether `ty` may be picked when `spent` of the `target` is used up: its
/// weight has to be below what is left, and below a quarter of the target.
pub open spec fn eligible(ty: EnemyType, target: nat, spent: nat) -> bool {
    weight(ty) < target - spent && 4 * weight(ty) < target
}

/// The best of the first `limit` types in the order of consideration: the
/// eligible one with the highest score, and of several such the first.
pub open spec fn best_among(
    limit: nat,
    target: nat,
    spent: nat,
    counts: Map<EnemyType, nat>,
) -> Option<EnemyType>
    decreases limit,
{
    if limit == 0 {
        None
    } else {
        let earlier = best_among((limit - 1) as nat, target, spent, counts);
        let ty = candidate(limit - 1);
        if !eligible(ty, target, spent) {
            earlier
        } else {
            match earlier {
                None => Some(ty),
                Some(best) => if score(ty, counts[ty]) > score(best, counts[best]) {
                    Some(ty)
                } else {
                    earlier
                },
            }
        }
    }
}

/// The next enemy of a roster: the best eligible type, or the basic enemy
/// where no type is eligible.
pub open spec fn pick(target: nat, spent: nat, counts: Map<EnemyType, nat>) -> EnemyType {
    match best_among(ENEMY_TYPES as nat, target, spent, counts) {
        Some(ty) => ty,
        None => EnemyType::BasicEnemy,
    }
}

/// The enemy that follows `roster` in a wave with the given target.
pub open spec fn successor(target: nat, roster: Seq<EnemyType>) -> EnemyType {
    pick(target, spent(roster), repeat_counts(roster))
}

/// `roster`, continued one enemy at a time until the target is reached.
pub open spec fn completed(target: nat, roster: Seq<EnemyType>) -> Seq<EnemyType>
    decreases target + 10 - spent(roster),
{
    if spent(roster) >= target {
        roster
    } else {
        let next = roster.push(successor(target, roster));
        proof {
            lemma_spent_push(roster, successor(target, roster));
            lemma_weight_bounds(successor(target, roster));
        }
        completed(target, next)
    }
}

/// The enemy types of a wave, in spawn order.
pub open spec fn roster_types(wave_index: u32) -> Seq<EnemyType> {
    completed(target_difficulty(wave_index), Seq::empty())
}

/// The point of the spawn grid with the given index. The grid is filled row by
/// row, four points to a row.
pub open spec fn grid_point(index: int) -> SpawnPoint {
    SpawnPoint {
        x: (COLUMN_SPACING * (index % 4)) as u64,
        y: (TOP_MARGIN + ROW_SPACING * (index / 4)) as u64,
    }
}

/// `types` laid out on the spawn grid in order.
pub open spec fn laid_out(types: Seq<EnemyType>) -> Seq<WaveRosterEntry> {
    Seq::new(
        types.len(),
        |i: int| WaveRosterEntry { position: grid_point(i), enemy: types[i] },
    )
}

/// The roster of a wave.
pub open spec fn roster_of(wave_index: u32) -> Seq<WaveRosterEntry> {
    laid_out(roster_types(wave_index))
}

/// Every enemy type weighs at least one and at most five.
pub proof fn lemma_weight_bounds(ty: EnemyType)
    ensures
        1 <= weight(ty) <= 5,
{
}

/// Adding an enemy to a roster adds twice its weight to what is spent.
pub proof fn lemma_spent_push(roster: Seq<EnemyType>, ty: EnemyType)
    ensures
        spent(roster.push(ty)) == spent(roster) + 2 * weight(ty),
{
    assert(roster.push(ty).drop_last() == roster);
}

/// Adding an enemy to a roster adds one occurrence of its type and none of any other.
pub proof fn lemma_repeats_push(roster: Seq<EnemyType>, ty: EnemyType, other: EnemyType)
    ensures
        repeats(roster.push(ty), other) == repeats(roster, other) + if other == ty {
            1nat
        } else {
            0nat
        },
{
    assert(roster.push(ty).drop_last() == roster);
}

/// A type occurs at most as often as the roster is long, and a roster of `n`
/// enemies has spent between `2 * n` and `10 * n`.
pub proof fn lemma_roster_bounds(roster: Seq<EnemyType>, ty: EnemyType)
    ensures
        repeats(roster, ty) <= roster.len(),
        2 * roster.len() <= spent(roster) <= 10 * roster.len(),
    decreases roster.len(),
{
    if roster.len() > 0 {
        lemma_roster_bounds(roster.drop_last(), ty);
    }
}

/// The running count of how often each enemy type was picked.
#[derive(Clone, Copy, Debug)]
pub struct RepeatCounts {
    basic: u64,
    basic2: u64,
    aim: u64,
    aim2: u64,
    bounce: u64,
    predict: u64,
    tracking: u64,
}

impl RepeatCounts {
    /// The count kept for `ty`.
    pub closed spec fn of(self, ty: EnemyType) -> nat {
        match ty {
            EnemyType::BasicEnemy => self.basic as nat,
            EnemyType::BasicEnemy2 => self.basic2 as nat,
            EnemyType::AimEnemy => self.aim as nat,
            EnemyType::AimEnemy2 => self.aim2 as nat,
            EnemyType::BounceEnemy => self.bounce as nat,
            EnemyType::PredictEnemy => self.predict as nat,
            EnemyType::TrackingEnemy => self.tracking as nat,
        }
    }

    /// Counts of zero for every type.
    pub fn new() -> (counts: RepeatCounts)
        ensures
            counts@ == repeat_counts(Seq::empty()),
    {
        let counts = RepeatCounts {
            basic: 0,
            basic2: 0,
            aim: 0,
            aim2: 0,
            bounce: 0,
            predict: 0,
            tracking: 0,
        };
        assert(counts@ =~= repeat_counts(Seq::empty()));
        counts
    }

    /// How often `ty` was picked.
    pub fn get(&self, ty: EnemyType) -> (count: u64)
        ensures
            count == self@[ty],
    {
        match ty {
            EnemyType::BasicEnemy => self.basic,
            EnemyType::BasicEnemy2 => self.basic2,
            EnemyType::AimEnemy => self.aim,
            EnemyType::AimEnemy2 => self.aim2,
            EnemyType::BounceEnemy => self.bounce,
            EnemyType::PredictEnemy => self.predict,
            EnemyType::TrackingEnemy => self.tracking,
        }
    }

    /// Counts one more pick of `ty`.
    pub fn record(&mut self, ty: EnemyType)
        requires
            old(self)@[ty] < u64::MAX,
        ensures
            final(self)@ == old(self)@.insert(ty, old(self)@[ty] + 1),
    {
        match ty {
            EnemyType::BasicEnemy => {
                self.basic = self.basic + 1;
            },
            EnemyType::BasicEnemy2 => {
                self.basic2 = self.basic2 + 1;
            },
            EnemyType::AimEnemy => {
                self.aim = self.aim + 1;
            },
            EnemyType::AimEnemy2 => {
                self.aim2 = self.aim2 + 1;
            },
            EnemyType::BounceEnemy => {
                self.bounce = self.bounce + 1;
            },
            EnemyType::PredictEnemy => {
                self.predict = self.predict + 1;
            },
            EnemyType::TrackingEnemy => {
                self.tracking = self.tracking + 1;
            },
        }
        assert(self@ =~= old(self)@.insert(ty, old(self)@[ty] + 1));
    }
}

impl View for RepeatCounts {
    type V = Map<EnemyType, nat>;

    closed spec fn view(&self) -> Map<EnemyType, nat> {
        Map::total(|ty: EnemyType| self.of(ty))
    }
}

/// The difficulty weight of an enemy type.
pub fn difficulty_weight(ty: EnemyType) -> (w: u64)
    ensures
        w == weight(ty),
{
    match ty {
        EnemyType::BasicEnemy => 1,
        EnemyType::BasicEnemy2 => 2,
        EnemyType::AimEnemy => 2,
        EnemyType::AimEnemy2 => 4,
        EnemyType::BounceEnemy => 4,
        EnemyType::PredictEnemy => 5,
        EnemyType::TrackingEnemy => 5,
    }
}

/// The difficulty that the wave with the given index has to reach.
pub fn target_for_wave(wave_index: u32) -> (target: u64)
    ensures
        target == target_difficulty(wave_index),
{
    if wave_index == 1 {
        12
    } else if wave_index == 2 {
        14
    } else if wave_index == 3 {
        20
    } else if wave_index == 4 {
        24
    } else {
        let wave: u64 = wave_index as u64;
        wave * 4 + 5
    }
}

/// The enemy type with the given place in the order of consideration.
pub fn candidate_at(rank: usize) -> (ty: EnemyType)
    requires
        rank < ENEMY_TYPES,
    ensures
        ty == candidate(rank as int),
{
    if rank == 0 {
        EnemyType::BasicEnemy
    } else if rank == 1 {
        EnemyType::BasicEnemy2
    } else if rank == 2 {
        EnemyType::AimEnemy
    } else if rank == 3 {
        EnemyType::AimEnemy2
    } else if rank == 4 {
        EnemyType::PredictEnemy
    } else if rank == 5 {
        EnemyType::TrackingEnemy
    } else {
        EnemyType::BounceEnemy
    }
}

/// The score of `ty` after it was picked `repeats` times.
pub fn score_of(ty: EnemyType, repeats: u64) -> (s: u64)
    ensures
        s == score(ty, repeats as nat),
{
    let w = difficulty_weight(ty);
    assert(repeats == 0 ==> repeats * repeats * 3 == 0) by (nonlinear_arith);
    assert(repeats == 1 ==> repeats * repeats * 3 == 3) by (nonlinear_arith);
    if repeats == 0 {
        w
    } else if repeats == 1 {
        if 3 < w {
            w - 3
        } else {
            0
        }
    } else {
        assert(repeats * repeats * 3 >= 12) by (nonlinear_arith)
            requires
                repeats >= 2,
        ;
        0
    }
}

/// Picks the next enemy of a wave with the given target, of which `spent` is
/// used up, where `counts` says how often each type was picked so far.
pub fn next_enemy(target: u64, spent: u64, counts: &RepeatCounts) -> (ty: EnemyType)
    ensures
        ty == pick(target as nat, spent as nat, counts@),
{
    let mut best: Option<EnemyType> = None;
    let mut best_score: u64 = 0;
    let mut rank: usize = 0;
    while rank < ENEMY_TYPES
        invariant
            rank <= ENEMY_TYPES,
            best == best_among(rank as nat, target as nat, spent as nat, counts@),
            best matches Some(b) ==> best_score == score(b, counts@[b]),
        decreases ENEMY_TYPES - rank,
    {
        let ty = candidate_at(rank);
        let w = difficulty_weight(ty);
        if spent < target && w < target - spent && 4 * w < target {
            let s = score_of(ty, counts.get(ty));
            if best.is_none() || s > best_score {
                best = Some(ty);
                best_score = s;
            }
        }
        rank = rank + 1;
    }
    match best {
        Some(ty) => ty,
        None => EnemyType::BasicEnemy,
    }
}

/// The point of the spawn grid with the given index.
pub fn grid_position(index: usize) -> (point: SpawnPoint)
    requires
        TOP_MARGIN + ROW_SPACING * (index / 4) <= u64::MAX,
    ensures
        point == grid_point(index as int),
{
    let column: u64 = (index % GRID_COLUMNS) as u64;
    let row: u64 = (index / GRID_COLUMNS) as u64;
    SpawnPoint { x: COLUMN_SPACING * column, y: TOP_MARGIN + ROW_SPACING * row }
}

/// Picks the enemy types of a wave with the given target, in spawn order.
pub fn pick_types(target: u64) -> (types: Vec<EnemyType>)
    requires
        target <= u64::MAX - 10,
    ensures
        types@ == completed(target as nat, Seq::empty()),
{
    let mut types: Vec<EnemyType> = Vec::new();
    let mut counts = RepeatCounts::new();
    let mut used: u64 = 0;
    while used < target
        invariant
            target <= u64::MAX - 10,
            used == spent(types@),
            counts@ == repeat_counts(types@),
            completed(target as nat, types@) == completed(target as nat, Seq::empty()),
        decreases target + 10 - used,
    {
        let ty = next_enemy(target, used, &counts);
        proof {
            lemma_weight_bounds(ty);
            lemma_spent_push(types@, ty);
            lemma_roster_bounds(types@, ty);
            assert forall|other: EnemyType|
                repeat_counts(types@.push(ty))[other] == counts@.insert(
                    ty,
                    counts@[ty] + 1,
                )[other] by {
                lemma_repeats_push(types@, ty, other);
            }
            assert(repeat_counts(types@.push(ty)) =~= counts@.insert(ty, counts@[ty] + 1));
        }
        used = used + 2 * difficulty_weight(ty);
        counts.record(ty);
        types.push(ty);
    }
    types
}

/// Lays enemy types out on the spawn grid in order.
pub fn lay_out(types: &Vec<EnemyType>) -> (roster: Vec<WaveRosterEntry>)
    requires
        TOP_MARGIN + ROW_SPACING * (types@.len() / 4) <= u64::MAX,
    ensures
        roster@ == laid_out(types@),
{
    let mut roster: Vec<WaveRosterEntry> = Vec::new();
    let count = types.len();
    let mut i: usize = 0;
    while i < count
        invariant
            i <= count,
            count == types@.len(),
            TOP_MARGIN + ROW_SPACING * (count / 4) <= u64::MAX,
            roster@ == laid_out(types@.take(i as int)),
        decreases count - i,
    {
        let entry = WaveRosterEntry { position: grid_position(i), enemy: types[i] };
        assert(laid_out(types@.take(i as int)).push(entry) =~= laid_out(types@.take(i + 1)));
        roster.push(entry);
        i = i + 1;
    }
    assert(types@.take(count as int) == types@);
    roster
}

/// Builds the roster of a wave: the enemies in spawn order, each with its
/// point of the spawn grid. The roster depends on the wave index alone.
pub fn allocate(wave_index: u32) -> (roster: Vec<WaveRosterEntry>)
    ensures
        roster@ == roster_of(wave_index),
{
    let target = target_for_wave(wave_index);
    let types = pick_types(target);
    proof {
        lemma_completed_reaches_target(target as nat, Seq::empty());
        lemma_roster_bounds(types@, EnemyType::BasicEnemy);
    }
    lay_out(&types)
}

/// A completed roster continues the roster it was completed from, has reached
/// the target, and would not have reached it without its last enemy unless the
/// roster it started from had already done so.
pub proof fn lemma_completed_reaches_target(target: nat, roster: Seq<EnemyType>)
    ensures
        roster.is_prefix_of(completed(target, roster)),
        spent(completed(target, roster)) >= target,
        spent(roster) < target ==> spent(completed(target, roster).drop_last()) < target,
    decreases target + 10 - spent(roster),
{
    if spent(roster) < target {
        let next = roster.push(successor(target, roster));
        lemma_spent_push(roster, successor(target, roster));
        lemma_weight_bounds(successor(target, roster));
        lemma_completed_reaches_target(target, next);
        assert(roster.is_prefix_of(next));
        if spent(next) >= target {
            assert(completed(target, next) == next);
            assert(next.drop_last() == roster);
        }
    }
}

} // verus!
