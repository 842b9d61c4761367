//! Wave generation: a difficulty budget per wave, filled greedily with enemy
//! types laid out on a grid.
use vstd::prelude::*;
use crate::geom::{Point, SUBPIXELS, point_ok};
use crate::components::EnemyType;
use crate::resources::QueuedEnemies;
use crate::world::{World, roster_wf};

verus! {

/// How much one enemy of a type adds to a wave's difficulty.
pub open spec fn difficulty_cost(ty: EnemyType) -> int {
    match ty {
        EnemyType::BasicEnemy => 1,
        EnemyType::BasicEnemy2 => 2,
        EnemyType::AimEnemy => 2,
        EnemyType::AimEnemy2 => 4,
        EnemyType::PredictEnemy => 5,
        EnemyType::TrackingEnemy => 5,
        EnemyType::BounceEnemy => 4,
    }
}

pub fn calc_diff(ty: EnemyType) -> (r: u16)
    ensures
        r == difficulty_cost(ty),
        1 <= r <= 5,
{
    match ty {
        EnemyType::BasicEnemy => 1,
        EnemyType::BasicEnemy2 => 2,
        EnemyType::AimEnemy => 2,
        EnemyType::AimEnemy2 => 4,
        EnemyType::PredictEnemy => 5,
        EnemyType::TrackingEnemy => 5,
        EnemyType::BounceEnemy => 4,
    }
}

/// The enemy types a wave is built from, in the order they are considered.
pub open spec fn candidate(i: int) -> EnemyType {
    if i == 0 {
        EnemyType::BasicEnemy
    } else if i == 1 {
        EnemyType::BasicEnemy2
    } else if i == 2 {
        EnemyType::AimEnemy
    } else if i == 3 {
        EnemyType::AimEnemy2
    } else if i == 4 {
        EnemyType::PredictEnemy
    } else {
        EnemyType::TrackingEnemy
    }
}

pub const NUM_CANDIDATES: usize = 6;

/// The cost of each candidate, in the order of `candidate`.
pub open spec fn candidate_cost(i: int) -> int {
    if i == 0 {
        1
    } else if i == 1 || i == 2 {
        2
    } else if i == 3 {
        4
    } else {
        5
    }
}

proof fn lemma_candidate_cost(i: int)
    ensures
        difficulty_cost(candidate(i)) == candidate_cost(i),
{
}

fn candidate_exec(i: usize) -> (r: EnemyType)
    ensures
        r == candidate(i as int),
{
    if i == 0 {
        EnemyType::BasicEnemy
    } else if i == 1 {
        EnemyType::BasicEnemy2
    } else if i == 2 {
        EnemyType::AimEnemy
    } else if i == 3 {
        EnemyType::AimEnemy2
    } else if i == 4 {
        EnemyType::PredictEnemy
    } else {
        EnemyType::TrackingEnemy
    }
}

/// The difficulty budget of a wave.
pub open spec fn target_difficulty(wave: u8) -> int {
    if wave == 1 {
        12
    } else if wave == 2 {
        14
    } else if wave == 3 {
        20
    } else if wave == 4 {
        24
    } else {
        wave * 5 + 5
    }
}

pub fn target_difficulty_exec(wave: u8) -> (r: u16)
    ensures
        r == target_difficulty(wave),
{
    match wave {
        1 => 12,
        2 => 14,
        3 => 20,
        4 => 24,
        _ => wave as u16 * 5 + 5,
    }
}

/// A type may be added while its cost is below both what is left of the budget
/// and a quarter of the whole budget.
pub open spec fn eligible(i: int, target: int, difficulty: int) -> bool {
    let c = candidate_cost(i);
    c < target - difficulty && 4 * c < target
}

/// Preference for a type: its cost, less three times the square of how often it
/// was already chosen, but not below zero.
pub open spec fn preference(i: int, counts: Seq<int>) -> int {
    let c = candidate_cost(i);
    let penalty = 3 * counts[i] * counts[i];
    c - if penalty < c { penalty } else { c }
}

/// The most preferred eligible type among the first `k`; on a tie the later one.
pub open spec fn best_upto(target: int, difficulty: int, counts: Seq<int>, k: int) -> Option<int>
    decreases k,
{
    if k <= 0 {
        None
    } else {
        let prev = best_upto(target, difficulty, counts, k - 1);
        if eligible(k - 1, target, difficulty) {
            match prev {
                None => Some(k - 1),
                Some(j) => if preference(k - 1, counts) >= preference(j, counts) {
                    Some(k - 1)
                } else {
                    Some(j)
                },
            }
        } else {
            prev
        }
    }
}

/// The next type chosen; the cheapest when none is eligible.
pub open spec fn next_pick(target: int, difficulty: int, counts: Seq<int>) -> int {
    match best_upto(target, difficulty, counts, NUM_CANDIDATES as int) {
        Some(j) => j,
        None => 0,
    }
}

/// The types chosen until the budget is met, each adding twice its cost, as
/// every chosen enemy is later spawned as a mirrored pair.
pub open spec fn picks_from(target: int, difficulty: int, counts: Seq<int>) -> Seq<int>
    decreases if difficulty < target { target - difficulty } else { 0 },
{
    if difficulty >= target {
        seq![]
    } else {
        let j = next_pick(target, difficulty, counts);
        seq![j] + picks_from(
            target,
            difficulty + 2 * candidate_cost(j),
            counts.update(j, counts[j] + 1),
        )
    }
}

/// Where the `i`-th enemy of a wave is placed: four to a row, 90 pixels apart,
/// rows 100 pixels apart starting 20 pixels down.
pub open spec fn grid_slot(i: int) -> Point {
    Point { x: ((i % 4) * 90 * SUBPIXELS) as i64, y: ((20 + 100 * (i / 4)) * SUBPIXELS) as i64 }
}

pub open spec fn zero_counts() -> Seq<int> {
    Seq::new(NUM_CANDIDATES as nat, |i: int| 0)
}

/// The roster of a wave: each chosen type at its grid slot, in order.
pub open spec fn wave_roster(wave: u8) -> Seq<(Point, EnemyType)> {
    let picks = picks_from(target_difficulty(wave), 0, zero_counts());
    Seq::new(picks.len(), |i: int| (grid_slot(i), candidate(picks[i])))
}

/// Twice the summed cost of a roster.
pub open spec fn roster_difficulty(r: Seq<(Point, EnemyType)>) -> int
    decreases r.len(),
{
    if r.len() == 0 {
        0
    } else {
        roster_difficulty(r.drop_last()) + 2 * difficulty_cost(r.last().1)
    }
}

proof fn lemma_pick_in_range(target: int, difficulty: int, counts: Seq<int>, k: int)
    requires
        0 <= k <= NUM_CANDIDATES,
    ensures
        best_upto(target, difficulty, counts, k) matches Some(j) ==> 0 <= j < k,
    decreases k,
{
    if k > 0 {
        lemma_pick_in_range(target, difficulty, counts, k - 1);
    }
}

/// Roster of wave `wave`. Terminates, and meets the budget: the result is never
/// empty and its difficulty, counting each enemy twice, reaches the target.
pub fn wave_enemies(wave: u8) -> (r: Vec<(Point, EnemyType)>)
    ensures
        r@ == wave_roster(wave),
        r@.len() > 0,
        roster_difficulty(r@) >= target_difficulty(wave),
        roster_wf(r@),
{
    let target = target_difficulty_exec(wave);
    let mut counts: Vec<u64> = vec![0, 0, 0, 0, 0, 0];
    let ghost cs: Seq<int> = zero_counts();
    let ghost picks: Seq<int> = seq![];
    let mut difficulty: u16 = 0;
    let mut out: Vec<(Point, EnemyType)> = Vec::new();
    assert(counts@.len() == 6);
    while difficulty < target
        invariant
            target == target_difficulty(wave),
            5 <= target <= 1280,
            counts@.len() == NUM_CANDIDATES,
            cs.len() == NUM_CANDIDATES,
            forall|i: int| 0 <= i < NUM_CANDIDATES ==> #[trigger] counts@[i] as int == cs[i],
            forall|i: int| 0 <= i < NUM_CANDIDATES ==> #[trigger] counts@[i] <= out@.len(),
            out@.len() * 2 <= difficulty,
            difficulty <= target + 10,
            picks.len() == out@.len(),
            picks + picks_from(target as int, difficulty as int, cs) == picks_from(
                target as int,
                0,
                zero_counts(),
            ),
            forall|i: int|
                0 <= i < out@.len() ==> #[trigger] out@[i] == (grid_slot(i), candidate(picks[i])),
            roster_difficulty(out@) == difficulty,
            forall|k: int| 0 <= k < out@.len() ==> point_ok(#[trigger] out@[k].0),
            out@.len() > 0 || difficulty == 0,
        decreases if difficulty < target { target - difficulty } else { 0 },
    {
        let mut best: usize = 0;
        let mut best_key: u64 = 0;
        let mut found = false;
        let mut c: usize = 0;
        while c < NUM_CANDIDATES
            invariant
                c <= NUM_CANDIDATES,
                counts@.len() == NUM_CANDIDATES,
                cs.len() == NUM_CANDIDATES,
                forall|i: int| 0 <= i < NUM_CANDIDATES ==> #[trigger] counts@[i] as int == cs[i],
                forall|i: int| 0 <= i < NUM_CANDIDATES ==> #[trigger] counts@[i] <= 640,
                difficulty < target,
                target <= 1280,
                found == (best_upto(target as int, difficulty as int, cs, c as int) is Some),
                found ==> best_upto(target as int, difficulty as int, cs, c as int) == Some(
                    best as int,
                ),
                found ==> best_key == preference(best as int, cs),
                found ==> best < c,
            decreases NUM_CANDIDATES - c,
        {
            let ty = candidate_exec(c);
            let cost = calc_diff(ty);
            proof {
                lemma_candidate_cost(c as int);
            }
            if cost < target - difficulty && 4 * cost < target {
                let n = counts[c];
                assert(3 * n * n <= 3 * 640 * 640) by (nonlinear_arith)
                    requires
                        n <= 640,
                ;
                let penalty = 3 * n * n;
                let key = cost as u64 - if penalty < cost as u64 {
                    penalty
                } else {
                    cost as u64
                };
                proof {
                    assert(cs[c as int] == n as int);
                }
                if !found || key >= best_key {
                    best = c;
                    best_key = key;
                }
                found = true;
            }
            c += 1;
        }
        proof {
            lemma_pick_in_range(target as int, difficulty as int, cs, NUM_CANDIDATES as int);
        }
        let j: usize = if found {
            best
        } else {
            0
        };
        let ty = candidate_exec(j);
        let cost = calc_diff(ty);
        proof {
            lemma_candidate_cost(j as int);
        }
        let ghost old_out = out@;
        let ghost old_cs = cs;
        proof {
            assert(j as int == next_pick(target as int, difficulty as int, cs));
            let rest = picks_from(
                target as int,
                difficulty + 2 * cost,
                cs.update(j as int, cs[j as int] + 1),
            );
            assert(picks_from(target as int, difficulty as int, cs) == seq![j as int] + rest);
            assert(picks + (seq![j as int] + rest) == picks.push(j as int) + rest);
            picks = picks.push(j as int);
            cs = cs.update(j as int, cs[j as int] + 1);
        }
        let i = out.len();
        assert(i <= 645);
        let slot = Point { x: (i % 4) as i64 * 90 * SUBPIXELS, y: (20 + 100 * (i / 4) as i64) * SUBPIXELS };
        assert(point_ok(slot));
        out.push((slot, ty));
        proof {
            assert(out@.drop_last() == old_out);
        }
        counts.set(j, counts[j] + 1);
        difficulty = difficulty + 2 * cost;
    }
    proof {
        assert(out@ == wave_roster(wave));
    }
    out
}

/// What one run of `WaveCalcSys` does.
pub open spec fn wave_calc_post(old: World, new: World) -> bool {
    &&& new.res.queued_enemies.0@ == wave_roster(old.res.current_wave.0)
    &&& new.res.current_wave == old.res.current_wave
    &&& new.res.player_entity == old.res.player_entity
    &&& new.res.dead == old.res.dead
    &&& new.res.frames_to_next_wave == old.res.frames_to_next_wave
    &&& new.res.queued_sounds == old.res.queued_sounds
    &&& new.res.hp_text == old.res.hp_text
    &&& new.res.last_update == old.res.last_update
    &&& new.res.star_info == old.res.star_info
    &&& new.slots == old.slots
    &&& new.spawn_queue == old.spawn_queue
    &&& new.config == old.config
    &&& new.wf()
}

#[derive(Default)]
pub struct WaveCalcSys;

impl WaveCalcSys {
    /// Replaces the queued roster with the roster of the current wave.
    pub fn run(&mut self, world: &mut World)
        requires
            old(world).wf(),
        ensures
            wave_calc_post(*old(world), *final(world)),
    {
        let roster = wave_enemies(world.res.current_wave.0);
        world.res.queued_enemies = QueuedEnemies(roster);
    }
}

} // verus!
