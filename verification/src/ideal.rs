//! The ideal distribution of players over jobs, and how far the real counters
//! are from it: the basis of the incentive fees.

use vstd::prelude::*;

use crate::counts::{seq2, seq3, sum3, saturating_diff, GameCounts, Real, Theorical};
use crate::enums::{job_at, Job, WaitingPlace};

verus! {

/// How many more players each job can take (by job index).
#[derive(Debug, Clone, Copy)]
pub struct JobConstraints {
    pub spots: [usize; 3],
}

/// Number of jobs with free spots.
pub open spec fn free_count(c: Seq<int>) -> int {
    (if c[0] > 0 { 1int } else { 0int }) + (if c[1] > 0 { 1int } else { 0int }) + (if c[2] > 0 {
        1int
    } else {
        0int
    })
}

/// Number of jobs with free spots before job `j` in pipeline order.
pub open spec fn free_rank(c: Seq<int>, j: int) -> int {
    (if 0 < j && c[0] > 0 { 1int } else { 0int }) + (if 1 < j && c[1] > 0 { 1int } else { 0int })
}

/// The jobs with free spots, in pipeline order.
pub open spec fn free_jobs(c: Seq<int>) -> Seq<Job> {
    (if c[0] > 0 { seq![Job::Breeder] } else { Seq::empty() }) + (if c[1] > 0 {
        seq![Job::Driver]
    } else {
        Seq::empty()
    }) + (if c[2] > 0 { seq![Job::Shearer] } else { Seq::empty() })
}

/// The share of `p` players offered to job `j`: an equal part, plus one of the
/// remainder for the first jobs with free spots.
pub open spec fn share(c: Seq<int>, p: int, j: int) -> int {
    p / free_count(c) + if free_rank(c, j) < p % free_count(c) { 1int } else { 0int }
}

/// The players job `j` takes of its share: no more than its free spots.
pub open spec fn assigned(c: Seq<int>, p: int, j: int) -> int {
    if share(c, p, j) <= c[j] {
        share(c, p, j)
    } else {
        c[j]
    }
}

/// One round of distribution of `p` players: each job with free spots gets
/// what it takes of its share, added to the players it already has.
pub open spec fn step_counts(s: Seq<int>, p: int, c: Seq<int>) -> Seq<int> {
    Seq::new(3, |j: int| if c[j] > 0 { s[j] + assigned(c, p, j) } else { s[j] })
}

/// The free spots left after one round of distribution.
pub open spec fn step_spots(p: int, c: Seq<int>) -> Seq<int> {
    Seq::new(3, |j: int| if c[j] > 0 { c[j] - assigned(c, p, j) } else { c[j] })
}

pub open spec fn nonneg3(c: Seq<int>) -> bool {
    c.len() == 3 && c[0] >= 0 && c[1] >= 0 && c[2] >= 0
}

/// Rounds of distribution, each handing out the players not yet counted in
/// `s`, until all `players` are counted or no job has free spots.
pub open spec fn fill_players(s: Seq<int>, players: int, c: Seq<int>) -> (Seq<int>, Seq<int>)
    decreases sum3(c),
    when nonneg3(c)
    via fill_players_decreases
{
    let p = players - sum3(s);
    if p > 0 && free_count(c) > 0 {
        fill_players(step_counts(s, p, c), players, step_spots(p, c))
    } else {
        (s, c)
    }
}

#[via_fn]
proof fn fill_players_decreases(s: Seq<int>, players: int, c: Seq<int>) {
    let p = players - sum3(s);
    if p > 0 && free_count(c) > 0 {
        lemma_step(s, p, c);
    }
}

/// One round hands out at most `p` players, keeps the spots non-negative and
/// uses at least one of them.
pub proof fn lemma_step(s: Seq<int>, p: int, c: Seq<int>)
    requires
        nonneg3(c),
        p > 0,
        free_count(c) > 0,
    ensures
        nonneg3(step_spots(p, c)),
        sum3(step_spots(p, c)) < sum3(c),
        step_counts(s, p, c).len() == 3,
        forall|j: int| 0 <= j < 3 && c[j] > 0 ==> 0 <= #[trigger] assigned(c, p, j) <= c[j],
        (if c[0] > 0 { assigned(c, p, 0) } else { 0int }) + (if c[1] > 0 {
            assigned(c, p, 1)
        } else {
            0int
        }) + (if c[2] > 0 { assigned(c, p, 2) } else { 0int }) <= p,
{
    let k = free_count(c);
    let q = p / k;
    let r = p % k;
    assert(q >= 0 && 0 <= r < k && q * k + r == p) by (nonlinear_arith)
        requires
            p > 0,
            k > 0,
            q == p / k,
            r == p % k,
    ;
    assert(q >= 1 || r >= 1) by (nonlinear_arith)
        requires
            q * k + r == p,
            p > 0,
            q >= 0,
            r >= 0,
    ;
    let ss = step_spots(p, c);
    assert forall|j: int| 0 <= j < 3 && c[j] > 0 implies 0 <= #[trigger] assigned(c, p, j) <= c[j] by {
    }
    assert(nonneg3(ss));
    // the first job with free spots takes at least one player
    if c[0] > 0 {
        assert(assigned(c, p, 0) >= 1);
    } else if c[1] > 0 {
        assert(assigned(c, p, 1) >= 1);
    } else {
        assert(assigned(c, p, 2) >= 1);
    }
    // the shares of the jobs with free spots sum to p
    let b0: int = if c[0] > 0 { share(c, p, 0) } else { 0 };
    let b1: int = if c[1] > 0 { share(c, p, 1) } else { 0 };
    let b2: int = if c[2] > 0 { share(c, p, 2) } else { 0 };
    assert(b0 + b1 + b2 == p) by {
        if k == 1 {
            assert(q * k == q) by (nonlinear_arith)
                requires
                    k == 1,
            ;
        } else if k == 2 {
            assert(q * k == q + q) by (nonlinear_arith)
                requires
                    k == 2,
            ;
        } else {
            assert(q * k == q + q + q) by (nonlinear_arith)
                requires
                    k == 3,
            ;
        }
        if c[0] > 0 {
            assert(free_rank(c, 0) == 0);
        }
        if c[1] > 0 {
            assert(free_rank(c, 1) == (if c[0] > 0 { 1int } else { 0int }));
        }
        if c[2] > 0 {
            assert(free_rank(c, 2) == (if c[0] > 0 { 1int } else { 0int }) + (if c[1] > 0 {
                1int
            } else {
                0int
            }));
        }
    }
}

/// A round of distribution counts no more than the players already counted
/// and those handed out.
proof fn lemma_step_sum(s: Seq<int>, p: int, c: Seq<int>)
    requires
        nonneg3(c),
        nonneg3(s),
        p > 0,
        free_count(c) > 0,
    ensures
        nonneg3(step_counts(s, p, c)),
        sum3(step_counts(s, p, c)) <= sum3(s) + p,
        forall|j: int| 0 <= j < 3 ==> #[trigger] step_counts(s, p, c)[j] + step_spots(p, c)[j] == s[j] + c[j],
{
    lemma_step(s, p, c);
}

/// The distribution rounds keep, for each job, the players counted plus the
/// spots left equal to the spots `c0` it started with, and never count more
/// than `players`; they end with all players counted or no spot left.
pub proof fn lemma_fill_players(s: Seq<int>, players: int, c: Seq<int>, c0: Seq<int>)
    requires
        nonneg3(c),
        nonneg3(s),
        nonneg3(c0),
        sum3(s) <= players,
        forall|j: int| 0 <= j < 3 ==> s[j] + c[j] == c0[j],
    ensures
        ({
            let (s2, c2) = fill_players(s, players, c);
            &&& nonneg3(s2)
            &&& nonneg3(c2)
            &&& sum3(s2) <= players
            &&& forall|j: int| 0 <= j < 3 ==> s2[j] + c2[j] == c0[j]
            &&& forall|j: int| 0 <= j < 3 ==> s2[j] <= c0[j]
            &&& (sum3(s2) == players || free_count(c2) == 0)
            &&& sum3(s2) == if players <= sum3(c0) { players } else { sum3(c0) }
        }),
    decreases sum3(c),
{
    let p = players - sum3(s);
    if p > 0 && free_count(c) > 0 {
        lemma_step(s, p, c);
        lemma_step_sum(s, p, c);
        let s1 = step_counts(s, p, c);
        let c1 = step_spots(p, c);
        assert(nonneg3(s1));
        assert(sum3(s1) <= players);
        assert forall|j: int| 0 <= j < 3 implies s1[j] + c1[j] == c0[j] by {
            assert(s1[j] + c1[j] == s[j] + c[j]);
        }
        lemma_fill_players(s1, players, c1, c0);
    } else {
        if free_count(c) == 0 {
            assert(c[0] == 0 && c[1] == 0 && c[2] == 0);
        }
    }
}

/// The ideal distribution of `players` over jobs with free spots `c`: the
/// rounds of distribution, started from no assignment.
pub open spec fn ideal_players(players: int, c: Seq<int>) -> Seq<int> {
    fill_players(seq![0int, 0int, 0int], players, c).0
}

/// The ideal number of yaks waiting in each place: the yaks not held by
/// players, split evenly, the Warehouse taking the odd one.
pub open spec fn ideal_waiting(free_yaks: int) -> Seq<int> {
    seq![free_yaks / 2 + free_yaks % 2, free_yaks / 2]
}

proof fn lemma_free_jobs(c: Seq<int>)
    requires
        c.len() == 3,
    ensures
        free_jobs(c).len() == free_count(c),
        forall|t: int|
            0 <= t < free_jobs(c).len() ==> {
                let j = (#[trigger] free_jobs(c)[t]).spec_index();
                &&& c[j] > 0
                &&& free_rank(c, j) == t
            },
        forall|j: int|
            0 <= j < 3 && c[j] > 0 ==> free_rank(c, j) < free_count(c) && #[trigger] free_jobs(
                c,
            )[free_rank(c, j)] == job_at(j),
{
}

impl JobConstraints {
    pub open spec fn view3(self) -> Seq<int> {
        seq3(self.spots)
    }

    /// Whether some job has free spots.
    pub fn free_spots_left(&self) -> (r: bool)
        ensures
            r == (free_count(self.view3()) > 0),
    {
        let mut i: usize = 0;
        while i < 3
            invariant
                i <= 3,
                forall|j: int| 0 <= j < i ==> self.spots@[j] == 0,
            decreases 3 - i,
        {
            if self.spots[i] > 0 {
                return true;
            }
            i += 1;
        }
        false
    }

    /// The jobs with free spots, in pipeline order.
    pub fn free_spots_jobs(self) -> (r: Vec<Job>)
        ensures
            r@ == free_jobs(self.view3()),
    {
        let mut r: Vec<Job> = Vec::new();
        if self.spots[0] > 0 {
            r.push(Job::Breeder);
        }
        if self.spots[1] > 0 {
            r.push(Job::Driver);
        }
        if self.spots[2] > 0 {
            r.push(Job::Shearer);
        }
        assert(r@ =~= free_jobs(self.view3()));
        r
    }
}


impl GameCounts<Theorical> {
    /// One round of distribution of `player_count` players over the jobs with
    /// free spots: each such job is given its share (an equal part, the
    /// remainder going one by one to the first of them), no more than its
    /// free spots, added to its players; the players given use up spots.
    fn affect_players(&mut self, player_count: usize, constraints: &mut JobConstraints)
        requires
            player_count > 0,
            free_count(old(constraints).view3()) > 0,
            forall|j: int|
                0 <= j < 3 ==> old(self).yaks_with_player@[j] + old(constraints).spots@[j]
                    <= usize::MAX,
        ensures
            seq3(final(self).yaks_with_player) == step_counts(
                seq3(old(self).yaks_with_player),
                player_count as int,
                old(constraints).view3(),
            ),
            final(constraints).view3() == step_spots(player_count as int, old(constraints).view3()),
            final(self).yaks_waiting == old(self).yaks_waiting,
    {
        let ghost c0 = constraints.view3();
        let ghost s0 = seq3(self.yaks_with_player);
        let ghost p = player_count as int;
        proof {
            lemma_free_jobs(c0);
            lemma_step(s0, p, c0);
        }
        let jobs = constraints.free_spots_jobs();
        let job_count = jobs.len();
        let players_per_job = player_count / job_count;
        let mut bonus_players = player_count % job_count;
        let mut i: usize = 0;
        while i < job_count
            invariant
                c0 == old(constraints).view3(),
                s0 == seq3(old(self).yaks_with_player),
                p == player_count,
                p > 0,
                forall|j: int| 0 <= j < 3 ==> s0[j] + c0[j] <= usize::MAX,
                jobs@ == free_jobs(c0),
                job_count == jobs.len() == free_count(c0),
                players_per_job == p / free_count(c0),
                0 <= i <= job_count,
                bonus_players == (if i < p % free_count(c0) { p % free_count(c0) - i } else { 0 }),
                self.yaks_waiting == old(self).yaks_waiting,
                forall|j: int|
                    0 <= j < 3 ==> {
                        if c0[j] > 0 && free_rank(c0, j) < i {
                            &&& seq3(self.yaks_with_player)[j] == s0[j] + assigned(c0, p, j)
                            &&& constraints.view3()[j] == c0[j] - assigned(c0, p, j)
                        } else {
                            &&& seq3(self.yaks_with_player)[j] == s0[j]
                            &&& constraints.view3()[j] == c0[j]
                        }
                    },
                forall|t: int|
                    0 <= t < free_jobs(c0).len() ==> {
                        let j = (#[trigger] free_jobs(c0)[t]).spec_index();
                        &&& c0[j] > 0
                        &&& free_rank(c0, j) == t
                    },
                forall|j: int| 0 <= j < 3 && c0[j] > 0 ==> 0 <= #[trigger] assigned(c0, p, j) <= c0[j],
            decreases job_count - i,
        {
            let job = jobs[i];
            let ji = job.index();
            proof {
                assert(free_jobs(c0)[i as int] == job);
            }
            let players_to_affect = if bonus_players > 0 {
                bonus_players -= 1;
                proof {
                    assert(free_count(c0) >= 2) by {
                        assert(p % free_count(c0) > 0);
                        if free_count(c0) == 1 {
                            assert(p % 1 == 0);
                        }
                    }
                    assert(p / free_count(c0) < p) by (nonlinear_arith)
                        requires
                            free_count(c0) >= 2,
                            p > 0,
                    ;
                }
                players_per_job + 1
            } else {
                players_per_job
            };
            assert(players_to_affect == share(c0, p, ji as int));
            if constraints.spots[ji] >= players_to_affect {
                constraints.spots[ji] = constraints.spots[ji] - players_to_affect;
                self.yaks_with_player[ji] = self.yaks_with_player[ji] + players_to_affect;
            } else {
                self.yaks_with_player[ji] = self.yaks_with_player[ji] + constraints.spots[ji];
                constraints.spots[ji] = 0;
            }
            i += 1;
        }
        proof {
            assert(seq3(self.yaks_with_player) =~= step_counts(s0, p, c0));
            assert(constraints.view3() =~= step_spots(p, c0));
        }
    }

    /// Splits `yak_count` yaks evenly over the waiting places, the first
    /// places taking one of the remainder each.
    fn affect_yaks(&mut self, yak_count: usize)
        ensures
            seq2(final(self).yaks_waiting) == ideal_waiting(yak_count as int),
            final(self).yaks_with_player == old(self).yaks_with_player,
    {
        let yaks_per_place = yak_count / WaitingPlace::COUNT;
        let mut bonus_yaks = yak_count % WaitingPlace::COUNT;
        let places = WaitingPlace::all();
        let mut i: usize = 0;
        while i < WaitingPlace::COUNT
            invariant
                0 <= i <= 2,
                yaks_per_place == yak_count / 2,
                bonus_yaks == (if i < yak_count % 2 { yak_count % 2 - i } else { 0 }),
                forall|t: int| 0 <= t < 2 ==> #[trigger] places@[t] == crate::enums::place_at(t),
                forall|t: int|
                    0 <= t < i ==> #[trigger] self.yaks_waiting@[t] == yak_count / 2 + (if t
                        < yak_count % 2 {
                        1int
                    } else {
                        0int
                    }),
                self.yaks_with_player == old(self).yaks_with_player,
            decreases 2 - i,
        {
            let place = places[i];
            let yaks_to_affect = if bonus_yaks > 0 {
                bonus_yaks -= 1;
                yaks_per_place + 1
            } else {
                yaks_per_place
            };
            let pi = place.index();
            self.yaks_waiting[pi] = yaks_to_affect;
            i += 1;
        }
        assert(seq2(self.yaks_waiting) =~= ideal_waiting(yak_count as int));
    }

    /// The ideal distribution for `player_count` players and
    /// `desired_yak_count` yaks, where each job can take no more than the
    /// players `constraints` allow: rounds of distribution of the players not
    /// yet assigned while some job has free spots, then the yaks not held by
    /// the assigned players split over the waiting places.
    fn new_ideal(player_count: usize, desired_yak_count: usize, constraints: JobConstraints) -> (r:
        Self)
        ensures
            seq3(r.yaks_with_player) == ideal_players(player_count as int, constraints.view3()),
            seq2(r.yaks_waiting) == ideal_waiting(
                saturating_diff(
                    desired_yak_count as int,
                    sum3(ideal_players(player_count as int, constraints.view3())),
                ),
            ),
    {
        let mut game_counts = GameCounts {
            yaks_with_player: [0, 0, 0],
            yaks_waiting: [0, 0],
            game_count_type: Theorical,
        };
        let mut constraints = constraints;
        let ghost c0 = constraints.view3();
        let ghost zero = seq![0int, 0int, 0int];
        let ghost players = player_count as int;
        proof {
            assert(seq3(game_counts.yaks_with_player) =~= zero);
            lemma_fill_players(zero, players, c0, c0);
        }
        loop
            invariant
                fill_players(seq3(game_counts.yaks_with_player), players, constraints.view3())
                    == fill_players(zero, players, c0),
                sum3(seq3(game_counts.yaks_with_player)) <= players,
                players == player_count,
                nonneg3(c0),
                forall|j: int| 0 <= j < 3 ==> #[trigger] c0[j] <= usize::MAX,
                forall|j: int|
                    0 <= j < 3 ==> #[trigger] seq3(game_counts.yaks_with_player)[j]
                        + constraints.view3()[j] == c0[j],
            ensures
                fill_players(seq3(game_counts.yaks_with_player), players, constraints.view3())
                    == fill_players(zero, players, c0),
                !(sum3(seq3(game_counts.yaks_with_player)) < players && free_count(
                    constraints.view3(),
                ) > 0),
            decreases sum3(constraints.view3()),
        {
            let affected_players = game_counts.yaks_with_player();
            if !(affected_players < player_count && constraints.free_spots_left()) {
                break ;
            }
            let ghost s = seq3(game_counts.yaks_with_player);
            let ghost c = constraints.view3();
            proof {
                lemma_step(s, players - sum3(s), c);
                lemma_step_sum(s, players - sum3(s), c);
                assert forall|j: int| 0 <= j < 3 implies game_counts.yaks_with_player@[j]
                    + constraints.spots@[j] <= usize::MAX by {
                    assert(s[j] + c[j] == c0[j]);
                }
            }
            game_counts.affect_players(player_count - affected_players, &mut constraints);
        }
        let affected_players = game_counts.yaks_with_player();
        let free_yaks = if desired_yak_count > affected_players {
            desired_yak_count - affected_players
        } else {
            0
        };
        game_counts.affect_yaks(free_yaks);
        game_counts
    }
}


/// How many more (positive) or fewer (negative) players each job has in the
/// ideal distribution than in the real counters, by job index.
#[derive(Debug, Clone, Copy)]
pub struct JobDiffs {
    pub diffs: [i64; 3],
}

/// Job differences, with the number of players that bounds them.
#[derive(Debug, Clone, Copy)]
pub struct RangedJobDiffs {
    pub diffs: JobDiffs,
    pub player_count: usize,
}

impl GameCounts<Theorical> {
    /// How many more players each job has here than in `actual`, each count
    /// converted to `i64` by `as`.
    pub fn sub(self, actual: GameCounts<Real>) -> (r: JobDiffs)
        requires
            forall|j: int|
                #![trigger self.yaks_with_player@[j]]
                0 <= j < 3 ==> i64::MIN <= (self.yaks_with_player@[j] as i64) as int - (
                actual.yaks_with_player@[j] as i64) as int <= i64::MAX,
        ensures
            forall|j: int|
                0 <= j < 3 ==> #[trigger] r.diffs@[j] == (self.yaks_with_player@[j] as i64) as int
                    - (actual.yaks_with_player@[j] as i64) as int,
    {
        let mut diffs = JobDiffs { diffs: [0, 0, 0] };
        let jobs = Job::all();
        let mut i: usize = 0;
        while i < Job::COUNT
            invariant
                0 <= i <= 3,
                forall|t: int| 0 <= t < 3 ==> #[trigger] jobs@[t] == job_at(t),
                forall|j: int|
                    #![trigger self.yaks_with_player@[j]]
                    0 <= j < 3 ==> i64::MIN <= (self.yaks_with_player@[j] as i64) as int - (
                    actual.yaks_with_player@[j] as i64) as int <= i64::MAX,
                forall|j: int|
                    0 <= j < i ==> #[trigger] diffs.diffs@[j] == (self.yaks_with_player@[j] as i64)
                        as int - (actual.yaks_with_player@[j] as i64) as int,
            decreases 3 - i,
        {
            let job = jobs[i];
            let ji = job.index();
            diffs.diffs[ji] = self.yaks_with(job) as i64 - actual.yaks_with(job) as i64;
            i += 1;
        }
        diffs
    }
}

impl GameCounts<Real> {
    pub const TYPE: &'static str = "GAME_COUNTS";

    /// How many more players each job could take: the players it has, plus
    /// the yaks waiting for it; for the Breeder, the yaks still to breed to
    /// reach the desired yak count.
    pub open spec fn spec_constraints(self) -> Seq<int> {
        seq![
            self.yaks_with_player@[0] + saturating_diff(
                self.game_count_type.desired_yak_count as int,
                self.spec_total_yaks(),
            ),
            self.yaks_with_player@[1] + self.yaks_waiting@[0],
            self.yaks_with_player@[2] + self.yaks_waiting@[1],
        ]
    }

    /// The ideal number of players per job for these counters.
    pub open spec fn spec_ideal_players(self) -> Seq<int> {
        ideal_players(self.game_count_type.player_count as int, self.spec_constraints())
    }

    /// The job differences of `job_diffs`, each count converted to `i64`.
    pub open spec fn spec_job_diff(self, j: int) -> int {
        (self.spec_ideal_players()[j] as i64) as int - (self.yaks_with_player@[j] as i64) as int
    }

    /// The job differences fit in `i64`.
    pub open spec fn job_diffs_fit(self) -> bool {
        forall|j: int| 0 <= j < 3 ==> i64::MIN <= #[trigger] self.spec_job_diff(j) <= i64::MAX
    }

    /// Counters of a game with `player_count` players and no yak: it aims at
    /// one and a half yak per player.
    pub open spec fn spec_with_player_count(player_count: usize) -> Self {
        GameCounts {
            yaks_with_player: [0, 0, 0],
            yaks_waiting: [0, 0],
            game_count_type: Real {
                player_count,
                desired_yak_count: (player_count + player_count / 2) as usize,
                sheared_yak_count: 0,
                sampler: None,
            },
        }
    }

    /// Counters of a game with `player_count` players and no yak, aiming at
    /// `player_count + player_count / 2` yaks.
    pub fn with_player_count(player_count: usize) -> (r: Self)
        requires
            player_count + player_count / 2 <= usize::MAX,
        ensures
            r == Self::spec_with_player_count(player_count),
            r.game_count_type.desired_yak_count == player_count + player_count / 2,
    {
        GameCounts {
            yaks_with_player: [0, 0, 0],
            yaks_waiting: [0, 0],
            game_count_type: Real {
                player_count,
                desired_yak_count: player_count + player_count / 2,
                sheared_yak_count: 0,
                sampler: None,
            },
        }
    }

    /// The counters of a new game with the same players.
    pub fn reset(self) -> (r: Self)
        requires
            self.game_count_type.player_count + self.game_count_type.player_count / 2
                <= usize::MAX,
        ensures
            r == Self::spec_with_player_count(self.game_count_type.player_count),
    {
        let player_count = self.game_count_type.player_count;
        GameCounts {
            yaks_with_player: [0, 0, 0],
            yaks_waiting: [0, 0],
            game_count_type: Real {
                player_count,
                desired_yak_count: player_count + player_count / 2,
                sheared_yak_count: 0,
                sampler: None,
            },
        }
    }

    /// The number of yaks the game aims at.
    pub fn desired_yak_count(&self) -> (r: usize)
        ensures
            r == self.game_count_type.desired_yak_count,
    {
        self.game_count_type.desired_yak_count
    }

    /// The number of yaks sheared so far.
    pub fn sheared_yak_count(&self) -> (r: usize)
        ensures
            r == self.game_count_type.sheared_yak_count,
    {
        self.game_count_type.sheared_yak_count
    }

    /// Whether the latest change opened a new sampling slot.
    pub open spec fn spec_sampled(self) -> bool {
        match self.game_count_type.sampler {
            Some(sampler) => sampler.spec_sampled(),
            None => false,
        }
    }

    /// Whether the latest change opened a new sampling slot (never, before
    /// any change was timed).
    pub fn sampled(&self) -> (r: bool)
        ensures
            r == self.spec_sampled(),
    {
        match self.game_count_type.sampler {
            Some(sampler) => sampler.sampled(),
            None => false,
        }
    }

    /// How many more players each job could take.
    fn get_constraints(&self) -> (r: JobConstraints)
        requires
            self.total_fits(),
        ensures
            r.view3() == self.spec_constraints(),
    {
        let mut constraints = JobConstraints { spots: [0, 0, 0] };
        let jobs = Job::all();
        let mut i: usize = 0;
        while i < Job::COUNT
            invariant
                0 <= i <= 3,
                self.total_fits(),
                forall|t: int| 0 <= t < 3 ==> #[trigger] jobs@[t] == job_at(t),
                forall|j: int| 0 <= j < i ==> #[trigger] constraints.spots@[j] as int == self.spec_constraints()[j],
            decreases 3 - i,
        {
            let job = jobs[i];
            let current_performers = self.yaks_with(job);
            let available_yaks = match job.depends_on() {
                Some(place) => self.yaks_in(place),
                None => {
                    let current_yak_count = self.total_yaks();
                    if self.game_count_type.desired_yak_count > current_yak_count {
                        self.game_count_type.desired_yak_count - current_yak_count
                    } else {
                        0
                    }
                },
            };
            let ji = job.index();
            constraints.spots[ji] = current_performers + available_yaks;
            i += 1;
        }
        assert(constraints.view3() =~= self.spec_constraints());
        constraints
    }

    /// How far the real counters are from the ideal distribution of the
    /// players over the jobs, with the player count.
    pub fn job_diffs(self) -> (r: RangedJobDiffs)
        requires
            self.total_fits(),
            self.job_diffs_fit(),
        ensures
            r.player_count == self.game_count_type.player_count,
            forall|j: int| 0 <= j < 3 ==> #[trigger] r.diffs.diffs@[j] == self.spec_job_diff(j),
    {
        let player_count = self.game_count_type.player_count;
        let desired_yak_count = self.game_count_type.desired_yak_count;
        let constraints = self.get_constraints();
        let ideal_counts = GameCounts::new_ideal(player_count, desired_yak_count, constraints);
        assert forall|j: int|
            #![trigger ideal_counts.yaks_with_player@[j]]
            0 <= j < 3 implies i64::MIN <= (ideal_counts.yaks_with_player@[j] as i64) as int - (
            self.yaks_with_player@[j] as i64) as int <= i64::MAX by {
            assert(self.spec_job_diff(j) == (ideal_counts.yaks_with_player@[j] as i64) as int - (
            self.yaks_with_player@[j] as i64) as int);
        }
        let diffs = ideal_counts.sub(self);
        RangedJobDiffs { diffs, player_count }
    }
}

} // verus!



