//! The yak counters of the game and the ideal distribution of players over
//! jobs that the incentive fees steer the players towards.

use vstd::prelude::*;
use vstd::string::StringExecFns;

use crate::enums::{Job, WaitingPlace};

verus! {

/// Timestamps (in milliseconds) of the two latest changes of the counters;
/// they rate-limit the updates pushed to subscribers to one per 250 ms slot.
#[derive(Debug, Clone, Copy)]
pub struct Sampler {
    pub update_ms: u64,
    pub old_update_ms: u64,
}

impl Sampler {
    pub const SAMPLE_FREQUENCY_MS: u64 = 250;

    /// The two timestamps fall in different 250 ms slots.
    pub open spec fn spec_sampled(self) -> bool {
        self.update_ms / 250 != self.old_update_ms / 250
    }

    /// Whether the latest change opened a new 250 ms slot.
    pub fn sampled(self) -> (r: bool)
        ensures
            r == self.spec_sampled(),
    {
        self.update_ms / Self::SAMPLE_FREQUENCY_MS != self.old_update_ms / Self::SAMPLE_FREQUENCY_MS
    }
}

/// Marks what a `GameCounts` describes: the counters as they are (`Real`) or
/// an ideal distribution computed from them (`Theorical`).
pub trait GameCountType {

}

/// An ideal distribution, computed from real counters.
#[derive(Debug, Clone, Copy, Default)]
pub struct Theorical;

impl GameCountType for Theorical {

}

/// What the stored counters hold beyond the yak counts.
#[derive(Debug, Clone, Copy)]
pub struct Real {
    pub player_count: usize,
    pub desired_yak_count: usize,
    pub sheared_yak_count: usize,
    pub sampler: Option<Sampler>,
}

impl GameCountType for Real {

}

/// Yak counters: how many yaks each job holds (`yaks_with_player`, by job
/// index) and how many wait in each place (`yaks_waiting`, by place index).
#[derive(Debug, Clone, Copy)]
pub struct GameCounts<Type: GameCountType = Real> {
    pub yaks_with_player: [usize; 3],
    pub yaks_waiting: [usize; 2],
    pub game_count_type: Type,
}

/// A counter of `GameCounts`: the yaks held by a job, or waiting in a place.
#[derive(Debug, Clone, Copy, PartialEq, Eq, Structural)]
pub enum GameCountIndex {
    Job(Job),
    WaitingPlace(WaitingPlace),
}

/// The three values of a job-indexed array, as integers.
pub open spec fn seq3(a: [usize; 3]) -> Seq<int> {
    seq![a@[0] as int, a@[1] as int, a@[2] as int]
}

/// The two values of a place-indexed array, as integers.
pub open spec fn seq2(a: [usize; 2]) -> Seq<int> {
    seq![a@[0] as int, a@[1] as int]
}

pub open spec fn sum3(s: Seq<int>) -> int {
    s[0] + s[1] + s[2]
}

/// `x - y`, or 0 where that is negative.
pub open spec fn saturating_diff(x: int, y: int) -> int {
    if x > y {
        x - y
    } else {
        0
    }
}

impl<Type: GameCountType> GameCounts<Type> {
    pub open spec fn spec_yaks_with_player(self) -> int {
        sum3(seq3(self.yaks_with_player))
    }

    pub open spec fn spec_yaks_waiting(self) -> int {
        self.yaks_waiting@[0] + self.yaks_waiting@[1]
    }

    pub open spec fn spec_total_yaks(self) -> int {
        self.spec_yaks_with_player() + self.spec_yaks_waiting()
    }

    /// The yak total fits in a `usize`, so summing the counters cannot overflow.
    pub open spec fn total_fits(self) -> bool {
        self.spec_total_yaks() <= usize::MAX
    }

    /// The value of one counter.
    pub open spec fn spec_count(self, index: GameCountIndex) -> int {
        match index {
            GameCountIndex::Job(job) => self.yaks_with_player@[job.spec_index()] as int,
            GameCountIndex::WaitingPlace(place) => self.yaks_waiting@[place.spec_index()] as int,
        }
    }

    /// Number of yaks held by players.
    pub fn yaks_with_player(&self) -> (r: usize)
        requires
            self.spec_yaks_with_player() <= usize::MAX,
        ensures
            r == self.spec_yaks_with_player(),
    {
        self.yaks_with_player[0] + self.yaks_with_player[1] + self.yaks_with_player[2]
    }

    /// Number of yaks waiting in a place.
    pub fn yaks_waiting(&self) -> (r: usize)
        requires
            self.spec_yaks_waiting() <= usize::MAX,
        ensures
            r == self.spec_yaks_waiting(),
    {
        self.yaks_waiting[0] + self.yaks_waiting[1]
    }

    /// Number of yaks alive: held by players or waiting.
    pub fn total_yaks(&self) -> (r: usize)
        requires
            self.total_fits(),
        ensures
            r == self.spec_total_yaks(),
    {
        self.yaks_waiting() + self.yaks_with_player()
    }

    /// Number of yaks held by players with a job.
    pub fn yaks_with(&self, job: Job) -> (r: usize)
        ensures
            r == self.yaks_with_player@[job.spec_index()],
    {
        self.yaks_with_player[job.index()]
    }

    /// Number of yaks waiting in a place.
    pub fn yaks_in(&self, place: WaitingPlace) -> (r: usize)
        ensures
            r == self.yaks_waiting@[place.spec_index()],
    {
        self.yaks_waiting[place.index()]
    }

    /// The value of one counter.
    pub fn count(&self, index: GameCountIndex) -> (r: usize)
        ensures
            r == self.spec_count(index),
    {
        match index {
            GameCountIndex::Job(job) => self.yaks_with(job),
            GameCountIndex::WaitingPlace(place) => self.yaks_in(place),
        }
    }
}


/// The text of a counter index of a job-indexed or place-indexed array.
pub open spec fn index_digit(i: int) -> Seq<char> {
    if i == 0 {
        "0"@
    } else if i == 1 {
        "1"@
    } else {
        "2"@
    }
}

impl GameCountIndex {
    /// The path of the counter in the stored counters record.
    pub open spec fn spec_attribute_path(self) -> Seq<char> {
        match self {
            GameCountIndex::Job(job) => "yaks_with_player["@ + index_digit(job.spec_index()) + "]"@,
            GameCountIndex::WaitingPlace(place) => "yaks_waiting["@ + index_digit(place.spec_index())
                + "]"@,
        }
    }

    /// The path of the counter in the stored counters record, such as
    /// `yaks_with_player[1]` (as the counter's `Display` writes it).
    pub fn attribute_path(&self) -> (r: String)
        ensures
            r@ == self.spec_attribute_path(),
    {
        let (mut path, i) = match self {
            GameCountIndex::Job(job) => (String::from_str("yaks_with_player["), job.index()),
            GameCountIndex::WaitingPlace(place) => (String::from_str("yaks_waiting["), place.index()),
        };
        if i == 0 {
            path.append("0");
        } else if i == 1 {
            path.append("1");
        } else {
            path.append("2");
        }
        path.append("]");
        path
    }
}

/// A counter a yak move increments: a counter of `GameCounts`, or the count
/// of sheared yaks.
#[derive(Debug, Clone, Copy, PartialEq, Eq, Structural)]
pub enum CounterTarget {
    Count(GameCountIndex),
    ShearedYaks,
}

/// How the stored counters change when a yak moves: the counter to
/// decrement, the counter to increment, and the counter that must be
/// positive for the change to apply.
#[derive(Debug, Clone, Copy, PartialEq, Eq, Structural)]
pub struct YakMovePlan {
    pub decrement: Option<GameCountIndex>,
    pub increment: Option<CounterTarget>,
    pub positive_guard: Option<GameCountIndex>,
}

impl YakMovePlan {
    /// Change of the number of yaks alive under the plan.
    pub open spec fn alive_delta(self) -> int {
        (if self.decrement is Some { -1int } else { 0int }) + (if self.increment matches Some(
            CounterTarget::Count(_),
        ) {
            1int
        } else {
            0int
        })
    }

    /// Change of the count of sheared yaks under the plan.
    pub open spec fn sheared_delta(self) -> int {
        if self.increment == Some(CounterTarget::ShearedYaks) {
            1int
        } else {
            0int
        }
    }
}

/// The change of the stored counters when a yak moves from `from` to `to`.
pub open spec fn spec_move_yak_plan(from: Option<GameCountIndex>, to: Option<GameCountIndex>) -> YakMovePlan {
    YakMovePlan {
        decrement: from,
        positive_guard: from,
        increment: match (from, to) {
            (None, None) => None,
            (_, Some(t)) => Some(CounterTarget::Count(t)),
            (Some(_), None) => Some(CounterTarget::ShearedYaks),
        },
    }
}

impl GameCounts<Real> {
    /// The change of the stored counters when a yak moves from the counter
    /// `from` (`None`: a newly bred yak) to the counter `to` (`None`: a yak
    /// leaving the game sheared): `from` is decremented, and must be
    /// positive; `to`, or the sheared count when `to` is `None`, is
    /// incremented; a move from nowhere to nowhere changes nothing.
    pub fn move_yak_plan(from: Option<GameCountIndex>, to: Option<GameCountIndex>) -> (r: YakMovePlan)
        ensures
            r == spec_move_yak_plan(from, to),
            r.decrement == from,
            r.positive_guard == from,
            to matches Some(t) ==> r.increment == Some(CounterTarget::Count(t)),
            from is Some && to is None ==> r.increment == Some(CounterTarget::ShearedYaks),
            from is None && to is None ==> r.increment is None,
    {
        proof {
            crate::laws::law_move_yak_targets(from, to);
        }
        let to_update = match to {
            Some(t) => CounterTarget::Count(t),
            None => CounterTarget::ShearedYaks,
        };
        let increment = match (from, to) {
            (None, None) => None,
            (None, Some(_)) => Some(to_update),
            (Some(_), _) => Some(to_update),
        };
        YakMovePlan { decrement: from, increment, positive_guard: from }
    }
}

} // verus!

