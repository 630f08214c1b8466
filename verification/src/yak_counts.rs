//! The yak counts shown to the players.

use vstd::prelude::*;

use crate::counts::{saturating_diff, GameCounts, Real};
use crate::enums::{Job, WaitingPlace};

verus! {

/// How many yaks are at each step of the pipeline, as the game reports them.
#[derive(Debug, Clone, Copy, PartialEq, Eq, Default, Structural)]
pub struct YakCounts {
    pub in_nursery: i32,
    pub with_breeders: i32,
    pub in_warehouse: i32,
    pub with_drivers: i32,
    pub in_shearingshed: i32,
    pub with_shearers: i32,
    pub total_sheared: i32,
}

impl YakCounts {
    /// The count of yaks held by players with a job.
    pub open spec fn spec_with(self, job: Job) -> i32 {
        match job {
            Job::Breeder => self.with_breeders,
            Job::Driver => self.with_drivers,
            Job::Shearer => self.with_shearers,
        }
    }

    /// The count of yaks waiting in a place.
    pub open spec fn spec_in(self, place: WaitingPlace) -> i32 {
        match place {
            WaitingPlace::Warehouse => self.in_warehouse,
            WaitingPlace::ShearingShed => self.in_shearingshed,
        }
    }

    /// The count of yaks held by players with a job.
    pub fn with(&self, job: Job) -> (r: i32)
        ensures
            r == self.spec_with(job),
    {
        match job {
            Job::Breeder => self.with_breeders,
            Job::Driver => self.with_drivers,
            Job::Shearer => self.with_shearers,
        }
    }

    /// The count of yaks waiting in a place.
    pub fn waiting_in(&self, place: WaitingPlace) -> (r: i32)
        ensures
            r == self.spec_in(place),
    {
        match place {
            WaitingPlace::Warehouse => self.in_warehouse,
            WaitingPlace::ShearingShed => self.in_shearingshed,
        }
    }

    /// Sets the count of yaks held by players with a job.
    pub fn set_with(&mut self, job: Job, count: i32)
        ensures
            final(self).spec_with(job) == count,
            forall|other: Job| other != job ==> final(self).spec_with(other) == old(self).spec_with(other),
            forall|place: WaitingPlace| final(self).spec_in(place) == old(self).spec_in(place),
            final(self).in_nursery == old(self).in_nursery,
            final(self).total_sheared == old(self).total_sheared,
    {
        match job {
            Job::Breeder => self.with_breeders = count,
            Job::Driver => self.with_drivers = count,
            Job::Shearer => self.with_shearers = count,
        }
    }

    /// Sets the count of yaks waiting in a place.
    pub fn set_in(&mut self, place: WaitingPlace, count: i32)
        ensures
            final(self).spec_in(place) == count,
            forall|other: WaitingPlace| other != place ==> final(self).spec_in(other) == old(self).spec_in(other),
            forall|job: Job| final(self).spec_with(job) == old(self).spec_with(job),
            final(self).in_nursery == old(self).in_nursery,
            final(self).total_sheared == old(self).total_sheared,
    {
        match place {
            WaitingPlace::Warehouse => self.in_warehouse = count,
            WaitingPlace::ShearingShed => self.in_shearingshed = count,
        }
    }

    /// Whether some players still hold a yak.
    pub fn any_in_progress(&self) -> (r: bool)
        ensures
            r == (self.with_breeders > 0 || self.with_drivers > 0 || self.with_shearers > 0),
    {
        self.with_breeders > 0 || self.with_drivers > 0 || self.with_shearers > 0
    }

    /// Whether the game holds as many yaks as it aims at: no yak is left to
    /// breed.
    pub fn max_reached(&self) -> (r: bool)
        ensures
            r == (self.in_nursery == 0),
    {
        self.in_nursery == 0
    }

    /// The counts reported for the game counters: each counter converted to
    /// `i32` by `as`, and the yaks still to breed (the desired count minus
    /// the yaks alive, or 0) as the nursery.
    pub open spec fn spec_from_counts(counts: GameCounts<Real>) -> YakCounts {
        YakCounts {
            in_nursery: saturating_diff(
                counts.game_count_type.desired_yak_count as int,
                counts.spec_total_yaks(),
            ) as i32,
            with_breeders: counts.yaks_with_player@[0] as i32,
            in_warehouse: counts.yaks_waiting@[0] as i32,
            with_drivers: counts.yaks_with_player@[1] as i32,
            in_shearingshed: counts.yaks_waiting@[1] as i32,
            with_shearers: counts.yaks_with_player@[2] as i32,
            total_sheared: counts.game_count_type.sheared_yak_count as i32,
        }
    }

    /// The counts reported for the game counters.
    pub fn from_counts(game_counts: GameCounts<Real>) -> (r: YakCounts)
        requires
            game_counts.total_fits(),
        ensures
            r == Self::spec_from_counts(game_counts),
    {
        let total = game_counts.total_yaks();
        let desired = game_counts.desired_yak_count();
        let in_nursery: usize = if desired > total {
            desired - total
        } else {
            0
        };
        let mut yak_counts = YakCounts {
            in_nursery: in_nursery as i32,
            total_sheared: game_counts.sheared_yak_count() as i32,
            with_breeders: 0,
            in_warehouse: 0,
            with_drivers: 0,
            in_shearingshed: 0,
            with_shearers: 0,
        };
        let jobs = Job::all();
        let mut i: usize = 0;
        while i < Job::COUNT
            invariant
                0 <= i <= 3,
                forall|t: int| 0 <= t < 3 ==> #[trigger] jobs@[t] == crate::enums::job_at(t),
                forall|t: int|
                    0 <= t < i ==> yak_counts.spec_with(#[trigger] crate::enums::job_at(t))
                        == game_counts.yaks_with_player@[t] as i32,
                yak_counts.in_nursery == in_nursery as i32,
                yak_counts.total_sheared == game_counts.game_count_type.sheared_yak_count as i32,
            decreases 3 - i,
        {
            let job = jobs[i];
            yak_counts.set_with(job, game_counts.yaks_with(job) as i32);
            i += 1;
        }
        let places = WaitingPlace::all();
        let mut i: usize = 0;
        while i < WaitingPlace::COUNT
            invariant
                0 <= i <= 2,
                forall|t: int| 0 <= t < 2 ==> #[trigger] places@[t] == crate::enums::place_at(t),
                forall|t: int|
                    0 <= t < 3 ==> yak_counts.spec_with(#[trigger] crate::enums::job_at(t))
                        == game_counts.yaks_with_player@[t] as i32,
                forall|t: int|
                    0 <= t < i ==> yak_counts.spec_in(#[trigger] crate::enums::place_at(t))
                        == game_counts.yaks_waiting@[t] as i32,
                yak_counts.in_nursery == in_nursery as i32,
                yak_counts.total_sheared == game_counts.game_count_type.sheared_yak_count as i32,
            decreases 2 - i,
        {
            let place = places[i];
            yak_counts.set_in(place, game_counts.yaks_in(place) as i32);
            i += 1;
        }
        assert(yak_counts.spec_with(crate::enums::job_at(0)) == game_counts.yaks_with_player@[0] as i32);
        assert(yak_counts.spec_with(crate::enums::job_at(1)) == game_counts.yaks_with_player@[1] as i32);
        assert(yak_counts.spec_with(crate::enums::job_at(2)) == game_counts.yaks_with_player@[2] as i32);
        assert(yak_counts.spec_in(crate::enums::place_at(0)) == game_counts.yaks_waiting@[0] as i32);
        assert(yak_counts.spec_in(crate::enums::place_at(1)) == game_counts.yaks_waiting@[1] as i32);
        yak_counts
    }
}

impl GameCounts<Real> {
    /// The yak counts reported for these counters.
    pub fn yak_counts(self) -> (r: YakCounts)
        requires
            self.total_fits(),
        ensures
            r == YakCounts::spec_from_counts(self),
    {
        YakCounts::from_counts(self)
    }
}

} // verus!
