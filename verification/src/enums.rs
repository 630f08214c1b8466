//! The game's enumerations: the jobs a player can take, the places where yaks
//! wait between jobs, and the status of the game.

use vstd::prelude::*;

use crate::text::text_eq;

verus! {

/// A job a player can hold. The yak pipeline is
/// Breeder -> Warehouse -> Driver -> ShearingShed -> Shearer.
#[derive(Debug, Clone, Copy, PartialEq, Eq, Hash, PartialOrd, Ord, Structural)]
pub enum Job {
    Breeder,
    Driver,
    Shearer,
}

/// A place where yaks wait for the next job of the pipeline.
#[derive(Debug, Clone, Copy, PartialEq, Eq, Hash, PartialOrd, Ord, Structural)]
pub enum WaitingPlace {
    Warehouse,
    ShearingShed,
}

/// The status of the game.
#[derive(Debug, Clone, Copy, PartialEq, Eq, Hash, PartialOrd, Ord, Structural)]
pub enum GameStatus {
    Reset,
    Started,
    Stopped,
}

/// The job at a position of the pipeline order.
pub open spec fn job_at(i: int) -> Job {
    if i == 0 {
        Job::Breeder
    } else if i == 1 {
        Job::Driver
    } else {
        Job::Shearer
    }
}

/// The waiting place at a position of the pipeline order.
pub open spec fn place_at(i: int) -> WaitingPlace {
    if i == 0 {
        WaitingPlace::Warehouse
    } else {
        WaitingPlace::ShearingShed
    }
}

impl Job {
    pub const COUNT: usize = 3;

    /// Position of the job in the pipeline order.
    pub open spec fn spec_index(self) -> int {
        match self {
            Job::Breeder => 0,
            Job::Driver => 1,
            Job::Shearer => 2,
        }
    }

    /// The name of the job in the game's GraphQL schema.
    pub open spec fn spec_name(self) -> Seq<char> {
        match self {
            Job::Breeder => "BREEDER"@,
            Job::Driver => "DRIVER"@,
            Job::Shearer => "SHEARER"@,
        }
    }

    /// The name of the job in the game's GraphQL schema, as its `Display`
    /// writes it.
    pub fn name(self) -> (r: &'static str)
        ensures
            r@ == self.spec_name(),
    {
        match self {
            Job::Breeder => "BREEDER",
            Job::Driver => "DRIVER",
            Job::Shearer => "SHEARER",
        }
    }

    /// The job with the given schema name, if any.
    pub fn from_name(name: &str) -> (r: Option<Job>)
        ensures
            r matches Some(job) ==> job.spec_name() == name@,
            r is None ==> forall|job: Job| job.spec_name() != name@,
    {
        if text_eq(name, "BREEDER") {
            Some(Job::Breeder)
        } else if text_eq(name, "DRIVER") {
            Some(Job::Driver)
        } else if text_eq(name, "SHEARER") {
            Some(Job::Shearer)
        } else {
            None
        }
    }

    /// All jobs, in pipeline order.
    pub fn all() -> (r: [Job; 3])
        ensures
            forall|i: int| 0 <= i < 3 ==> #[trigger] r@[i] == job_at(i),
    {
        [Job::Breeder, Job::Driver, Job::Shearer]
    }

    /// Position of the job in the pipeline order.
    pub fn index(self) -> (r: usize)
        ensures
            r == self.spec_index(),
            job_at(r as int) == self,
    {
        match self {
            Job::Breeder => 0,
            Job::Driver => 1,
            Job::Shearer => 2,
        }
    }

    /// The waiting place a job takes its yaks from; the Breeder breeds them.
    pub open spec fn spec_depends_on(self) -> Option<WaitingPlace> {
        match self {
            Job::Breeder => None,
            Job::Driver => Some(WaitingPlace::Warehouse),
            Job::Shearer => Some(WaitingPlace::ShearingShed),
        }
    }

    /// The waiting place a job takes its yaks from; `None` for the Breeder,
    /// who breeds new yaks.
    pub fn depends_on(self) -> (r: Option<WaitingPlace>)
        ensures
            r == self.spec_depends_on(),
    {
        match self {
            Job::Breeder => None,
            Job::Driver => Some(WaitingPlace::Warehouse),
            Job::Shearer => Some(WaitingPlace::ShearingShed),
        }
    }
}

/// Distinct jobs have distinct names.
pub proof fn lemma_job_names_distinct(a: Job, b: Job)
    ensures
        a.spec_name() == b.spec_name() ==> a == b,
{
    reveal_strlit("BREEDER");
    reveal_strlit("DRIVER");
    reveal_strlit("SHEARER");
    if a != b && a.spec_name() == b.spec_name() {
        assert(a.spec_name()[0] == b.spec_name()[0]);
        assert(a.spec_name().len() == b.spec_name().len());
        if a.spec_name().len() == 7 {
            assert(a.spec_name()[0] != b.spec_name()[0]);
        }
    }
}

impl WaitingPlace {
    pub const COUNT: usize = 2;

    /// Position of the place in the pipeline order.
    pub open spec fn spec_index(self) -> int {
        match self {
            WaitingPlace::Warehouse => 0,
            WaitingPlace::ShearingShed => 1,
        }
    }

    /// The name of the place in the game's GraphQL schema.
    pub open spec fn spec_name(self) -> Seq<char> {
        match self {
            WaitingPlace::Warehouse => "WAREHOUSE"@,
            WaitingPlace::ShearingShed => "SHEARING_SHED"@,
        }
    }

    /// The name of the place in the game's GraphQL schema, as its `Display`
    /// writes it.
    pub fn name(self) -> (r: &'static str)
        ensures
            r@ == self.spec_name(),
    {
        match self {
            WaitingPlace::Warehouse => "WAREHOUSE",
            WaitingPlace::ShearingShed => "SHEARING_SHED",
        }
    }

    /// All waiting places, in pipeline order.
    pub fn all() -> (r: [WaitingPlace; 2])
        ensures
            forall|i: int| 0 <= i < 2 ==> #[trigger] r@[i] == place_at(i),
    {
        [WaitingPlace::Warehouse, WaitingPlace::ShearingShed]
    }

    /// Position of the place in the pipeline order.
    pub fn index(self) -> (r: usize)
        ensures
            r == self.spec_index(),
            place_at(r as int) == self,
    {
        match self {
            WaitingPlace::Warehouse => 0,
            WaitingPlace::ShearingShed => 1,
        }
    }
}

impl GameStatus {
    pub const TYPE: &'static str = "GAME_STATUS";

    /// The name of the status in the game's GraphQL schema.
    pub open spec fn spec_name(self) -> Seq<char> {
        match self {
            GameStatus::Reset => "RESET"@,
            GameStatus::Started => "STARTED"@,
            GameStatus::Stopped => "STOPPED"@,
        }
    }

    /// The name of the status in the game's GraphQL schema, as its `Display`
    /// writes it (and as it is stored).
    pub fn name(self) -> (r: &'static str)
        ensures
            r@ == self.spec_name(),
    {
        match self {
            GameStatus::Reset => "RESET",
            GameStatus::Started => "STARTED",
            GameStatus::Stopped => "STOPPED",
        }
    }

    /// The status with the given schema name, if any.
    pub fn from_name(name: &str) -> (r: Option<GameStatus>)
        ensures
            r matches Some(s) ==> s.spec_name() == name@,
            r is None ==> forall|s: GameStatus| s.spec_name() != name@,
    {
        if text_eq(name, "RESET") {
            Some(GameStatus::Reset)
        } else if text_eq(name, "STARTED") {
            Some(GameStatus::Started)
        } else if text_eq(name, "STOPPED") {
            Some(GameStatus::Stopped)
        } else {
            None
        }
    }

    /// Whether the game may move to status `self` while the stored status is
    /// `current` (`None`: no status stored yet). The statuses cycle
    /// Reset -> Started -> Stopped -> Reset, and a fresh game may be started.
    pub open spec fn spec_may_follow(self, current: Option<GameStatus>) -> bool {
        match self {
            GameStatus::Reset => current == Some(GameStatus::Stopped),
            GameStatus::Started => current == Some(GameStatus::Reset) || current is None,
            GameStatus::Stopped => current == Some(GameStatus::Started),
        }
    }

    /// The only stored status from which the game may move to `self`.
    pub fn predecessor(self) -> (r: GameStatus)
        ensures
            self.spec_may_follow(Some(r)),
            forall|s: GameStatus| #[trigger] self.spec_may_follow(Some(s)) ==> s == r,
    {
        match self {
            GameStatus::Reset => GameStatus::Stopped,
            GameStatus::Started => GameStatus::Reset,
            GameStatus::Stopped => GameStatus::Started,
        }
    }

    /// Whether the game may move to `self` when no status is stored yet.
    pub fn accepts_missing_status(self) -> (r: bool)
        ensures
            r == self.spec_may_follow(None),
    {
        match self {
            GameStatus::Started => true,
            _ => false,
        }
    }

    /// Whether the game may move to status `self` while the stored status is
    /// `current`.
    pub fn may_follow(self, current: Option<GameStatus>) -> (r: bool)
        ensures
            r == self.spec_may_follow(current),
    {
        match current {
            None => self.accepts_missing_status(),
            Some(c) => c == self.predecessor(),
        }
    }
}

} // verus!
