//! Players, their assignments and the fees paid for jobs. Amounts of money
//! have the type parameter `M`: the game rules move them around, and only
//! crediting a fee adds two of them.

use vstd::prelude::*;
use vstd::std_specs::ops::AddSpec;

use crate::enums::{Job, WaitingPlace};
use crate::ids::{Id, Yak};

verus! {

/// The fee each job pays for one yak.
#[derive(Debug, Clone, Copy)]
pub struct JobFees<M> {
    pub breeder: M,
    pub driver: M,
    pub shearer: M,
}

impl<M: Copy> JobFees<M> {
    /// The fee a job pays.
    pub open spec fn spec_fee(self, job: Job) -> M {
        match job {
            Job::Breeder => self.breeder,
            Job::Driver => self.driver,
            Job::Shearer => self.shearer,
        }
    }

    /// The fee a job pays.
    pub fn fee(&self, job: Job) -> (r: M)
        ensures
            r == self.spec_fee(job),
    {
        match job {
            Job::Breeder => self.breeder,
            Job::Driver => self.driver,
            Job::Shearer => self.shearer,
        }
    }

    /// Sets the fee a job pays.
    pub fn set_fee(&mut self, job: Job, fee: M)
        ensures
            final(self).spec_fee(job) == fee,
            forall|other: Job| other != job ==> final(self).spec_fee(other) == old(self).spec_fee(other),
    {
        match job {
            Job::Breeder => self.breeder = fee,
            Job::Driver => self.driver = fee,
            Job::Shearer => self.shearer = fee,
        }
    }
}

/// A job a player holds: the yak handled and the fee it will pay.
#[derive(Debug, Clone, Copy)]
pub struct PlayerAssignment<M> {
    pub job: Job,
    pub yak: Yak,
    pub fee: M,
}

impl<M> PlayerAssignment<M> {
    /// An assignment to `job` on `yak`, paying `fee`.
    pub fn new(job: Job, yak: Yak, fee: M) -> (r: Self)
        ensures
            r.job == job,
            r.yak == yak,
            r.fee == fee,
    {
        PlayerAssignment { job, yak, fee }
    }

    /// The identifier of the yak handled.
    pub fn yak_id(&self) -> (r: Id)
        ensures
            r == self.yak.id,
    {
        self.yak.id
    }

    /// The yak handled.
    pub fn into_yak(self) -> (r: Yak)
        ensures
            r == self.yak,
    {
        self.yak
    }
}

/// A player: its balance, its current assignment and how many yaks it has
/// handled in each job.
#[derive(Debug, Clone)]
pub struct Player<M> {
    pub id: Id,
    pub name: String,
    pub assignment: Option<PlayerAssignment<M>>,
    pub balance: M,
    pub yak_bred: i32,
    pub yak_driven: i32,
    pub yak_sheared: i32,
}

impl<M> Player<M> {
    pub const TYPE: &'static str = "PLAYER";

    /// The number of yaks the player has handled in a job.
    pub open spec fn spec_handled(self, job: Job) -> i32 {
        match job {
            Job::Breeder => self.yak_bred,
            Job::Driver => self.yak_driven,
            Job::Shearer => self.yak_sheared,
        }
    }

    /// The number of yaks the player has handled in a job.
    pub fn handled(&self, job: Job) -> (r: i32)
        ensures
            r == self.spec_handled(job),
    {
        match job {
            Job::Breeder => self.yak_bred,
            Job::Driver => self.yak_driven,
            Job::Shearer => self.yak_sheared,
        }
    }

    /// The stored field that counts the yaks the player handled in a job.
    pub fn handled_field(job: Job) -> (r: &'static str)
        ensures
            r@ == (match job {
                Job::Breeder => "yak_bred"@,
                Job::Driver => "yak_driven"@,
                Job::Shearer => "yak_sheared"@,
            }),
    {
        match job {
            Job::Breeder => "yak_bred",
            Job::Driver => "yak_driven",
            Job::Shearer => "yak_sheared",
        }
    }

    /// Assigns the player to `job` on `yak`, at the fee the job pays now.
    pub fn start_new_assignment(&mut self, job: Job, yak: Yak, job_fees: JobFees<M>)
        where
            M: Copy,
        ensures
            final(self).assignment == Some(PlayerAssignment { job, yak, fee: job_fees.spec_fee(job) }),
            final(self).id == old(self).id,
            final(self).name == old(self).name,
            final(self).balance == old(self).balance,
            final(self).yak_bred == old(self).yak_bred,
            final(self).yak_driven == old(self).yak_driven,
            final(self).yak_sheared == old(self).yak_sheared,
    {
        let fee = job_fees.fee(job);
        self.assignment = Some(PlayerAssignment::new(job, yak, fee));
    }

    /// Ends the player's assignment: its fee is added to the balance (by the
    /// addition of `M`) and the yak handled is returned.
    pub fn finish_assignment(&mut self) -> (r: Yak)
        where
            M: core::ops::Add<Output = M> + Copy,
        requires
            old(self).assignment is Some,
            old(self).balance.add_req(old(self).assignment.unwrap().fee),
        ensures
            r == old(self).assignment.unwrap().yak,
            final(self).assignment is None,
            call_ensures(
                <M as core::ops::Add>::add,
                (old(self).balance, old(self).assignment.unwrap().fee),
                final(self).balance,
            ),
            final(self).id == old(self).id,
            final(self).name == old(self).name,
            final(self).yak_bred == old(self).yak_bred,
            final(self).yak_driven == old(self).yak_driven,
            final(self).yak_sheared == old(self).yak_sheared,
    {
        let assignment = self.assignment.take().unwrap();
        self.balance = self.balance + assignment.fee;
        assignment.into_yak()
    }
}


/// Finishing an assignment just started: the yak assigned is handed back,
/// the assignment is cleared, the fee the job paid at the start is added to
/// the balance (by the addition of `M`), and the counters are kept. Here
/// `started` is what `start_new_assignment(job, yak, fees)` makes of
/// `player`, and `finished`, `returned` what `finish_assignment` makes of
/// `started` and returns.
pub proof fn law_finish_after_start<M: core::ops::Add<Output = M> + Copy>(
    player: Player<M>,
    job: Job,
    yak: Yak,
    fees: JobFees<M>,
    started: Player<M>,
    finished: Player<M>,
    returned: Yak,
)
    requires
        started.assignment == Some(PlayerAssignment { job, yak, fee: fees.spec_fee(job) }),
        started.id == player.id,
        started.name == player.name,
        started.balance == player.balance,
        started.yak_bred == player.yak_bred,
        started.yak_driven == player.yak_driven,
        started.yak_sheared == player.yak_sheared,
        returned == started.assignment.unwrap().yak,
        finished.assignment is None,
        call_ensures(
            <M as core::ops::Add>::add,
            (started.balance, started.assignment.unwrap().fee),
            finished.balance,
        ),
        finished.id == started.id,
        finished.name == started.name,
        finished.yak_bred == started.yak_bred,
        finished.yak_driven == started.yak_driven,
        finished.yak_sheared == started.yak_sheared,
    ensures
        started.assignment is Some,
        returned == yak,
        finished.assignment is None,
        call_ensures(<M as core::ops::Add>::add, (player.balance, fees.spec_fee(job)), finished.balance),
        finished.id == player.id,
        finished.name == player.name,
        finished.yak_bred == player.yak_bred,
        finished.yak_driven == player.yak_driven,
        finished.yak_sheared == player.yak_sheared,
{
}

/// Resetting a player twice is resetting it once, where the default of `M`
/// is a single value (as for numbers): the same identifier, name and
/// secret, no assignment, no yak handled and the default balance. Here
/// `once` is what `reset` makes of `player`, and `twice` what it makes of
/// `once`.
pub proof fn law_reset_idempotent<M: Default>(
    player: PlayerWithSecret<M>,
    once: PlayerWithSecret<M>,
    twice: PlayerWithSecret<M>,
)
    requires
        forall|a: M, b: M| call_ensures(M::default, (), a) && call_ensures(M::default, (), b) ==> a == b,
        once.spec_player().id == player.spec_player().id,
        once.spec_player().name == player.spec_player().name,
        once.spec_player().assignment is None,
        call_ensures(M::default, (), once.spec_player().balance),
        once.spec_player().yak_bred == 0,
        once.spec_player().yak_driven == 0,
        once.spec_player().yak_sheared == 0,
        once.spec_secret() == player.spec_secret(),
        twice.spec_player().id == once.spec_player().id,
        twice.spec_player().name == once.spec_player().name,
        twice.spec_player().assignment is None,
        call_ensures(M::default, (), twice.spec_player().balance),
        twice.spec_player().yak_bred == 0,
        twice.spec_player().yak_driven == 0,
        twice.spec_player().yak_sheared == 0,
        twice.spec_secret() == once.spec_secret(),
    ensures
        twice.spec_player() == once.spec_player(),
        twice.spec_secret() == once.spec_secret(),
        twice.spec_player().id == player.spec_player().id,
        twice.spec_player().name == player.spec_player().name,
{
}

/// A player with the secret that authenticates its requests.
#[derive(Debug, Clone)]
pub struct PlayerWithSecret<M> {
    player: Player<M>,
    secret: String,
}

impl<M> PlayerWithSecret<M> {
    pub closed spec fn spec_player(self) -> Player<M> {
        self.player
    }

    pub closed spec fn spec_secret(self) -> Seq<char> {
        self.secret@
    }

    /// A new player named `name`, with a fresh random identifier, no
    /// assignment, no yak handled and the default balance of `M`.
    pub fn new(name: String, secret: String) -> (r: Self)
        where
            M: Default,
        ensures
            crate::ids::is_v4_uuid(r.spec_player().id.value),
            r.spec_player().name == name,
            r.spec_player().assignment is None,
            call_ensures(M::default, (), r.spec_player().balance),
            r.spec_player().yak_bred == 0,
            r.spec_player().yak_driven == 0,
            r.spec_player().yak_sheared == 0,
            r.spec_secret() == secret@,
    {
        PlayerWithSecret {
            player: Player {
                id: Id::new(),
                name,
                assignment: None,
                balance: M::default(),
                yak_bred: 0,
                yak_driven: 0,
                yak_sheared: 0,
            },
            secret,
        }
    }

    /// The same player, with its identifier, name and secret, starting over:
    /// no assignment, no yak handled and the default balance of `M`.
    pub fn reset(self) -> (r: Self)
        where
            M: Default,
        ensures
            r.spec_player().id == self.spec_player().id,
            r.spec_player().name == self.spec_player().name,
            r.spec_player().assignment is None,
            call_ensures(M::default, (), r.spec_player().balance),
            r.spec_player().yak_bred == 0,
            r.spec_player().yak_driven == 0,
            r.spec_player().yak_sheared == 0,
            r.spec_secret() == self.spec_secret(),
    {
        PlayerWithSecret {
            player: Player {
                id: self.player.id,
                name: self.player.name,
                assignment: None,
                balance: M::default(),
                yak_bred: 0,
                yak_driven: 0,
                yak_sheared: 0,
            },
            secret: self.secret,
        }
    }

    /// The player, without its secret.
    pub fn into_player(self) -> (r: Player<M>)
        ensures
            r == self.spec_player(),
    {
        self.player
    }

    /// A player with its secret.
    pub fn from_parts(player: Player<M>, secret: String) -> (r: Self)
        ensures
            r.spec_player() == player,
            r.spec_secret() == secret@,
    {
        PlayerWithSecret { player, secret }
    }

    /// The player.
    pub fn player(&self) -> (r: &Player<M>)
        ensures
            *r == self.spec_player(),
    {
        &self.player
    }

    /// The secret.
    pub fn secret(&self) -> (r: &String)
        ensures
            r@ == self.spec_secret(),
    {
        &self.secret
    }
}

/// A yak waiting in a place.
#[derive(Debug, Clone, Copy, PartialEq, Eq, Structural)]
pub struct WaitingYak {
    yak: Yak,
    location: WaitingPlace,
}

/// An index below `len`, chosen at random by `rand`'s
/// `IteratorRandom::choose` over `0..len` with the thread-local generator.
/// Claimed: `None` exactly when `len` is 0, and an index below `len`
/// otherwise; which index is left unsaid (it is random).
#[verifier::external_body]
fn random_index_below(len: usize) -> (r: Option<usize>)
    ensures
        r is None <==> len == 0,
        r matches Some(i) ==> i < len,
{
    rand::seq::IteratorRandom::choose(0..len, &mut rand::rng())
}

impl WaitingYak {
    pub closed spec fn spec_yak(self) -> Yak {
        self.yak
    }

    pub closed spec fn spec_location(self) -> WaitingPlace {
        self.location
    }

    /// `yak`, waiting at `location`.
    pub fn new(yak: Yak, location: WaitingPlace) -> (r: Self)
        ensures
            r.spec_yak() == yak,
            r.spec_location() == location,
    {
        WaitingYak { yak, location }
    }

    /// Where the yak waits.
    pub fn location(&self) -> (r: WaitingPlace)
        ensures
            r == self.spec_location(),
    {
        self.location
    }

    /// The waiting yak.
    pub fn into_yak(self) -> (r: Yak)
        ensures
            r == self.spec_yak(),
    {
        self.yak
    }

    /// One of the waiting yaks, chosen at random; `None` when there is none.
    pub fn choose_random(yaks: Vec<WaitingYak>) -> (r: Option<WaitingYak>)
        ensures
            r is None <==> yaks@.len() == 0,
            r matches Some(w) ==> yaks@.contains(w),
    {
        let mut yaks = yaks;
        match random_index_below(yaks.len()) {
            Some(index) => {
                let ghost before = yaks@;
                let w = yaks.remove(index);
                assert(before[index as int] == w);
                Some(w)
            },
            None => None,
        }
    }
}

} // verus!

