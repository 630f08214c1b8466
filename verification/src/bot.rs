//! The decisions of a simulated bot-player: what it knows of the game, how
//! updates change that, and what it does next.

use vstd::prelude::*;

use crate::api::ApiError;
use crate::config::PlayerConfig;
use crate::enums::{GameStatus, Job};
use crate::game_update::GameUpdate;
use crate::ids::Id;
use crate::players::JobFees;
use crate::yak_counts::YakCounts;

verus! {

/// What a bot knows and holds while it plays.
#[derive(Debug)]
pub struct BotState<M> {
    pub player_id: Id,
    pub secret: String,
    pub name: String,
    pub preferred_job: Job,
    pub job_fees: JobFees<M>,
    pub yak_counts: YakCounts,
    pub game_status: GameStatus,
    /// The job the bot holds and the yak it handles.
    pub current_work: Option<(Job, Id)>,
    pub balance: M,
    /// Jobs completed, by job index.
    pub jobs_completed: [u32; 3],
}

/// What a bot does next.
#[derive(Debug, Clone, Copy, PartialEq, Eq, Structural)]
pub enum BotStep {
    /// Hand back the yak of the job it holds.
    FinishCurrentJob,
    /// Wait for the game to start.
    WaitForStart,
    /// Choose a job and play it.
    Play,
}

/// The jobs a bot can buy a yak for, given the yak counts: Breeder while
/// yaks remain to breed, Driver while yaks wait in the Warehouse, Shearer
/// while yaks wait in the shearing shed.
pub open spec fn spec_available_jobs(counts: YakCounts) -> Seq<Job> {
    (if counts.in_nursery != 0 { seq![Job::Breeder] } else { Seq::empty() }) + (if counts.in_warehouse
        > 0 {
        seq![Job::Driver]
    } else {
        Seq::empty()
    }) + (if counts.in_shearingshed > 0 { seq![Job::Shearer] } else { Seq::empty() })
}

/// The jobs a bot can buy a yak for, in pipeline order.
pub fn available_jobs(counts: &YakCounts) -> (r: Vec<Job>)
    ensures
        r@ == spec_available_jobs(*counts),
        r@.contains(Job::Breeder) <==> counts.in_nursery != 0,
        r@.contains(Job::Driver) <==> counts.in_warehouse > 0,
        r@.contains(Job::Shearer) <==> counts.in_shearingshed > 0,
        forall|i: int, j: int|
            0 <= i < j < r@.len() ==> (#[trigger] r@[i]).spec_index() < (#[trigger] r@[j]).spec_index(),
{
    proof {
        crate::laws::law_available_jobs(*counts);
    }
    let mut r: Vec<Job> = Vec::new();
    if !counts.max_reached() {
        r.push(Job::Breeder);
    }
    if counts.in_warehouse > 0 {
        r.push(Job::Driver);
    }
    if counts.in_shearingshed > 0 {
        r.push(Job::Shearer);
    }
    assert(r@ =~= spec_available_jobs(*counts));
    r
}

/// The yak the update assigns to the player it carries, if it carries one
/// with an assignment.
pub open spec fn spec_assigned_yak<M>(update: GameUpdate<M>) -> Option<Id> {
    match update.player {
        Some(p) => match p.assignment {
            Some(a) => Some(a.yak.id),
            None => None,
        },
        None => None,
    }
}

impl<M: Copy> BotState<M> {
    /// The state of a bot starting to play as `config`: nothing known of the
    /// game yet (status Reset, zero counts), no work, the default balance
    /// and fees of `M`.
    pub fn new(config: &PlayerConfig) -> (r: Self)
        where
            M: Default,
        ensures
            r.player_id == config.id,
            r.secret@ == config.secret@,
            r.name@ == config.name@,
            r.preferred_job == config.preferred_job,
            call_ensures(M::default, (), r.job_fees.breeder),
            call_ensures(M::default, (), r.job_fees.driver),
            call_ensures(M::default, (), r.job_fees.shearer),
            r.yak_counts == (YakCounts {
                in_nursery: 0,
                with_breeders: 0,
                in_warehouse: 0,
                with_drivers: 0,
                in_shearingshed: 0,
                with_shearers: 0,
                total_sheared: 0,
            }),
            r.game_status == GameStatus::Reset,
            r.current_work is None,
            call_ensures(M::default, (), r.balance),
            r.jobs_completed@ == seq![0u32, 0u32, 0u32],
    {
        BotState {
            player_id: config.id,
            secret: config.secret.clone(),
            name: config.name.clone(),
            preferred_job: config.preferred_job,
            job_fees: JobFees { breeder: M::default(), driver: M::default(), shearer: M::default() },
            yak_counts: YakCounts {
                in_nursery: 0,
                with_breeders: 0,
                in_warehouse: 0,
                with_drivers: 0,
                in_shearingshed: 0,
                with_shearers: 0,
                total_sheared: 0,
            },
            game_status: GameStatus::Reset,
            current_work: None,
            balance: M::default(),
            jobs_completed: [0, 0, 0],
        }
    }

    /// Learns from an update pushed to all subscribers: new counts, fees and
    /// status replace the known ones; a Reset clears the work and sets the
    /// balance to the default of `M`; otherwise the balance of the player
    /// carried, when it is this bot, becomes the bot's.
    pub fn apply_update(&mut self, update: &GameUpdate<M>)
        where
            M: Default,
        ensures
            final(self).yak_counts == (match update.yak_counts {
                Some(c) => c,
                None => old(self).yak_counts,
            }),
            final(self).job_fees == (match update.job_fees {
                Some(f) => f,
                None => old(self).job_fees,
            }),
            final(self).game_status == (match update.game_status {
                Some(s) => s,
                None => old(self).game_status,
            }),
            update.game_status == Some(GameStatus::Reset) ==> final(self).current_work is None
                && call_ensures(M::default, (), final(self).balance),
            update.game_status != Some(GameStatus::Reset) ==> {
                &&& final(self).current_work == old(self).current_work
                &&& final(self).balance == (match update.player {
                    Some(p) => if p.id == old(self).player_id {
                        p.balance
                    } else {
                        old(self).balance
                    },
                    None => old(self).balance,
                })
            },
            final(self).player_id == old(self).player_id,
            final(self).secret == old(self).secret,
            final(self).name == old(self).name,
            final(self).preferred_job == old(self).preferred_job,
            final(self).jobs_completed == old(self).jobs_completed,
    {
        if let Some(counts) = update.yak_counts {
            self.yak_counts = counts;
        }
        if let Some(fees) = update.job_fees {
            self.job_fees = fees;
        }
        if let Some(status) = update.game_status {
            self.game_status = status;
            if status == GameStatus::Reset {
                self.balance = M::default();
                self.current_work = None;
                return;
            }
        }
        if let Some(player) = &update.player {
            if player.id == self.player_id {
                self.balance = player.balance;
            }
        }
    }

    /// Learns from the reply to one of the bot's own mutations: new counts,
    /// fees and status replace the known ones, and the balance of the player
    /// carried (the bot) becomes the bot's.
    pub fn apply_mutation_response(&mut self, update: &GameUpdate<M>)
        ensures
            final(self).yak_counts == (match update.yak_counts {
                Some(c) => c,
                None => old(self).yak_counts,
            }),
            final(self).job_fees == (match update.job_fees {
                Some(f) => f,
                None => old(self).job_fees,
            }),
            final(self).game_status == (match update.game_status {
                Some(s) => s,
                None => old(self).game_status,
            }),
            final(self).balance == (match update.player {
                Some(p) => p.balance,
                None => old(self).balance,
            }),
            final(self).current_work == old(self).current_work,
            final(self).player_id == old(self).player_id,
            final(self).secret == old(self).secret,
            final(self).name == old(self).name,
            final(self).preferred_job == old(self).preferred_job,
            final(self).jobs_completed == old(self).jobs_completed,
    {
        if let Some(counts) = update.yak_counts {
            self.yak_counts = counts;
        }
        if let Some(fees) = update.job_fees {
            self.job_fees = fees;
        }
        if let Some(player) = &update.player {
            self.balance = player.balance;
        }
        if let Some(status) = update.game_status {
            self.game_status = status;
        }
    }

    /// What the bot does next: while the game runs (started or stopped) a
    /// bot holding a job finishes it; otherwise it waits while the game is
    /// reset, and plays while the game runs.
    pub open spec fn spec_next_step(self) -> BotStep {
        if (self.game_status == GameStatus::Started || self.game_status == GameStatus::Stopped)
            && self.current_work is Some {
            BotStep::FinishCurrentJob
        } else if self.game_status == GameStatus::Reset {
            BotStep::WaitForStart
        } else {
            BotStep::Play
        }
    }

    /// What the bot does next.
    pub fn next_step(&self) -> (r: BotStep)
        ensures
            r == self.spec_next_step(),
            r == BotStep::WaitForStart <==> self.game_status == GameStatus::Reset,
            self.game_status != GameStatus::Reset && self.current_work is Some ==> r
                == BotStep::FinishCurrentJob,
            self.game_status != GameStatus::Reset && self.current_work is None ==> r == BotStep::Play,
    {
        proof {
            crate::laws::law_next_step(*self);
        }
        let running = match self.game_status {
            GameStatus::Started | GameStatus::Stopped => true,
            GameStatus::Reset => false,
        };
        if running && self.current_work.is_some() {
            BotStep::FinishCurrentJob
        } else {
            match self.game_status {
                GameStatus::Reset => BotStep::WaitForStart,
                _ => BotStep::Play,
            }
        }
    }

    /// Records that the bot now holds `job` on the yak `yak_id`.
    pub fn start_work(&mut self, job: Job, yak_id: Id)
        ensures
            *final(self) == (BotState { current_work: Some((job, yak_id)), ..*old(self) }),
            final(self).current_work == Some((job, yak_id)),
            final(self).balance == old(self).balance,
            final(self).game_status == old(self).game_status,
            final(self).jobs_completed == old(self).jobs_completed,
    {
        self.current_work = Some((job, yak_id));
    }

    /// The work the bot holds, which it gives up.
    pub fn take_work(&mut self) -> (r: Option<(Job, Id)>)
        ensures
            r == old(self).current_work,
            *final(self) == (BotState { current_work: None, ..*old(self) }),
            final(self).current_work is None,
            final(self).balance == old(self).balance,
            final(self).game_status == old(self).game_status,
            final(self).jobs_completed == old(self).jobs_completed,
    {
        self.current_work.take()
    }

    /// Counts one more completed job.
    pub fn record_completed(&mut self, job: Job)
        requires
            old(self).jobs_completed@[job.spec_index()] < u32::MAX,
        ensures
            final(self).jobs_completed@ == old(self).jobs_completed@.update(
                job.spec_index(),
                (old(self).jobs_completed@[job.spec_index()] + 1) as u32,
            ),
            *final(self) == (BotState { jobs_completed: final(self).jobs_completed, ..*old(self) }),
            final(self).current_work == old(self).current_work,
            final(self).balance == old(self).balance,
    {
        let i = job.index();
        self.jobs_completed[i] = self.jobs_completed[i] + 1;
    }
}

/// The yak a bought job is on: the yak of the assignment of the player the
/// reply carries, or a fresh random identifier (a version 4 UUID) when the
/// reply carries none.
pub fn assigned_yak_id<M: Copy>(update: &GameUpdate<M>) -> (r: Id)
    ensures
        spec_assigned_yak(*update) matches Some(id) ==> r == id,
        spec_assigned_yak(*update) is None ==> crate::ids::is_v4_uuid(r.value),
{
    match &update.player {
        Some(p) => match &p.assignment {
            Some(a) => a.yak.id,
            None => Id::new(),
        },
        None => Id::new(),
    }
}

impl<M: Copy> BotState<M> {
    /// The state after the reply to a buy for `job`: a failed buy leaves the
    /// state as it was and the cycle stops (`false`); a reply is learnt
    /// from, and the bot then holds `job` on the yak assigned to it (a fresh
    /// random identifier where the reply names none), and goes on (`true`).
    pub fn after_buy(&mut self, job: Job, result: &Result<GameUpdate<M>, ApiError>) -> (r: bool)
        ensures
            result is Err ==> !r && *final(self) == *old(self),
            result matches Ok(update) ==> {
                &&& r
                &&& final(self).current_work matches Some((j, id)) && j == job && (match spec_assigned_yak(*update) {
                    Some(y) => id == y,
                    None => crate::ids::is_v4_uuid(id.value),
                })
                &&& final(self).yak_counts == (match update.yak_counts {
                    Some(c) => c,
                    None => old(self).yak_counts,
                })
                &&& final(self).job_fees == (match update.job_fees {
                    Some(f) => f,
                    None => old(self).job_fees,
                })
                &&& final(self).game_status == (match update.game_status {
                    Some(st) => st,
                    None => old(self).game_status,
                })
                &&& final(self).balance == (match update.player {
                    Some(p) => p.balance,
                    None => old(self).balance,
                })
                &&& final(self).player_id == old(self).player_id
                &&& final(self).secret == old(self).secret
                &&& final(self).name == old(self).name
                &&& final(self).preferred_job == old(self).preferred_job
                &&& final(self).jobs_completed == old(self).jobs_completed
            },
    {
        match result {
            Ok(update) => {
                let yak_id = assigned_yak_id(update);
                self.apply_mutation_response(update);
                self.start_work(job, yak_id);
                true
            },
            Err(_) => false,
        }
    }

    /// The state after the reply to a sell for `job`: a reply is learnt from
    /// and the job counts one more completion; a failed sell leaves the state
    /// as it was.
    pub fn after_sell(&mut self, job: Job, result: &Result<GameUpdate<M>, ApiError>)
        requires
            old(self).jobs_completed@[job.spec_index()] < u32::MAX,
        ensures
            result is Err ==> *final(self) == *old(self),
            result matches Ok(update) ==> {
                &&& final(self).jobs_completed@ == old(self).jobs_completed@.update(
                    job.spec_index(),
                    (old(self).jobs_completed@[job.spec_index()] + 1) as u32,
                )
                &&& final(self).yak_counts == (match update.yak_counts {
                    Some(c) => c,
                    None => old(self).yak_counts,
                })
                &&& final(self).job_fees == (match update.job_fees {
                    Some(f) => f,
                    None => old(self).job_fees,
                })
                &&& final(self).game_status == (match update.game_status {
                    Some(st) => st,
                    None => old(self).game_status,
                })
                &&& final(self).balance == (match update.player {
                    Some(p) => p.balance,
                    None => old(self).balance,
                })
                &&& final(self).current_work == old(self).current_work
                &&& final(self).player_id == old(self).player_id
                &&& final(self).secret == old(self).secret
                &&& final(self).name == old(self).name
                &&& final(self).preferred_job == old(self).preferred_job
            },
    {
        match result {
            Ok(update) => {
                self.apply_mutation_response(update);
                self.record_completed(job);
            },
            Err(_) => {},
        }
    }
}

/// What a bot has achieved when it stops.
#[derive(Debug)]
pub struct BotResult<M> {
    pub name: String,
    pub balance: M,
    /// Jobs completed, by job index.
    pub jobs_completed: [u32; 3],
    pub preferred_job: Job,
}

impl<M> BotResult<M> {
    /// What the bot in `state` has achieved.
    pub fn from_state(state: BotState<M>) -> (r: Self)
        ensures
            r.name == state.name,
            r.balance == state.balance,
            r.jobs_completed == state.jobs_completed,
            r.preferred_job == state.preferred_job,
    {
        BotResult {
            name: state.name,
            balance: state.balance,
            jobs_completed: state.jobs_completed,
            preferred_job: state.preferred_job,
        }
    }
}

} // verus!
