//! The update pushed to subscribers and returned by the game's mutations.

use vstd::prelude::*;

use crate::counts::{GameCounts, Real};
use crate::enums::GameStatus;
use crate::players::{JobFees, Player};
use crate::yak_counts::YakCounts;

verus! {

/// What changed in the game; `sampled` marks the updates every subscriber
/// receives (the others reach only the admins).
#[derive(Debug, Clone)]
pub struct GameUpdate<M> {
    pub sampled: bool,
    pub game_status: Option<GameStatus>,
    pub player: Option<Player<M>>,
    pub yak_counts: Option<YakCounts>,
    pub job_fees: Option<JobFees<M>>,
}

impl<M> GameUpdate<M> {
    /// An update that carries nothing and is not sampled.
    pub fn empty() -> (r: Self)
        ensures
            !r.sampled,
            r.game_status is None,
            r.player is None,
            r.yak_counts is None,
            r.job_fees is None,
    {
        GameUpdate { sampled: false, game_status: None, player: None, yak_counts: None, job_fees: None }
    }

    /// An update that carries only a game status.
    pub fn from_game_status(game_status: GameStatus) -> (r: Self)
        ensures
            r == (GameUpdate::<M> {
                sampled: false,
                game_status: Some(game_status),
                player: None,
                yak_counts: None,
                job_fees: None,
            }),
    {
        GameUpdate {
            sampled: false,
            game_status: Some(game_status),
            player: None,
            yak_counts: None,
            job_fees: None,
        }
    }

    /// An update that carries only a player.
    pub fn from_player(player: Player<M>) -> (r: Self)
        ensures
            r == (GameUpdate::<M> {
                sampled: false,
                game_status: None,
                player: Some(player),
                yak_counts: None,
                job_fees: None,
            }),
    {
        GameUpdate { sampled: false, game_status: None, player: Some(player), yak_counts: None, job_fees: None }
    }

    /// An update that carries only yak counts.
    pub fn from_yak_counts(yak_counts: YakCounts) -> (r: Self)
        ensures
            r == (GameUpdate::<M> {
                sampled: false,
                game_status: None,
                player: None,
                yak_counts: Some(yak_counts),
                job_fees: None,
            }),
    {
        GameUpdate {
            sampled: false,
            game_status: None,
            player: None,
            yak_counts: Some(yak_counts),
            job_fees: None,
        }
    }

    /// The same update, marked sampled.
    pub fn sampled(self) -> (r: Self)
        ensures
            r == (GameUpdate { sampled: true, ..self }),
    {
        let mut s = self;
        s.sampled = true;
        s
    }

    /// The same update, marked sampled or not.
    pub fn with_sampled(self, sampled: bool) -> (r: Self)
        ensures
            r == (GameUpdate { sampled, ..self }),
    {
        let mut s = self;
        s.sampled = sampled;
        s
    }

    /// The same update, carrying `player`.
    pub fn with_player(self, player: Player<M>) -> (r: Self)
        ensures
            r == (GameUpdate { player: Some(player), ..self }),
    {
        let mut s = self;
        s.player = Some(player);
        s
    }

    /// The same update, carrying `yak_counts`.
    pub fn with_yak_counts(self, yak_counts: YakCounts) -> (r: Self)
        ensures
            r == (GameUpdate { yak_counts: Some(yak_counts), ..self }),
    {
        let mut s = self;
        s.yak_counts = Some(yak_counts);
        s
    }

    /// The same update, carrying `game_status`.
    pub fn with_game_status(self, game_status: GameStatus) -> (r: Self)
        ensures
            r == (GameUpdate { game_status: Some(game_status), ..self }),
    {
        let mut s = self;
        s.game_status = Some(game_status);
        s
    }

    /// The same update, carrying `job_fees`.
    pub fn with_job_fees(self, job_fees: JobFees<M>) -> (r: Self)
        ensures
            r == (GameUpdate { job_fees: Some(job_fees), ..self }),
    {
        let mut s = self;
        s.job_fees = Some(job_fees);
        s
    }

    /// The same update, carrying what the game counters determine: their yak
    /// counts, the fees `job_fees` computed from them, and the sampled mark
    /// when the update already had it or the counters opened a new sampling
    /// slot.
    pub fn with_game_counts_derived(self, game_counts: GameCounts<Real>, job_fees: JobFees<M>) -> (r:
        Self)
        requires
            game_counts.total_fits(),
        ensures
            r == (GameUpdate {
                yak_counts: Some(YakCounts::spec_from_counts(game_counts)),
                job_fees: Some(job_fees),
                sampled: self.sampled || game_counts.spec_sampled(),
                ..self
            }),
    {
        let already_sampled = self.sampled;
        let sampled = already_sampled || game_counts.sampled();
        self.with_yak_counts(game_counts.yak_counts()).with_job_fees(job_fees).with_sampled(sampled)
    }
}

} // verus!
