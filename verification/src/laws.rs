//! Properties of the game rules that span several functions.

use vstd::prelude::*;

use crate::api::{spec_retry_decision, ApiError, RetryDecision};
use crate::cost::{spec_profile, Mutation};
use crate::counts::{saturating_diff, Sampler};
use crate::enums::{job_at, place_at, WaitingPlace};
use crate::players::{JobFees, Player};
use crate::websocket::{spec_message_kind, WsMessageKind};
use crate::bot::{spec_available_jobs, BotState, BotStep};
use crate::counts::{spec_move_yak_plan, sum3, CounterTarget, GameCountIndex, GameCounts, Real};
use crate::enums::{GameStatus, Job};
use crate::yak_counts::YakCounts;
use crate::ideal::{ideal_waiting, lemma_fill_players, nonneg3};

verus! {

/// The status that follows `s` in the game's cycle.
pub open spec fn next_status(s: GameStatus) -> GameStatus {
    match s {
        GameStatus::Reset => GameStatus::Started,
        GameStatus::Started => GameStatus::Stopped,
        GameStatus::Stopped => GameStatus::Reset,
    }
}

/// The game statuses form the cycle Reset -> Started -> Stopped -> Reset:
/// from each stored status exactly one status may follow, three moves lead
/// back to the start, and a game with no stored status can only be started.
pub proof fn law_status_cycle(s: GameStatus, t: GameStatus)
    ensures
        t.spec_may_follow(Some(s)) <==> t == next_status(s),
        next_status(next_status(next_status(s))) == s,
        t.spec_may_follow(None) <==> t == GameStatus::Started,
{
}

/// The ideal distribution places every player it can: as many players as
/// the game has, or as the jobs have free spots when these are fewer, and
/// never more players in a job than it can take.
pub proof fn law_ideal_within_bounds(counts: GameCounts<Real>)
    ensures
        ({
            let ideal = counts.spec_ideal_players();
            let c = counts.spec_constraints();
            let players = counts.game_count_type.player_count as int;
            &&& forall|j: int| 0 <= j < 3 ==> 0 <= #[trigger] ideal[j] <= c[j]
            &&& sum3(ideal) == if players <= sum3(c) { players } else { sum3(c) }
        }),
{
    let c = counts.spec_constraints();
    let zero = seq![0int, 0int, 0int];
    assert(nonneg3(c));
    lemma_fill_players(zero, counts.game_count_type.player_count as int, c, c);
}

/// The yaks left for the waiting places are all placed, split as evenly as
/// possible, the Warehouse taking the odd one.
pub proof fn law_waiting_split(free_yaks: int)
    requires
        free_yaks >= 0,
    ensures
        ideal_waiting(free_yaks)[0] + ideal_waiting(free_yaks)[1] == free_yaks,
        ideal_waiting(free_yaks)[1] <= ideal_waiting(free_yaks)[0] <= ideal_waiting(free_yaks)[1]
            + 1,
{
}

/// Where no count exceeds `i64::MAX`, the job differences are exactly the
/// ideal number of players of each job minus its real number.
pub proof fn law_job_diffs_exact(counts: GameCounts<Real>, j: int)
    requires
        0 <= j < 3,
        counts.spec_ideal_players()[j] <= i64::MAX,
        counts.yaks_with_player@[j] <= i64::MAX,
    ensures
        counts.spec_job_diff(j) == counts.spec_ideal_players()[j] - counts.yaks_with_player@[j],
{
    let c = counts.spec_constraints();
    assert(nonneg3(c));
    lemma_fill_players(seq![0int, 0int, 0int], counts.game_count_type.player_count as int, c, c);
}

/// A yak move keeps yaks accounted for: a move between counters keeps the
/// number of yaks alive, selling a sheared yak trades one yak alive for one
/// sheared, and only breeding (from nowhere to a counter) adds a yak.
pub proof fn law_yak_move_accounting(from: Option<GameCountIndex>, to: Option<GameCountIndex>)
    ensures
        spec_move_yak_plan(from, to).alive_delta() + spec_move_yak_plan(from, to).sheared_delta()
            == if from is None && to is Some {
            1int
        } else {
            0int
        },
        spec_move_yak_plan(from, to).decrement == spec_move_yak_plan(from, to).positive_guard,
{
}

/// The jobs offered to a bot: Breeder exactly while yaks remain to breed
/// (the nursery is not empty), Driver exactly while yaks wait in the
/// Warehouse, Shearer exactly while yaks wait in the shearing shed; each at
/// most once, in pipeline order.
pub proof fn law_available_jobs(counts: YakCounts)
    ensures
        spec_available_jobs(counts).contains(Job::Breeder) <==> counts.in_nursery != 0,
        spec_available_jobs(counts).contains(Job::Driver) <==> counts.in_warehouse > 0,
        spec_available_jobs(counts).contains(Job::Shearer) <==> counts.in_shearingshed > 0,
        forall|i: int, j: int|
            0 <= i < j < spec_available_jobs(counts).len() ==> (#[trigger] spec_available_jobs(
                counts,
            )[i]).spec_index() < (#[trigger] spec_available_jobs(counts)[j]).spec_index(),
{
    let r = spec_available_jobs(counts);
    let b: Seq<Job> = if counts.in_nursery != 0 { seq![Job::Breeder] } else { Seq::empty() };
    let d: Seq<Job> = if counts.in_warehouse > 0 { seq![Job::Driver] } else { Seq::empty() };
    let sh: Seq<Job> = if counts.in_shearingshed > 0 { seq![Job::Shearer] } else { Seq::empty() };
    assert(r =~= b + d + sh);
    assert(r.contains(Job::Breeder) ==> counts.in_nursery != 0) by {
        if r.contains(Job::Breeder) {
            let k = choose|k: int| 0 <= k < r.len() && r[k] == Job::Breeder;
            assert((b + d + sh)[k] == Job::Breeder);
        }
    }
    assert(counts.in_nursery != 0 ==> r.contains(Job::Breeder)) by {
        if counts.in_nursery != 0 {
            assert(r[0] == Job::Breeder);
        }
    }
    assert(r.contains(Job::Driver) ==> counts.in_warehouse > 0) by {
        if r.contains(Job::Driver) {
            let k = choose|k: int| 0 <= k < r.len() && r[k] == Job::Driver;
            assert((b + d + sh)[k] == Job::Driver);
        }
    }
    assert(counts.in_warehouse > 0 ==> r.contains(Job::Driver)) by {
        if counts.in_warehouse > 0 {
            assert(r[b.len() as int] == Job::Driver);
        }
    }
    assert(r.contains(Job::Shearer) ==> counts.in_shearingshed > 0) by {
        if r.contains(Job::Shearer) {
            let k = choose|k: int| 0 <= k < r.len() && r[k] == Job::Shearer;
            assert((b + d + sh)[k] == Job::Shearer);
        }
    }
    assert(counts.in_shearingshed > 0 ==> r.contains(Job::Shearer)) by {
        if counts.in_shearingshed > 0 {
            assert(r[(b.len() + d.len()) as int] == Job::Shearer);
        }
    }
}

/// What a bot does next: it waits exactly while the game is reset; while
/// the game is started or stopped it finishes the job it holds, and plays
/// (chooses a job and works) when it holds none.
pub proof fn law_next_step<M: Copy>(state: BotState<M>)
    ensures
        state.spec_next_step() == BotStep::WaitForStart <==> state.game_status == GameStatus::Reset,
        state.game_status != GameStatus::Reset && state.current_work is Some
            ==> state.spec_next_step() == BotStep::FinishCurrentJob,
        state.game_status != GameStatus::Reset && state.current_work is None
            ==> state.spec_next_step() == BotStep::Play,
{
}

/// Retrying failed mutations: a network error is retried exactly while
/// fewer than 3 retries were made; a GraphQL error of type `NoMoreYak`,
/// `InvalidGameStatus` or `InvalidPlayerStatus` is never retried, and
/// another GraphQL error is retried exactly when no retry was made; a parse
/// error is never retried.
pub proof fn law_retry_decision(error: ApiError, retries: u32)
    ensures
        error is Network ==> (spec_retry_decision(error, retries) == RetryDecision::RetryNetwork
            <==> retries < 3),
        error is Network ==> spec_retry_decision(error, retries) != RetryDecision::RetryGraphql,
        error matches ApiError::GraphQL { error_type, .. } && (error_type@ == "NoMoreYak"@
            || error_type@ == "InvalidGameStatus"@ || error_type@ == "InvalidPlayerStatus"@)
            ==> spec_retry_decision(error, retries) == RetryDecision::GiveUp,
        error matches ApiError::GraphQL { error_type, .. } && error_type@ != "NoMoreYak"@
            && error_type@ != "InvalidGameStatus"@ && error_type@ != "InvalidPlayerStatus"@
            ==> (spec_retry_decision(error, retries) == RetryDecision::RetryGraphql <==> retries
            == 0) && spec_retry_decision(error, retries) != RetryDecision::RetryNetwork,
        error is Parse ==> spec_retry_decision(error, retries) == RetryDecision::GiveUp,
{
}

/// Moving a yak between counters: the counter it leaves is decremented and
/// must be positive; the counter it reaches is incremented; a yak leaving
/// the game (to nowhere) from a counter adds one to the sheared yaks; a
/// move from nowhere to nowhere changes nothing.
pub proof fn law_move_yak_targets(from: Option<GameCountIndex>, to: Option<GameCountIndex>)
    ensures
        spec_move_yak_plan(from, to).decrement == from,
        spec_move_yak_plan(from, to).positive_guard == from,
        to matches Some(t) ==> spec_move_yak_plan(from, to).increment == Some(CounterTarget::Count(t)),
        from is Some && to is None ==> spec_move_yak_plan(from, to).increment == Some(
            CounterTarget::ShearedYaks,
        ),
        from is Some && to is None ==> spec_move_yak_plan(from, to).sheared_delta() == 1,
        from is None && to is None ==> spec_move_yak_plan(from, to).increment is None,
{
}

/// Sampling: an update is pushed to players exactly when it falls in
/// another 250 ms slot than the update before it (the slot of a time is the
/// time less its remainder modulo 250); counters never timed are not
/// sampled.
pub proof fn law_sampling_slots(sampler: Sampler, counts: GameCounts<Real>)
    ensures
        sampler.spec_sampled() <==> sampler.update_ms - sampler.update_ms % 250
            != sampler.old_update_ms - sampler.old_update_ms % 250,
        counts.game_count_type.sampler is None ==> !counts.spec_sampled(),
        counts.game_count_type.sampler matches Some(s) ==> (counts.spec_sampled()
            <==> s.spec_sampled()),
{
    let a = sampler.update_ms as int;
    let b = sampler.old_update_ms as int;
    assert(a == 250 * (a / 250) + a % 250) by (nonlinear_arith);
    assert(b == 250 * (b / 250) + b % 250) by (nonlinear_arith);
    assert((a / 250 == b / 250) <==> (250 * (a / 250) == 250 * (b / 250))) by (nonlinear_arith);
}

/// A new game with `player_count` players holds no yak, has sheared none,
/// was never timed, and aims at one and a half yak per player (rounded
/// down).
pub proof fn law_new_game_counts(player_count: usize)
    ensures
        ({
            let c = GameCounts::<Real>::spec_with_player_count(player_count);
            &&& c.spec_total_yaks() == 0
            &&& c.game_count_type.player_count == player_count
            &&& c.game_count_type.sheared_yak_count == 0
            &&& c.game_count_type.sampler is None
            &&& (player_count + player_count / 2 <= usize::MAX ==> c.game_count_type.desired_yak_count
                == (3 * player_count) / 2)
        }),
{
    let p = player_count as int;
    assert(p + p / 2 == (3 * p) / 2) by (nonlinear_arith)
        requires
            p >= 0,
    ;
}

/// The players each job can take: those doing it now plus the yaks ready
/// for it: the yaks waiting in the place it takes them from, or, for the
/// Breeder, the yaks still to breed (the desired count less the yaks alive,
/// never below zero).
pub proof fn law_job_constraints(counts: GameCounts<Real>, j: int)
    requires
        0 <= j < 3,
    ensures
        counts.spec_constraints()[j] == counts.yaks_with_player@[j] + match job_at(j).spec_depends_on() {
            Some(place) => counts.yaks_waiting@[place.spec_index()] as int,
            None => if counts.game_count_type.desired_yak_count >= counts.spec_total_yaks() {
                counts.game_count_type.desired_yak_count - counts.spec_total_yaks()
            } else {
                0
            },
        },
{
}

/// The yak counts shown to players: the yaks held by each job and waiting
/// in each place are the counters', and the nursery holds the yaks still to
/// breed: the desired count less the yaks alive, or none when they reach
/// it.
pub proof fn law_reported_counts(counts: GameCounts<Real>)
    ensures
        ({
            let y = YakCounts::spec_from_counts(counts);
            let desired = counts.game_count_type.desired_yak_count as int;
            let alive = counts.yaks_with_player@[0] + counts.yaks_with_player@[1]
                + counts.yaks_with_player@[2] + counts.yaks_waiting@[0] + counts.yaks_waiting@[1];
            &&& desired <= alive ==> y.in_nursery == 0
            &&& desired > alive ==> y.in_nursery == (desired - alive) as i32
            &&& forall|j: int| 0 <= j < 3 ==> y.spec_with(#[trigger] job_at(j))
                == counts.yaks_with_player@[j] as i32
            &&& forall|i: int| 0 <= i < 2 ==> y.spec_in(#[trigger] place_at(i))
                == counts.yaks_waiting@[i] as i32
            &&& y.total_sheared == counts.game_count_type.sheared_yak_count as i32
        }),
{
}

/// The yak pipeline: the Breeder breeds yaks from nothing, the Driver takes
/// them from the Warehouse, the Shearer from the shearing shed; each job
/// but the first takes its yaks from the place before it in pipeline order.
pub proof fn law_pipeline(job: Job)
    ensures
        job.spec_depends_on() is None <==> job == Job::Breeder,
        job.spec_index() > 0 ==> job.spec_depends_on() == Some(place_at(job.spec_index() - 1)),
        job_at(job.spec_index()) == job,
{
}

/// The kind of a real-time message is read from its `type`: `ka` is a
/// keep-alive, `data` carries data, `error` an error, `complete` ends the
/// subscription; any other type is unknown.
pub proof fn law_message_kind(msg_type: Seq<char>)
    ensures
        spec_message_kind(msg_type) == WsMessageKind::KeepAlive <==> msg_type == "ka"@,
        spec_message_kind(msg_type) == WsMessageKind::Data <==> msg_type == "data"@,
        spec_message_kind(msg_type) == WsMessageKind::Error <==> msg_type == "error"@,
        spec_message_kind(msg_type) == WsMessageKind::Complete <==> msg_type == "complete"@,
        spec_message_kind(msg_type) == WsMessageKind::Unknown <==> (msg_type != "ka"@ && msg_type
            != "data"@ && msg_type != "error"@ && msg_type != "complete"@),
{
    reveal_strlit("ka");
    reveal_strlit("data");
    reveal_strlit("error");
    reveal_strlit("complete");
    assert("ka"@.len() == 2 && "data"@.len() == 4 && "error"@.len() == 5 && "complete"@.len() == 8);
    assert("data"@ != "ka"@);
    assert("error"@ != "ka"@ && "error"@ != "data"@);
    assert("complete"@ != "ka"@ && "complete"@ != "data"@ && "complete"@ != "error"@);
}

/// The DynamoDB requests each mutation makes: registering a player writes
/// the player and the counters; every other mutation updates the counters
/// once outside its transaction; buys of a bred yak read three items and
/// write two in a transaction, buys of a waiting yak query the place and
/// read (four reads) and write three; sells read two items and write three
/// in a transaction, but selling a sheared yak writes two.
pub proof fn law_mutation_profiles(m: Mutation)
    ensures
        spec_profile(m).std_writes == if m == Mutation::RegisterNewPlayer { 2u64 } else { 1u64 },
        m == Mutation::RegisterNewPlayer ==> spec_profile(m).std_reads == 0 && spec_profile(m).tx_writes
            == 0,
        m == Mutation::BuyBabyYak ==> spec_profile(m).std_reads == 3 && spec_profile(m).tx_writes == 2,
        (m == Mutation::BuyGrownYak || m == Mutation::BuyUnshearedYak) ==> spec_profile(m).std_reads
            == 4 && spec_profile(m).tx_writes == 3,
        (m == Mutation::SellGrownYak || m == Mutation::SellUnshearedYak) ==> spec_profile(m).std_reads
            == 2 && spec_profile(m).tx_writes == 3,
        m == Mutation::SellShearedYak ==> spec_profile(m).std_reads == 2 && spec_profile(m).tx_writes
            == 2,
{
}

/// The fee each job pays and the yaks a player has handled in each job are
/// the fields of that job: `breeder` / `yak_bred`, `driver` / `yak_driven`,
/// `shearer` / `yak_sheared`.
pub proof fn law_job_fields<M: Copy>(fees: JobFees<M>, player: Player<M>)
    ensures
        fees.spec_fee(Job::Breeder) == fees.breeder,
        fees.spec_fee(Job::Driver) == fees.driver,
        fees.spec_fee(Job::Shearer) == fees.shearer,
        player.spec_handled(Job::Breeder) == player.yak_bred,
        player.spec_handled(Job::Driver) == player.yak_driven,
        player.spec_handled(Job::Shearer) == player.yak_sheared,
{
}

/// The text of an API error names its kind and carries its details:
/// `network error: ..`, `GraphQL error [type]: message`, `parse error: ..`.
pub proof fn law_api_error_text(error: ApiError)
    ensures
        error matches ApiError::Network(e) ==> error.spec_message() == "network error: "@ + e@,
        error matches ApiError::GraphQL { error_type, message } ==> error.spec_message()
            == "GraphQL error ["@ + error_type@ + "]: "@ + message@,
        error matches ApiError::Parse(e) ==> error.spec_message() == "parse error: "@ + e@,
{
}

/// The names the GraphQL schema gives the game's values, and the mutations
/// that buy and sell a yak for each job: a Breeder buys a baby yak and sells
/// it grown, a Driver buys it grown and sells it unsheared, a Shearer buys
/// it unsheared and sells it sheared.
pub proof fn law_schema_names(job: Job, status: GameStatus, place: WaitingPlace)
    ensures
        job.spec_name() == match job {
            Job::Breeder => "BREEDER"@,
            Job::Driver => "DRIVER"@,
            Job::Shearer => "SHEARER"@,
        },
        status.spec_name() == match status {
            GameStatus::Reset => "RESET"@,
            GameStatus::Started => "STARTED"@,
            GameStatus::Stopped => "STOPPED"@,
        },
        place.spec_name() == match place {
            WaitingPlace::Warehouse => "WAREHOUSE"@,
            WaitingPlace::ShearingShed => "SHEARING_SHED"@,
        },
        job.spec_buy_mutation() == match job {
            Job::Breeder => "buyBabyYak"@,
            Job::Driver => "buyGrownYak"@,
            Job::Shearer => "buyUnshearedYak"@,
        },
        job.spec_sell_mutation() == match job {
            Job::Breeder => "sellGrownYak"@,
            Job::Driver => "sellUnshearedYak"@,
            Job::Shearer => "sellShearedYak"@,
        },
{
}

} // verus!
