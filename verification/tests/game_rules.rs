use yak_mania::counts::{CounterTarget, GameCountIndex, GameCounts, Real, Sampler, YakMovePlan};
use yak_mania::enums::{GameStatus, Job, WaitingPlace};
use yak_mania::game_update::GameUpdate;
use yak_mania::ids::{Id, Yak};
use yak_mania::players::{JobFees, Player, PlayerAssignment, PlayerWithSecret, WaitingYak};
use yak_mania::yak_counts::YakCounts;

fn counts(
    player_count: usize,
    desired_yak_count: usize,
    with: [usize; 3],
    waiting: [usize; 2],
) -> GameCounts<Real> {
    GameCounts {
        yaks_with_player: with,
        yaks_waiting: waiting,
        game_count_type: Real {
            player_count,
            desired_yak_count,
            sheared_yak_count: 0,
            sampler: None,
        },
    }
}

#[test]
fn status_cycle_reset_started_stopped() {
    assert!(GameStatus::Started.may_follow(None));
    assert!(GameStatus::Started.may_follow(Some(GameStatus::Reset)));
    assert!(GameStatus::Stopped.may_follow(Some(GameStatus::Started)));
    assert!(GameStatus::Reset.may_follow(Some(GameStatus::Stopped)));
    // scenario: reset while not stopped, stop while not started
    assert!(!GameStatus::Reset.may_follow(Some(GameStatus::Reset)));
    assert!(!GameStatus::Reset.may_follow(Some(GameStatus::Started)));
    assert!(!GameStatus::Stopped.may_follow(Some(GameStatus::Reset)));
    assert!(!GameStatus::Stopped.may_follow(None));
    assert!(!GameStatus::Reset.may_follow(None));
    assert!(!GameStatus::Started.may_follow(Some(GameStatus::Stopped)));
    assert_eq!(GameStatus::Reset.predecessor(), GameStatus::Stopped);
    assert_eq!(GameStatus::Started.predecessor(), GameStatus::Reset);
    assert_eq!(GameStatus::Stopped.predecessor(), GameStatus::Started);
    assert!(GameStatus::Started.accepts_missing_status());
    assert!(!GameStatus::Stopped.accepts_missing_status());
}

#[test]
fn status_and_job_names() {
    assert_eq!(GameStatus::Started.name(), "STARTED");
    assert_eq!(GameStatus::from_name("STOPPED"), Some(GameStatus::Stopped));
    assert_eq!(GameStatus::from_name("stopped"), None);
    assert_eq!(Job::Driver.name(), "DRIVER");
    assert_eq!(Job::from_name("SHEARER"), Some(Job::Shearer));
    assert_eq!(Job::from_name("Breeder"), None);
    assert_eq!(WaitingPlace::ShearingShed.name(), "SHEARING_SHED");
}

#[test]
fn jobs_depend_on_the_previous_place() {
    assert_eq!(Job::Breeder.depends_on(), None);
    assert_eq!(Job::Driver.depends_on(), Some(WaitingPlace::Warehouse));
    assert_eq!(Job::Shearer.depends_on(), Some(WaitingPlace::ShearingShed));
    assert_eq!(Job::all(), [Job::Breeder, Job::Driver, Job::Shearer]);
    assert_eq!(Job::Shearer.index(), 2);
    assert_eq!(WaitingPlace::all(), [WaitingPlace::Warehouse, WaitingPlace::ShearingShed]);
}

#[test]
fn sampler_detects_new_slot() {
    assert!(Sampler { update_ms: 1000, old_update_ms: 999 }.sampled());
    assert!(!Sampler { update_ms: 1249, old_update_ms: 1000 }.sampled());
    assert!(Sampler { update_ms: 1250, old_update_ms: 1249 }.sampled());
}

#[test]
fn counts_of_a_new_game() {
    let c = GameCounts::<Real>::with_player_count(4);
    assert_eq!(c.desired_yak_count(), 6);
    assert_eq!(c.sheared_yak_count(), 0);
    assert_eq!(c.total_yaks(), 0);
    assert!(!c.sampled());
    let c = GameCounts::<Real>::with_player_count(5);
    assert_eq!(c.desired_yak_count(), 7);
}

#[test]
fn reset_keeps_only_the_players() {
    let mut c = counts(8, 20, [1, 2, 3], [4, 5]);
    c.game_count_type.sheared_yak_count = 9;
    c.game_count_type.sampler = Some(Sampler { update_ms: 5000, old_update_ms: 1 });
    let r = c.reset();
    let fresh = GameCounts::<Real>::with_player_count(8);
    assert_eq!(r.yaks_with_player, fresh.yaks_with_player);
    assert_eq!(r.yaks_waiting, fresh.yaks_waiting);
    assert_eq!(r.desired_yak_count(), 12);
    assert_eq!(r.sheared_yak_count(), 0);
    assert!(r.game_count_type.sampler.is_none());
    assert_eq!(r.game_count_type.player_count, 8);
}

#[test]
fn counter_totals_and_access() {
    let c = counts(8, 20, [1, 2, 3], [4, 5]);
    assert_eq!(c.yaks_with_player(), 6);
    assert_eq!(c.yaks_waiting(), 9);
    assert_eq!(c.total_yaks(), 15);
    assert_eq!(c.yaks_with(Job::Driver), 2);
    assert_eq!(c.yaks_in(WaitingPlace::ShearingShed), 5);
    assert_eq!(c.count(GameCountIndex::Job(Job::Shearer)), 3);
    assert_eq!(c.count(GameCountIndex::WaitingPlace(WaitingPlace::Warehouse)), 4);
}

#[test]
fn counter_attribute_paths() {
    assert_eq!(GameCountIndex::Job(Job::Driver).attribute_path(), "yaks_with_player[1]");
    assert_eq!(
        GameCountIndex::WaitingPlace(WaitingPlace::ShearingShed).attribute_path(),
        "yaks_waiting[1]"
    );
    assert_eq!(GameCountIndex::Job(Job::Breeder).attribute_path(), "yaks_with_player[0]");
}

#[test]
fn job_diffs_at_game_start_push_breeders() {
    let d = GameCounts::<Real>::with_player_count(4).job_diffs();
    assert_eq!(d.player_count, 4);
    assert_eq!(d.diffs.diffs, [4, 0, 0]);
}

#[test]
fn job_diffs_of_a_balanced_game_are_zero() {
    let d = counts(3, 4, [1, 1, 1], [0, 0]).job_diffs();
    assert_eq!(d.diffs.diffs, [0, 0, 0]);
}

#[test]
fn job_diffs_follow_the_rounds_of_distribution() {
    // constraints [2, 100, 100] for 10 players: the Breeder takes its 2,
    // the next round adds the remaining players to the free jobs
    let d = counts(10, 202, [0, 0, 0], [100, 100]).job_diffs();
    assert_eq!(d.diffs.diffs, [2, 4, 4]);
    let d = counts(6, 9, [3, 0, 0], [2, 0]).job_diffs();
    assert_eq!(d.diffs.diffs, [1, 2, 0]);
    let d = counts(5, 7, [0, 2, 0], [0, 3]).job_diffs();
    assert_eq!(d.diffs.diffs, [2, 0, 1]);
}

#[test]
fn ideal_places_every_player_that_fits() {
    // 3 players, free spots [1, 5, 0]: Breeder 1, Driver 2
    let d = counts(3, 6, [0, 0, 0], [5, 0]).job_diffs();
    assert_eq!(d.diffs.diffs, [1, 2, 0]);
    // more players than spots: every spot is filled
    let d = counts(9, 2, [0, 0, 0], [1, 1]).job_diffs();
    assert_eq!(d.diffs.diffs, [0, 1, 1]);
}

#[test]
fn yak_counts_report_the_nursery() {
    let mut c = counts(8, 20, [1, 2, 3], [4, 5]);
    c.game_count_type.sheared_yak_count = 7;
    let y = c.yak_counts();
    assert_eq!(
        y,
        YakCounts {
            in_nursery: 5,
            with_breeders: 1,
            in_warehouse: 4,
            with_drivers: 2,
            in_shearingshed: 5,
            with_shearers: 3,
            total_sheared: 7,
        }
    );
    assert!(y.any_in_progress());
    assert!(!y.max_reached());
    let full = counts(8, 10, [1, 2, 3], [4, 5]).yak_counts();
    assert_eq!(full.in_nursery, 0);
    assert!(full.max_reached());
    assert_eq!(full.with(Job::Shearer), 3);
    assert_eq!(full.waiting_in(WaitingPlace::Warehouse), 4);
}

#[test]
fn yak_move_plans() {
    let w = GameCountIndex::WaitingPlace(WaitingPlace::Warehouse);
    let b = GameCountIndex::Job(Job::Breeder);
    assert_eq!(
        GameCounts::<Real>::move_yak_plan(None, Some(b)),
        YakMovePlan { decrement: None, increment: Some(CounterTarget::Count(b)), positive_guard: None }
    );
    assert_eq!(
        GameCounts::<Real>::move_yak_plan(Some(b), Some(w)),
        YakMovePlan {
            decrement: Some(b),
            increment: Some(CounterTarget::Count(w)),
            positive_guard: Some(b)
        }
    );
    assert_eq!(
        GameCounts::<Real>::move_yak_plan(Some(w), None),
        YakMovePlan {
            decrement: Some(w),
            increment: Some(CounterTarget::ShearedYaks),
            positive_guard: Some(w)
        }
    );
    assert_eq!(
        GameCounts::<Real>::move_yak_plan(None, None),
        YakMovePlan { decrement: None, increment: None, positive_guard: None }
    );
}

fn fees() -> JobFees<f64> {
    JobFees { breeder: 150.0, driver: 80.0, shearer: 20.0 }
}

#[test]
fn player_assignment_lifecycle() {
    let pws = PlayerWithSecret::<f64>::new("Player1".to_string(), "s3cret".to_string());
    assert_eq!(pws.secret(), "s3cret");
    let mut player: Player<f64> = pws.into_player();
    assert_eq!(player.name, "Player1");
    assert_eq!(player.balance, 0.0);
    assert!(player.assignment.is_none());
    let yak = Yak::new();
    player.start_new_assignment(Job::Driver, yak, fees());
    let a = player.assignment.unwrap();
    assert_eq!(a.job, Job::Driver);
    assert_eq!(a.fee, 80.0);
    assert_eq!(a.yak_id(), yak.id);
    let back = player.finish_assignment();
    assert_eq!(back, yak);
    assert_eq!(player.balance, 80.0);
    assert!(player.assignment.is_none());
    player.start_new_assignment(Job::Breeder, yak, fees());
    player.finish_assignment();
    assert_eq!(player.balance, 230.0);
    assert_eq!(player.handled(Job::Breeder), 0);
    assert_eq!(Player::<f64>::handled_field(Job::Shearer), "yak_sheared");
}

#[test]
fn player_reset_keeps_identity() {
    let pws = PlayerWithSecret::<f64>::new("Player2".to_string(), "pw".to_string());
    let id = pws.player().id;
    let mut player = pws.into_player();
    player.balance = 42.0;
    player.yak_bred = 3;
    player.start_new_assignment(Job::Shearer, Yak::new(), fees());
    let reset = PlayerWithSecret::from_parts(player, "pw".to_string()).reset();
    assert_eq!(reset.player().id, id);
    assert_eq!(reset.player().name, "Player2");
    assert_eq!(reset.player().balance, 0.0);
    assert_eq!(reset.player().yak_bred, 0);
    assert!(reset.player().assignment.is_none());
    assert_eq!(reset.secret(), "pw");
}

#[test]
fn new_players_get_distinct_ids() {
    let a = PlayerWithSecret::<f64>::new("a".to_string(), "x".to_string());
    let b = PlayerWithSecret::<f64>::new("b".to_string(), "x".to_string());
    assert_ne!(a.player().id, b.player().id);
}

#[test]
fn fees_by_job() {
    let mut f = fees();
    assert_eq!(f.fee(Job::Shearer), 20.0);
    f.set_fee(Job::Shearer, 25.0);
    assert_eq!(f.shearer, 25.0);
    assert_eq!(f.fee(Job::Breeder), 150.0);
    let a = PlayerAssignment::new(Job::Breeder, Yak { id: Id { value: 7 } }, 1.5);
    assert_eq!(a.into_yak().id.value, 7);
}

#[test]
fn random_waiting_yak_is_one_of_them() {
    assert!(WaitingYak::choose_random(Vec::new()).is_none());
    let yaks: Vec<WaitingYak> = (0..5)
        .map(|i| WaitingYak::new(Yak { id: Id { value: i } }, WaitingPlace::Warehouse))
        .collect();
    for _ in 0..20 {
        let w = WaitingYak::choose_random(yaks.clone()).unwrap();
        assert!(yaks.contains(&w));
        assert_eq!(w.location(), WaitingPlace::Warehouse);
        assert!(w.into_yak().id.value < 5);
    }
    let one = vec![WaitingYak::new(Yak { id: Id { value: 9 } }, WaitingPlace::ShearingShed)];
    assert_eq!(WaitingYak::choose_random(one).unwrap().into_yak().id.value, 9);
}

#[test]
fn game_update_builders() {
    let u: GameUpdate<f64> = GameUpdate::from_game_status(GameStatus::Started);
    assert_eq!(u.game_status, Some(GameStatus::Started));
    assert!(!u.sampled);
    let u = u.sampled();
    assert!(u.sampled);
    let u = u.with_sampled(false).with_job_fees(fees());
    assert!(!u.sampled);
    assert_eq!(u.job_fees.unwrap().driver, 80.0);
    let p = PlayerWithSecret::<f64>::new("p".to_string(), "s".to_string()).into_player();
    let u = GameUpdate::<f64>::empty().with_player(p).with_game_status(GameStatus::Stopped);
    assert_eq!(u.player.as_ref().unwrap().name, "p");
    assert_eq!(u.game_status, Some(GameStatus::Stopped));
    let y = YakCounts { in_nursery: 1, ..Default::default() };
    let u: GameUpdate<f64> = GameUpdate::from_yak_counts(y).with_yak_counts(y);
    assert_eq!(u.yak_counts, Some(y));
    let p = PlayerWithSecret::<f64>::new("q".to_string(), "s".to_string()).into_player();
    assert!(GameUpdate::from_player(p).player.is_some());
}

#[test]
fn game_counts_derived_keep_sampling() {
    let mut c = counts(4, 6, [1, 0, 0], [0, 0]);
    c.game_count_type.sampler = Some(Sampler { update_ms: 1000, old_update_ms: 900 });
    let u: GameUpdate<f64> =
        GameUpdate::from_game_status(GameStatus::Started).with_game_counts_derived(c, fees());
    assert!(u.sampled);
    assert_eq!(u.yak_counts.unwrap().with_breeders, 1);
    assert_eq!(u.yak_counts.unwrap().in_nursery, 5);
    c.game_count_type.sampler = Some(Sampler { update_ms: 1000, old_update_ms: 1100 });
    let u: GameUpdate<f64> = GameUpdate::empty().with_game_counts_derived(c, fees());
    assert!(!u.sampled);
    let u: GameUpdate<f64> = GameUpdate::empty().sampled().with_game_counts_derived(c, fees());
    assert!(u.sampled);
}

#[test]
fn player_reset_twice_is_reset_once() {
    let pws = PlayerWithSecret::<f64>::new("Player3".to_string(), "pw3".to_string());
    let mut player = pws.into_player();
    player.balance = 17.5;
    player.yak_driven = 2;
    let once = PlayerWithSecret::from_parts(player, "pw3".to_string()).reset();
    let twice = once.clone().reset();
    assert_eq!(twice.player().id, once.player().id);
    assert_eq!(twice.player().name, once.player().name);
    assert_eq!(twice.player().balance, once.player().balance);
    assert_eq!(twice.player().balance, 0.0);
    assert_eq!(twice.player().yak_driven, 0);
    assert!(twice.player().assignment.is_none());
    assert_eq!(twice.secret(), once.secret());
}
