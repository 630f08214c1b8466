use yak_mania::api::{graphql_outcome, retry_decision, ApiError, GraphqlErrorFields, RetryDecision};
use yak_mania::bot::{assigned_yak_id, available_jobs, BotResult, BotState, BotStep};
use yak_mania::config::PlayerConfig;
use yak_mania::cost::{ddb_totals, qty_scale, CostMetrics, Mutation, QtyScale};
use yak_mania::enums::{GameStatus, Job};
use yak_mania::game_update::GameUpdate;
use yak_mania::ids::{Id, Yak};
use yak_mania::players::{JobFees, PlayerWithSecret};
use yak_mania::subscription::{update_filter, SubscriberIdentity, UpdateFilter};
use yak_mania::text::{split_whitespace, usize_text};
use yak_mania::websocket::{
    connection_timeout_ms, derive_ws_endpoint, is_connection_ack, message_kind, next_backoff_ms,
    replace_text, start_ack_step, AckStep, WebSocketError, WsMessageKind,
};
use yak_mania::yak_counts::YakCounts;

fn graphql(error_type: &str) -> ApiError {
    ApiError::GraphQL { error_type: error_type.to_string(), message: "m".to_string() }
}

#[test]
fn api_error_kinds() {
    assert!(graphql("NoMoreYak").is_no_more_yak());
    assert!(!graphql("NoMoreYak").is_invalid_game_status());
    assert!(graphql("InvalidGameStatus").is_invalid_game_status());
    assert!(graphql("InvalidPlayerStatus").is_invalid_player_status());
    assert!(!ApiError::Network("NoMoreYak".to_string()).is_no_more_yak());
}

#[test]
fn api_error_messages() {
    assert_eq!(ApiError::Network("timeout".to_string()).message(), "network error: timeout");
    assert_eq!(
        ApiError::GraphQL { error_type: "NoMoreYak".to_string(), message: "none left".to_string() }
            .message(),
        "GraphQL error [NoMoreYak]: none left"
    );
    assert_eq!(ApiError::Parse("bad".to_string()).message(), "parse error: bad");
}

#[test]
fn graphql_replies() {
    let r: Result<u32, ApiError> = graphql_outcome(None, Some(5));
    assert_eq!(r.unwrap(), 5);
    let r: Result<u32, ApiError> = graphql_outcome(None, None);
    match r {
        Err(ApiError::Parse(e)) => assert_eq!(e, "missing 'data' field in response"),
        _ => panic!("expected a parse error"),
    }
    let r: Result<u32, ApiError> = graphql_outcome(
        Some(GraphqlErrorFields { error_type: None, message: None }),
        Some(5),
    );
    match r {
        Err(ApiError::GraphQL { error_type, message }) => {
            assert_eq!(error_type, "Unknown");
            assert_eq!(message, "no message");
        }
        _ => panic!("expected a GraphQL error"),
    }
    let r: Result<u32, ApiError> = graphql_outcome(
        Some(GraphqlErrorFields {
            error_type: Some("NoMoreYak".to_string()),
            message: Some("empty".to_string()),
        }),
        None,
    );
    assert!(r.unwrap_err().is_no_more_yak());
}

#[test]
fn mutations_by_job() {
    assert_eq!(Job::Breeder.buy_mutation(), "buyBabyYak");
    assert_eq!(Job::Driver.buy_mutation(), "buyGrownYak");
    assert_eq!(Job::Shearer.buy_mutation(), "buyUnshearedYak");
    assert_eq!(Job::Breeder.sell_mutation(), "sellGrownYak");
    assert_eq!(Job::Driver.sell_mutation(), "sellUnshearedYak");
    assert_eq!(Job::Shearer.sell_mutation(), "sellShearedYak");
}

#[test]
fn retries_of_failed_mutations() {
    let net = ApiError::Network("down".to_string());
    assert_eq!(retry_decision(&net, 0), RetryDecision::RetryNetwork);
    assert_eq!(retry_decision(&net, 2), RetryDecision::RetryNetwork);
    assert_eq!(retry_decision(&net, 3), RetryDecision::GiveUp);
    assert_eq!(retry_decision(&graphql("Oops"), 0), RetryDecision::RetryGraphql);
    assert_eq!(retry_decision(&graphql("Oops"), 1), RetryDecision::GiveUp);
    assert_eq!(retry_decision(&graphql("NoMoreYak"), 0), RetryDecision::GiveUp);
    assert_eq!(retry_decision(&graphql("InvalidPlayerStatus"), 0), RetryDecision::GiveUp);
    assert_eq!(retry_decision(&ApiError::Parse("x".to_string()), 0), RetryDecision::GiveUp);
}

fn config() -> PlayerConfig {
    PlayerConfig {
        idx: 12,
        name: "Bot12".to_string(),
        id: Id::parse("67e55044-10b1-426f-9247-bb680e5fe0c8").unwrap(),
        secret: "2c5ea4c0-4067-11e9-8bad-9b1deb4d3b7d".to_string(),
        preferred_job: Job::Driver,
    }
}

#[test]
fn roster_line_round_trip() {
    let c = config();
    let line = c.to_line();
    assert_eq!(
        line,
        "12 Bot12 67e55044-10b1-426f-9247-bb680e5fe0c8 2c5ea4c0-4067-11e9-8bad-9b1deb4d3b7d DRIVER"
    );
    let back = PlayerConfig::from_line(&line).unwrap();
    assert_eq!(back.idx, 12);
    assert_eq!(back.name, "Bot12");
    assert_eq!(back.id, c.id);
    assert_eq!(back.secret, c.secret);
    assert_eq!(back.preferred_job, Job::Driver);
}

#[test]
fn roster_line_errors() {
    assert_eq!(
        PlayerConfig::from_line("1 a b c").unwrap_err(),
        "expected 5 fields, got 4: 1 a b c"
    );
    assert!(PlayerConfig::from_line("x Bot1 67e55044-10b1-426f-9247-bb680e5fe0c8 s DRIVER")
        .unwrap_err()
        .starts_with("invalid idx: "));
    assert!(PlayerConfig::from_line("1 Bot1 nope s DRIVER").unwrap_err().starts_with("invalid ID: "));
    assert_eq!(
        PlayerConfig::from_line("1 Bot1 67e55044-10b1-426f-9247-bb680e5fe0c8 s PILOT").unwrap_err(),
        "invalid job: InvalidStr: `PILOT` is an invalid value for enum Job"
    );
    let c = PlayerConfig::from_line("  +7\tBot7   67E55044-10B1-426F-9247-BB680E5FE0C8 s SHEARER ")
        .unwrap();
    assert_eq!(c.idx, 7);
    assert_eq!(c.preferred_job, Job::Shearer);
    assert_eq!(c.id.to_text(), "67e55044-10b1-426f-9247-bb680e5fe0c8");
}

#[test]
fn text_helpers() {
    assert_eq!(usize_text(0), "0");
    assert_eq!(usize_text(4096), "4096");
    assert_eq!(split_whitespace(" a  bc\u{3000}d\n"), vec!["a", "bc", "d"]);
    assert!(split_whitespace("   ").is_empty());
}

fn line_with_idx(idx: &str) -> String {
    format!("{idx} Bot7 67e55044-10b1-426f-9247-bb680e5fe0c8 s7 SHEARER")
}

#[test]
fn roster_line_index_parsing() {
    assert_eq!(PlayerConfig::from_line(&line_with_idx("+42")).unwrap().idx, 42);
    let err = PlayerConfig::from_line(&line_with_idx("-1")).unwrap_err();
    assert_eq!(err, format!("invalid idx: {}", "-1".parse::<usize>().unwrap_err()));
    let err = PlayerConfig::from_line(&line_with_idx("99999999999999999999999")).unwrap_err();
    assert_eq!(
        err,
        format!("invalid idx: {}", "99999999999999999999999".parse::<usize>().unwrap_err())
    );
}

#[test]
fn roster_line_id_parsing() {
    let err = PlayerConfig::from_line("3 Bot3 not-a-uuid s3 DRIVER").unwrap_err();
    assert_eq!(err, format!("invalid ID: {}", uuid::Uuid::parse_str("not-a-uuid").unwrap_err()));
}

#[test]
fn ids_text_round_trip() {
    let id = Id::new();
    let text = id.to_text();
    assert_eq!(text.len(), 36);
    assert_eq!(Id::parse(&text).unwrap(), id);
    assert_eq!(Id { value: 0 }.to_text(), "00000000-0000-0000-0000-000000000000");
    assert!(Id::parse("123").is_err());
    assert_ne!(Yak::new(), Yak::new());
}

fn state() -> BotState<f64> {
    BotState::new(&config())
}

#[test]
fn bot_starts_idle() {
    let s = state();
    assert_eq!(s.game_status, GameStatus::Reset);
    assert_eq!(s.balance, 0.0);
    assert!(s.current_work.is_none());
    assert_eq!(s.name, "Bot12");
    assert_eq!(s.next_step(), BotStep::WaitForStart);
}

fn player_update(id: Id, balance: f64) -> GameUpdate<f64> {
    let mut p = PlayerWithSecret::<f64>::new("p".to_string(), "s".to_string()).into_player();
    p.id = id;
    p.balance = balance;
    GameUpdate::from_player(p)
}

#[test]
fn bot_learns_from_updates() {
    let mut s = state();
    let counts = YakCounts { in_nursery: 3, in_warehouse: 1, ..Default::default() };
    s.apply_update(
        &GameUpdate::from_game_status(GameStatus::Started)
            .with_yak_counts(counts)
            .with_job_fees(JobFees { breeder: 1.0, driver: 2.0, shearer: 3.0 }),
    );
    assert_eq!(s.game_status, GameStatus::Started);
    assert_eq!(s.yak_counts, counts);
    assert_eq!(s.job_fees.driver, 2.0);
    assert_eq!(s.next_step(), BotStep::Play);
    s.apply_update(&player_update(Id { value: 1 }, 99.0));
    assert_eq!(s.balance, 0.0);
    s.apply_update(&player_update(s.player_id, 55.0));
    assert_eq!(s.balance, 55.0);
    s.start_work(Job::Driver, Id { value: 3 });
    assert_eq!(s.next_step(), BotStep::FinishCurrentJob);
    s.apply_update(&GameUpdate::from_game_status(GameStatus::Stopped));
    assert_eq!(s.next_step(), BotStep::FinishCurrentJob);
    s.apply_update(&GameUpdate::from_game_status(GameStatus::Reset));
    assert_eq!(s.balance, 0.0);
    assert!(s.current_work.is_none());
    assert_eq!(s.next_step(), BotStep::WaitForStart);
}

#[test]
fn bot_learns_from_its_mutations() {
    let mut s = state();
    s.apply_mutation_response(&player_update(Id { value: 1 }, 12.5));
    assert_eq!(s.balance, 12.5);
    s.apply_mutation_response(&GameUpdate::from_game_status(GameStatus::Stopped));
    assert_eq!(s.game_status, GameStatus::Stopped);
    assert_eq!(s.balance, 12.5);
}

#[test]
fn bot_work_and_results() {
    let mut s = state();
    s.start_work(Job::Shearer, Id { value: 8 });
    assert_eq!(s.take_work(), Some((Job::Shearer, Id { value: 8 })));
    assert!(s.take_work().is_none());
    s.record_completed(Job::Shearer);
    s.record_completed(Job::Shearer);
    s.record_completed(Job::Breeder);
    let r: BotResult<f64> = BotResult::from_state(s);
    assert_eq!(r.jobs_completed, [1, 0, 2]);
    assert_eq!(r.name, "Bot12");
    assert_eq!(r.preferred_job, Job::Driver);
}

#[test]
fn bot_reads_the_assigned_yak() {
    let yak = Yak { id: Id { value: 77 } };
    let mut p = PlayerWithSecret::<f64>::new("p".to_string(), "s".to_string()).into_player();
    p.start_new_assignment(Job::Breeder, yak, JobFees { breeder: 1.0, driver: 1.0, shearer: 1.0 });
    assert_eq!(assigned_yak_id(&GameUpdate::from_player(p)), yak.id);
    let fresh = assigned_yak_id(&GameUpdate::<f64>::empty());
    assert_ne!(fresh, assigned_yak_id(&GameUpdate::<f64>::empty()));
}

#[test]
fn jobs_available_to_bots() {
    let all = YakCounts { in_nursery: 2, in_warehouse: 1, in_shearingshed: 4, ..Default::default() };
    assert_eq!(available_jobs(&all), vec![Job::Breeder, Job::Driver, Job::Shearer]);
    let drained = YakCounts { in_nursery: 0, in_warehouse: 0, in_shearingshed: 1, ..Default::default() };
    assert_eq!(available_jobs(&drained), vec![Job::Shearer]);
    assert!(available_jobs(&YakCounts::default()).is_empty());
}

#[test]
fn dynamodb_capacity_totals() {
    let t = ddb_totals([1, 2, 0, 0, 0, 0, 3]);
    assert_eq!(t.std_reads, 0 + 6 + 6);
    assert_eq!(t.std_writes, 2 + 2 + 3);
    assert_eq!(t.tx_writes, 0 + 4 + 6);
    assert_eq!(Mutation::BuyGrownYak.profile().std_reads, 4);
    let _metrics = CostMetrics::new();
}

#[test]
fn quantity_scales() {
    assert_eq!(qty_scale(999), QtyScale::Units);
    assert_eq!(qty_scale(1_000), QtyScale::Thousands);
    assert_eq!(qty_scale(999_999), QtyScale::Thousands);
    assert_eq!(qty_scale(1_000_000), QtyScale::Millions);
}

#[test]
fn websocket_protocol_decisions() {
    assert_eq!(message_kind("ka"), WsMessageKind::KeepAlive);
    assert_eq!(message_kind("data"), WsMessageKind::Data);
    assert_eq!(message_kind("error"), WsMessageKind::Error);
    assert_eq!(message_kind("complete"), WsMessageKind::Complete);
    assert_eq!(message_kind(""), WsMessageKind::Unknown);
    assert!(is_connection_ack("connection_ack"));
    assert!(!is_connection_ack("ka"));
    assert_eq!(connection_timeout_ms(None), 300_000);
    assert_eq!(connection_timeout_ms(Some(1234)), 1234);
    assert_eq!(start_ack_step("start_ack", "id1", "id1"), AckStep::Acknowledged);
    assert_eq!(start_ack_step("start_ack", "id2", "id1"), AckStep::KeepWaiting);
    assert_eq!(start_ack_step("error", "", "id1"), AckStep::Failed);
    assert_eq!(start_ack_step("ka", "", "id1"), AckStep::KeepWaiting);
    assert_eq!(next_backoff_ms(1000), 2000);
    assert_eq!(next_backoff_ms(16000), 30000);
    assert_eq!(next_backoff_ms(30000), 30000);
    assert_eq!(
        WebSocketError::Connection("x".to_string()).message(),
        "WebSocket connection error: x"
    );
    assert_eq!(WebSocketError::Protocol("y".to_string()).message(), "WebSocket protocol error: y");
}

#[test]
fn websocket_endpoint() {
    let e = derive_ws_endpoint("https://abc.appsync-api.us-east-1.amazonaws.com/graphql", "k").unwrap();
    assert_eq!(e.authority, "abc.appsync-realtime-api.us-east-1.amazonaws.com");
    assert_eq!(
        e.path_and_query,
        "/graphql?header=eyJob3N0IjoiYWJjLmFwcHN5bmMtYXBpLnVzLWVhc3QtMS5hbWF6b25hd3MuY29tIiwieC1hcGkta2V5IjoiayJ9&payload=e30="
    );
    match derive_ws_endpoint("not a url", "k") {
        Err(WebSocketError::Connection(m)) => {
            assert_eq!(m, format!("invalid URL: {}", url::Url::parse("not a url").unwrap_err()))
        }
        _ => panic!("expected an invalid URL"),
    }
    match derive_ws_endpoint("mailto:someone@example.com", "k") {
        Err(WebSocketError::Connection(m)) => assert_eq!(m, "no host in URL"),
        _ => panic!("expected a URL without host"),
    }
    assert_eq!(replace_text("aXaXa", "X", "YY"), "aYYaYYa");
    assert_eq!(replace_text("aaa", "aa", "b"), "ba");
}

#[test]
fn subscribers_filters() {
    let admin = SubscriberIdentity::Cognito {
        groups: Some(vec!["Players".to_string(), "Admins".to_string()]),
    };
    assert_eq!(update_filter(&admin), UpdateFilter::All);
    let player = SubscriberIdentity::Cognito { groups: Some(vec!["Players".to_string()]) };
    assert_eq!(update_filter(&player), UpdateFilter::SampledOnly);
    assert_eq!(update_filter(&SubscriberIdentity::Cognito { groups: None }), UpdateFilter::SampledOnly);
    assert_eq!(update_filter(&SubscriberIdentity::Other), UpdateFilter::SampledOnly);
}

#[test]
fn fresh_ids_are_version_4_uuids() {
    for _ in 0..16 {
        let id = Id::new();
        assert_eq!((id.value >> 76) & 0xF, 4);
        assert_eq!((id.value >> 62) & 0x3, 0b10);
        assert_eq!(id.to_text().as_bytes()[14], b'4');
        let yak = Yak::new();
        assert_eq!((yak.id.value >> 76) & 0xF, 4);
        assert_eq!((yak.id.value >> 62) & 0x3, 0b10);
    }
}

#[test]
fn bot_buy_and_sell_replies() {
    let mut s = state();
    let failed: Result<GameUpdate<f64>, ApiError> = Err(ApiError::Network("down".to_string()));
    assert!(!s.after_buy(Job::Driver, &failed));
    assert!(s.current_work.is_none());

    let yak = Yak::new();
    let mut player = PlayerWithSecret::<f64>::new("Bot12".to_string(), "s".to_string()).into_player();
    player.balance = 9.0;
    player.start_new_assignment(Job::Driver, yak, JobFees { breeder: 1.0, driver: 2.0, shearer: 3.0 });
    let bought: Result<GameUpdate<f64>, ApiError> = Ok(GameUpdate::from_player(player));
    assert!(s.after_buy(Job::Driver, &bought));
    assert_eq!(s.current_work, Some((Job::Driver, yak.id)));
    assert_eq!(s.balance, 9.0);

    let work = s.take_work().unwrap();
    assert_eq!(work, (Job::Driver, yak.id));
    s.after_sell(Job::Driver, &failed);
    assert_eq!(s.jobs_completed, [0, 0, 0]);
    let sold: Result<GameUpdate<f64>, ApiError> = Ok(GameUpdate::from_game_status(GameStatus::Stopped));
    s.after_sell(Job::Driver, &sold);
    assert_eq!(s.jobs_completed, [0, 1, 0]);
    assert_eq!(s.game_status, GameStatus::Stopped);
    assert!(s.current_work.is_none());
}
