use yak_mania::config::PlayerConfig;
use yak_mania::enums::Job;
use yak_mania::ids::Id;
use yak_mania::roster::{
    indices_to_register, lines_of, merge_roster, read_roster, sort_by_idx, trim_text, write_roster,
};

const ID_A: &str = "67e55044-10b1-426f-9247-bb680e5fe0c8";
const ID_B: &str = "2c5ea4c0-4067-11e9-8bad-9b1deb4d3b7d";

fn player(idx: usize, job: Job) -> PlayerConfig {
    PlayerConfig {
        idx,
        name: format!("Bot{idx}"),
        id: Id::parse(if idx % 2 == 0 { ID_A } else { ID_B }).unwrap(),
        secret: format!("secret-{idx}"),
        preferred_job: job,
    }
}

fn indices(players: &[PlayerConfig]) -> Vec<usize> {
    players.iter().map(|p| p.idx).collect()
}

#[test]
fn trim_removes_surrounding_whitespace() {
    assert_eq!(trim_text("  a b \t"), "a b");
    assert_eq!(trim_text("\u{3000}x\u{a0}"), "x");
    assert_eq!(trim_text(" \t "), "");
    assert_eq!(trim_text(""), "");
}

#[test]
fn lines_split_on_newlines() {
    assert_eq!(lines_of("a\nb\n"), vec!["a", "b", ""]);
    assert_eq!(lines_of(""), vec![""]);
    assert_eq!(lines_of("x"), vec!["x"]);
    assert_eq!(lines_of("\n\n"), vec!["", "", ""]);
}

#[test]
fn write_then_read_gives_the_players_back() {
    let players = vec![player(1, Job::Breeder), player(2, Job::Shearer), player(3, Job::Driver)];
    let text = write_roster(&players);
    assert_eq!(
        text,
        format!(
            "1 Bot1 {ID_B} secret-1 BREEDER\n2 Bot2 {ID_A} secret-2 SHEARER\n3 Bot3 {ID_B} secret-3 DRIVER\n"
        )
    );
    let (read, errors) = read_roster(&text);
    assert!(errors.is_empty());
    assert_eq!(read.len(), 3);
    for (a, b) in read.iter().zip(players.iter()) {
        assert_eq!(a.idx, b.idx);
        assert_eq!(a.name, b.name);
        assert_eq!(a.id.to_text(), b.id.to_text());
        assert_eq!(a.secret, b.secret);
        assert_eq!(a.preferred_job, b.preferred_job);
    }
}

#[test]
fn empty_roster_is_a_single_newline() {
    let text = write_roster(&Vec::new());
    assert_eq!(text, "\n");
    let (read, errors) = read_roster(&text);
    assert!(read.is_empty());
    assert!(errors.is_empty());
}

#[test]
fn read_skips_blank_lines_and_reports_bad_ones() {
    let content = format!("\n  4 Bot4 {ID_A} s4 DRIVER  \n\nnot a player\n5 Bot5 {ID_B} s5 COOK\n");
    let (read, errors) = read_roster(&content);
    assert_eq!(indices(&read), vec![4]);
    assert_eq!(read[0].preferred_job, Job::Driver);
    assert_eq!(errors.len(), 2);
    assert_eq!(errors[0].line_number, 4);
    assert_eq!(errors[0].message, "expected 5 fields, got 3: not a player");
    assert_eq!(errors[1].line_number, 5);
    assert!(errors[1].message.starts_with("invalid job: "));
}

#[test]
fn registration_indices_follow_the_existing_players() {
    assert_eq!(indices_to_register(2, 5), vec![3, 4, 5]);
    assert_eq!(indices_to_register(0, 1), vec![1]);
    assert!(indices_to_register(5, 5).is_empty());
    assert!(indices_to_register(7, 3).is_empty());
}

#[test]
fn sort_orders_by_index_and_keeps_every_player() {
    let sorted = sort_by_idx(vec![
        player(5, Job::Breeder),
        player(2, Job::Driver),
        player(9, Job::Shearer),
        player(2, Job::Shearer),
        player(1, Job::Breeder),
    ]);
    assert_eq!(indices(&sorted), vec![1, 2, 2, 5, 9]);
    // players with equal indices keep their order
    assert_eq!(sorted[1].preferred_job, Job::Driver);
    assert_eq!(sorted[2].preferred_job, Job::Shearer);
}

#[test]
fn merge_keeps_the_first_requested_players_and_adds_the_new_ones() {
    let loaded = vec![player(3, Job::Breeder), player(1, Job::Driver), player(2, Job::Shearer)];
    let merged = merge_roster(loaded.clone(), 2, Vec::new());
    assert_eq!(indices(&merged), vec![1, 3]);

    let registered = vec![player(5, Job::Driver), player(4, Job::Breeder)];
    let merged = merge_roster(loaded, 5, registered);
    assert_eq!(indices(&merged), vec![1, 2, 3, 4, 5]);
}
