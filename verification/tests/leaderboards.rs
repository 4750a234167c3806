use speedrun_com_api::common::Names;
use speedrun_com_api::leaderboards::{
    Color, Embeds, Guest, Leaderboard, NameStyle, Player, PlayerBorrow, Record, User,
};
use speedrun_com_api::response::Data;
use speedrun_com_api::runs::{PlayerRef, Players, Run, RunSystem, Times, UserRef};
use std::collections::HashMap;

fn user(id: &str, name: &str) -> User {
    User {
        id: id.to_string(),
        names: Names { international: name.to_string(), japanese: None, twitch: None },
        weblink: format!("https://www.speedrun.com/user/{}", name),
        name_style: NameStyle::Solid {
            color: Color { light: "#000000".to_string(), dark: "#ffffff".to_string() },
        },
        location: None,
    }
}

fn guest(name: &str) -> Guest {
    Guest { name: name.to_string() }
}

fn run(id: &str, players: Players) -> Run {
    Run {
        id: id.to_string(),
        weblink: format!("https://www.speedrun.com/run/{}", id),
        game: "o1y9wo6q".to_string(),
        category: "nxd1rk8q".to_string(),
        videos: None,
        comment: None,
        players,
        date: None,
        submitted: None,
        times: Times { primary: "PT1H".to_string(), primary_t_bits: 3600.0f64.to_bits() },
        system: RunSystem { emulated: false, platform: "rdjq4vwe".to_string(), region: None },
        splits: None,
        values: HashMap::new(),
    }
}

fn user_ref(id: &str) -> PlayerRef {
    PlayerRef::User(UserRef { id: id.to_string() })
}

fn names(players: &[PlayerBorrow<'_>]) -> Vec<String> {
    players.iter().map(|player| player.name().to_string()).collect()
}

fn board(runs: Vec<Run>, players: Option<Vec<Player>>) -> Leaderboard {
    Leaderboard {
        weblink: "https://www.speedrun.com/tww#Any".to_string(),
        runs: runs
            .into_iter()
            .enumerate()
            .map(|(index, run)| Record { place: index as u32 + 1, run })
            .collect(),
        players: players.map(|data| Data { data }),
    }
}

#[test]
fn records_come_with_their_players() {
    let leaderboard = board(
        vec![
            run("r1", Players::Refs(vec![user_ref("u2")])),
            run("r2", Players::Refs(vec![user_ref("u1"), PlayerRef::Guest(guest("Zoe"))])),
        ],
        Some(vec![
            Player::User(user("u1", "Ann")),
            Player::Guest(guest("Max")),
            Player::User(user("u2", "Bob")),
        ]),
    );
    let records = leaderboard.records_with_players();
    assert_eq!(records.len(), 2);
    assert_eq!(records[0].0.place, 1);
    assert_eq!(records[0].0.run.id, "r1");
    assert_eq!(names(&records[0].1), vec!["Bob"]);
    assert_eq!(records[1].0.place, 2);
    assert_eq!(records[1].0.run.id, "r2");
    assert_eq!(names(&records[1].1), vec!["Ann", "Zoe"]);
}

#[test]
fn unknown_users_are_left_out() {
    let leaderboard = board(
        vec![run(
            "r1",
            Players::Refs(vec![user_ref("u9"), PlayerRef::Guest(guest("Zoe")), user_ref("u1")]),
        )],
        Some(vec![Player::User(user("u1", "Ann"))]),
    );
    let records = leaderboard.records_with_players();
    assert_eq!(names(&records[0].1), vec!["Zoe", "Ann"]);
}

#[test]
fn without_embedded_players_only_guests_are_known() {
    let leaderboard = board(
        vec![run("r1", Players::Refs(vec![user_ref("u1"), PlayerRef::Guest(guest("Zoe"))]))],
        None,
    );
    let records = leaderboard.records_with_players();
    assert_eq!(records.len(), 1);
    assert_eq!(names(&records[0].1), vec!["Zoe"]);
}

#[test]
fn runs_with_embedded_players_name_none_by_reference() {
    let leaderboard = board(
        vec![run("r1", Players::Embedded { data: vec![Player::User(user("u1", "Ann"))] })],
        Some(vec![Player::User(user("u1", "Ann"))]),
    );
    let records = leaderboard.records_with_players();
    assert_eq!(records.len(), 1);
    assert!(records[0].1.is_empty());
}

#[test]
fn first_of_two_users_with_one_id_is_taken() {
    let leaderboard = board(
        vec![run("r1", Players::Refs(vec![user_ref("u1")]))],
        Some(vec![Player::User(user("u1", "Ann")), Player::User(user("u1", "Bob"))]),
    );
    let records = leaderboard.records_with_players();
    assert_eq!(names(&records[0].1), vec!["Ann"]);
}

#[test]
fn empty_leaderboard_has_no_records() {
    assert!(board(vec![], None).records_with_players().is_empty());
}

#[test]
fn name_of_a_borrowed_player() {
    let ann = user("u1", "Ann");
    let zoe = guest("Zoe");
    assert_eq!(PlayerBorrow::User(&ann).name(), "Ann");
    assert_eq!(PlayerBorrow::Guest(&zoe).name(), "Zoe");
}

#[test]
fn embeds_are_a_set_of_flags() {
    assert!(Embeds::empty().is_empty());
    assert!(Embeds::default().is_empty());
    assert!(!Embeds::players().is_empty());
    assert_eq!(Embeds::empty().bits(), 0);
    assert_eq!(Embeds::players().bits(), 1);
    assert_eq!(Embeds::all(), Embeds::players());
    assert!(Embeds::players().contains(Embeds::players()));
    assert!(Embeds::players().contains(Embeds::empty()));
    assert!(Embeds::empty().contains(Embeds::empty()));
    assert!(!Embeds::empty().contains(Embeds::players()));
    assert_eq!(Embeds::empty().union(Embeds::players()), Embeds::players());
    assert_eq!(Embeds::empty().union(Embeds::empty()), Embeds::empty());
}

#[test]
fn embeds_from_bits_knows_its_flags() {
    assert_eq!(Embeds::from_bits(0), Some(Embeds::empty()));
    assert_eq!(Embeds::from_bits(1), Some(Embeds::players()));
    assert_eq!(Embeds::from_bits(2), None);
    assert_eq!(Embeds::from_bits(255), None);
}

#[test]
fn embeds_name_their_flags() {
    assert_eq!(Embeds::empty().flag_names(), Vec::<&str>::new());
    assert_eq!(Embeds::players().flag_names(), vec!["players"]);
}
