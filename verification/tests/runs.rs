use speedrun_com_api::categories::{Category, CategoryKind};
use speedrun_com_api::common::Names;
use speedrun_com_api::endpoint::{Endpoint, Resource};
use speedrun_com_api::games::{
    Asset, Assets, Game, GameHeader, Rules, TimingMethod,
};
use speedrun_com_api::leaderboards::Embeds;
use speedrun_com_api::runs::{Players, Run, RunSystem, Splits, Times};
use std::collections::HashMap;

fn endpoint(resource: Resource, path: &[&str], query: &[(&str, &str)]) -> Endpoint {
    Endpoint {
        resource,
        path: path.iter().map(|segment| segment.to_string()).collect(),
        query: query.iter().map(|(name, value)| (name.to_string(), value.to_string())).collect(),
    }
}

fn run(splits: Option<Splits>, region: Option<&str>) -> Run {
    Run {
        id: "90y6pm7e".to_string(),
        weblink: "https://www.speedrun.com/run/90y6pm7e".to_string(),
        game: "o1y9wo6q".to_string(),
        category: "nxd1rk8q".to_string(),
        videos: None,
        comment: None,
        players: Players::Refs(vec![]),
        date: Some("2014-12-07".to_string()),
        submitted: None,
        times: Times { primary: "PT47M18S".to_string(), primary_t_bits: 2838.0f64.to_bits() },
        system: RunSystem {
            emulated: false,
            platform: "rdjq4vwe".to_string(),
            region: region.map(|region| region.to_string()),
        },
        splits,
        values: HashMap::new(),
    }
}

fn asset(name: &str) -> Asset {
    Asset { uri: format!("https://www.speedrun.com/themes/tww/{}.png", name), width: 64, height: 64 }
}

fn game() -> Game {
    Game {
        id: "o1y9wo6q".to_string(),
        names: Names {
            international: "The Legend of Zelda: The Wind Waker".to_string(),
            japanese: None,
            twitch: None,
        },
        abbreviation: "tww".to_string(),
        weblink: "https://www.speedrun.com/tww".to_string(),
        released: 2002,
        release_date: "2002-12-13".to_string(),
        assets: Assets {
            logo: asset("logo"),
            cover_tiny: asset("cover-32"),
            cover_small: asset("cover-64"),
            cover_medium: asset("cover-128"),
            cover_large: asset("cover-256"),
            icon: asset("favicon"),
            trophy_1st: asset("1st"),
            trophy_2nd: asset("2nd"),
            trophy_3rd: asset("3rd"),
            trophy_4th: None,
            background: None,
            foreground: None,
        },
        ruleset: Rules {
            show_milliseconds: false,
            require_verification: true,
            require_video: true,
            run_times: vec![TimingMethod::RealTime],
            default_time: TimingMethod::RealTime,
            emulators_allowed: false,
        },
        platforms: vec!["rdjq4vwe".to_string()],
        variables: None,
    }
}

#[test]
fn splits_id_is_the_last_segment_of_the_uri() {
    let splits = Splits { uri: "https://splits.io/api/v3/runs/4l2".to_string() };
    assert_eq!(splits.id(), Some("4l2"));
}

#[test]
fn splits_id_of_a_uri_without_slash_is_the_uri() {
    assert_eq!(Splits { uri: "4l2".to_string() }.id(), Some("4l2"));
    assert_eq!(Splits { uri: String::new() }.id(), Some(""));
}

#[test]
fn splits_id_of_a_uri_that_ends_in_a_slash_is_empty() {
    assert_eq!(Splits { uri: "https://splits.io/4l2/".to_string() }.id(), Some(""));
}

#[test]
fn run_splits_id() {
    let with = run(Some(Splits { uri: "https://splits.io/api/v3/runs/4l2".to_string() }), None);
    assert_eq!(with.splits_id(), Some("4l2"));
    assert_eq!(run(None, None).splits_id(), None);
}

#[test]
fn run_leads_to_its_game_and_category() {
    let run = run(None, None);
    assert_eq!(run.game(), endpoint(Resource::Games, &["o1y9wo6q"], &[]));
    assert_eq!(run.category(), endpoint(Resource::Categories, &["nxd1rk8q"], &[]));
}

#[test]
fn run_system_leads_to_platform_and_region() {
    let known = run(None, Some("pr184lqn"));
    assert_eq!(known.system.platform(), endpoint(Resource::Platforms, &["rdjq4vwe"], &[]));
    assert_eq!(known.system.region(), Some(endpoint(Resource::Regions, &["pr184lqn"], &[])));
    assert_eq!(run(None, None).system.region(), None);
}

#[test]
fn game_leads_to_its_categories() {
    assert_eq!(
        game().categories(),
        endpoint(Resource::Games, &["o1y9wo6q", "categories"], &[])
    );
    assert_eq!(Game::search("tww"), endpoint(Resource::Games, &[], &[("name", "tww")]));
}

#[test]
fn game_header_leads_to_the_game() {
    let header = GameHeader {
        id: "o1y9wo6q".to_string(),
        names: Names { international: "The Wind Waker".to_string(), japanese: None, twitch: None },
        abbreviation: "tww".to_string(),
        weblink: "https://www.speedrun.com/tww".to_string(),
    };
    assert_eq!(header.game(), endpoint(Resource::Games, &["o1y9wo6q"], &[]));
}

#[test]
fn category_leads_to_its_leaderboard() {
    let category = Category {
        id: "nxd1rk8q".to_string(),
        weblink: "https://www.speedrun.com/tww#Any".to_string(),
        name: "Any%".to_string(),
        kind: CategoryKind::PerGame,
        rules: None,
    };
    assert_eq!(
        category.leaderboard(&game(), Embeds::players()),
        endpoint(
            Resource::Leaderboards,
            &["o1y9wo6q", "category", "nxd1rk8q"],
            &[("embed", "players")]
        )
    );
    assert_eq!(
        category.leaderboard(&game(), Embeds::empty()).url(),
        Some("https://www.speedrun.com/api/v1/leaderboards/o1y9wo6q/category/nxd1rk8q".to_string())
    );
}

#[test]
fn time_in_seconds_keeps_its_bits() {
    let run = run(None, None);
    assert_eq!(f64::from_bits(run.times.primary_t_bits), 2838.0);
}
