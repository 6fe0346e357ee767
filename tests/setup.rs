use std::sync::Arc;

use planetwars_broker::adapter::RemoteBotSpec;
use planetwars_broker::command::Command;
use planetwars_broker::config::GlobalConfig;
use planetwars_broker::matches::{
    map_name_or_default, match_url, remote_match_players, Bot, BotVersion, MatchMap, MatchPlayer,
    MatchState, RunMatch,
};
use planetwars_broker::ranking::PlayerTokenizer;

fn config() -> Arc<GlobalConfig> {
    Arc::new(GlobalConfig {
        database_url: "postgres://localhost/planetwars".to_string(),
        python_runner_image: "python:3.10-slim-buster".to_string(),
        container_registry_url: "localhost:9001".to_string(),
        root_url: "http://localhost:3000".to_string(),
        bots_directory: "./data/bots".to_string(),
        match_logs_directory: "./data/matches".to_string(),
        maps_directory: "./data/maps".to_string(),
        registry_directory: "./data/registry".to_string(),
        registry_admin_password: "SECRET-REDACTED".to_string(),
        ranker_enabled: false,
    })
}

fn version(id: i32) -> BotVersion {
    BotVersion { id, bot_id: Some(1), code_bundle_path: None, container_digest: None }
}

#[test]
fn run_match_new_names_log_and_keeps_fields() {
    let cfg = config();
    let map = MatchMap { id: 4, name: "hex".to_string(), file_path: "hex.json".to_string() };
    let players = vec![
        MatchPlayer::BotSpec { spec: RemoteBotSpec { player_key: "k".to_string() } },
        MatchPlayer::BotVersion {
            bot: Some(Bot { id: 1, owner_id: None, name: "simplebot".to_string() }),
            version: version(12),
        },
    ];
    let m = RunMatch::new(cfg.clone(), true, map, players);
    let name = m.log_file_name();
    assert_eq!(name.len(), 20);
    assert!(name.ends_with(".log"));
    assert!(name[..16].chars().all(|c| c.is_ascii_alphanumeric()));
    assert!(m.is_public());
    assert_eq!(m.map().id, 4);
    assert_eq!(m.map().name, "hex");
    assert_eq!(m.players().len(), 2);
    assert!(Arc::ptr_eq(m.config(), &cfg));

    let other = RunMatch::new(cfg, false, MatchMap { id: 1, name: "a".to_string(), file_path: "a".to_string() }, Vec::new());
    assert_ne!(other.log_file_name(), m.log_file_name());
}

#[test]
fn match_records_follow_players() {
    let map = MatchMap { id: 8, name: "hex".to_string(), file_path: "hex.json".to_string() };
    let players = vec![
        MatchPlayer::BotVersion { bot: None, version: version(3) },
        MatchPlayer::BotSpec { spec: RemoteBotSpec { player_key: "k".to_string() } },
        MatchPlayer::BotVersion { bot: None, version: version(5) },
    ];
    let m = RunMatch::new(config(), false, map, players);
    assert_eq!(m.match_players_data(), vec![Some(3), None, Some(5)]);
    let data = m.new_match_data();
    assert_eq!(data.state, MatchState::Playing);
    assert_eq!(&data.log_path, m.log_file_name());
    assert!(!data.is_public);
    assert_eq!(data.map_id, Some(8));
}

#[test]
fn tokenizer_numbers_ids_consecutively() {
    let mut t = PlayerTokenizer::new();
    assert_eq!(t.player_count(), 0);
    assert_eq!(t.tokenize(42), 0);
    assert_eq!(t.tokenize(-7), 1);
    assert_eq!(t.tokenize(42), 0);
    assert_eq!(t.tokenize(100), 2);
    assert_eq!(t.tokenize(-7), 1);
    assert_eq!(t.player_count(), 3);
    assert_eq!(t.detokenize(0), 42);
    assert_eq!(t.detokenize(1), -7);
    assert_eq!(t.detokenize(2), 100);
}

#[test]
fn command_argv_is_kept() {
    let c = Command::Argv(vec!["python".to_string(), "bot.py".to_string()]);
    assert!(c.has_argv());
    assert_eq!(c.to_argv(), vec!["python".to_string(), "bot.py".to_string()]);
}

#[test]
fn command_string_is_split_like_a_shell() {
    let c = Command::String("python bot.py --name 'my bot' \"x y\"".to_string());
    let expected = vec![
        "python".to_string(),
        "bot.py".to_string(),
        "--name".to_string(),
        "my bot".to_string(),
        "x y".to_string(),
    ];
    assert_eq!(c.to_argv(), expected);
    assert_eq!(c.try_to_argv(), Some(expected));
}

#[test]
fn malformed_command_string_has_no_argv() {
    let c = Command::String("python 'bot.py".to_string());
    assert!(!c.has_argv());
    assert_eq!(c.try_to_argv(), None);
    let d = Command::String("python bot.py \\".to_string());
    assert_eq!(d.try_to_argv(), None);
}

#[test]
fn match_url_joins_root_and_id() {
    assert_eq!(match_url(&"http://localhost:3000".to_string(), 42), "http://localhost:3000/matches/42");
    assert_eq!(match_url(&"https://planetwars.dev".to_string(), 0), "https://planetwars.dev/matches/0");
    assert_eq!(match_url(&String::new(), -7), "/matches/-7");
    assert_eq!(match_url(&"r".to_string(), i32::MIN), "r/matches/-2147483648");
}

#[test]
fn empty_map_name_defaults_to_hex() {
    assert_eq!(map_name_or_default(&String::new()), "hex");
    assert_eq!(map_name_or_default(&"spiral".to_string()), "spiral");
}

#[test]
fn remote_match_players_put_remote_bot_first() {
    let players = remote_match_players(
        RemoteBotSpec { player_key: "key".to_string() },
        Bot { id: 2, owner_id: Some(9), name: "opponent".to_string() },
        version(17),
    );
    assert_eq!(players.len(), 2);
    match &players[0] {
        MatchPlayer::BotSpec { spec } => assert_eq!(spec.player_key, "key"),
        _ => panic!("the remote bot comes first"),
    }
    match &players[1] {
        MatchPlayer::BotVersion { bot: Some(bot), version } => {
            assert_eq!(bot.name, "opponent");
            assert_eq!(version.id, 17);
        }
        _ => panic!("the opponent comes second"),
    }
}
