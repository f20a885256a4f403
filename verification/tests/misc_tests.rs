//! Tests of connection status values, endpoint addresses, the path layout,
//! the cue tables, and the backend configuration.

use scout_core::backend::{BackendConfig, Config};
use scout_core::clips::{select_sound_pack, summarize, SoundClip, SoundPack as ClipPack, SoundPackRegistry};
use scout_core::cues::from_custom;
use scout_core::engine::{ConditionLogic, EventType, RuleCondition, SelectionMode, SoundEntry, SoundPool, SoundRule, SoundSource, UNIT_VOLUME};
use scout_core::roster::{GameContext, PlayerInfo};
use scout_core::context::SoundEvent;
use scout_core::cues::{classify_override, select_cue_with_context, SoundCue, SoundPack};
use scout_core::context::SoundEventContext;
use scout_core::events::json_message;
use scout_core::lcu::{LcuConnection, LcuStatus};
use scout_core::paths::AppPaths;
use scout_core::roster::LiveClientStatus;

#[test]
fn test_sound_event_keys() {
    assert_eq!(SoundEvent::Kill.key(), "kill");
    assert_eq!(SoundEvent::GameStart.key(), "gameStart");
    assert_eq!(SoundEvent::GameEnd.key(), "gameEnd");
}

#[test]
fn test_base_pack_contains_keys() {
    let pack = SoundPack::base("/data/cache/sounds/base-beep.wav");
    for key in [
        "gameStart",
        "firstBlood",
        "kill",
        "multiKill",
        "objective",
        "ace",
        "gameEnd",
    ] {
        assert!(pack.cue_for(key).is_some());
    }
}

#[test]
fn test_json_message_format() {
    let message = json_message(5, "/lol-gameflow/v1/gameflow-phase");
    assert_eq!(message, r#"[5, "/lol-gameflow/v1/gameflow-phase"]"#);
}

#[test]
fn test_lcu_status_creation() {
    let status = LcuStatus {
        connected: false,
        summoner_name: None,
        in_game: false,
    };
    assert!(!status.connected);
    assert!(status.summoner_name.is_none());
    assert!(!status.in_game);
}

#[test]
fn lcu_test_lcu_status_connected() {
    let status = LcuStatus {
        connected: true,
        summoner_name: Some("TestSummoner".to_string()),
        in_game: true,
    };
    assert!(status.connected);
    assert_eq!(status.summoner_name, Some("TestSummoner".to_string()));
    assert!(status.in_game);
}

#[test]
fn test_lcu_connection_url_generation() {
    let port: u16 = 12345;
    let ws_url = format!("wss://127.0.0.1:{port}");
    assert_eq!(ws_url, "wss://127.0.0.1:12345");
}

#[test]
fn test_base_url_format() {
    let port = 54321_u16;
    let url = format!("https://127.0.0.1:{port}");
    assert_eq!(url, "https://127.0.0.1:54321");
}

#[test]
fn lcu_connection_builds_its_addresses() {
    let conn = LcuConnection::with_port(2999, String::new());
    assert_eq!(conn.base_url, "https://127.0.0.1:2999");
    assert_eq!(conn.get_websocket_url(), "wss://127.0.0.1:2999");
}

#[test]
fn auth_header_encodes_the_token() {
    let without = LcuConnection::with_port(2999, String::new());
    assert_eq!(without.get_auth_header(), "Basic ");

    // base64 of "riot:x"
    let with = LcuConnection::with_port(2999, "x".to_string());
    assert_eq!(with.get_auth_header(), "Basic cmlvdDp4");
}

#[test]
fn test_live_client_status_default() {
    let status = LiveClientStatus {
        in_game: false,
        summoner_name: None,
        champion_name: None,
    };
    assert!(!status.in_game);
    assert!(status.summoner_name.is_none());
}

#[test]
fn test_game_context_is_local_player() {
    let context = GameContext {
        local_player_name: "TestPlayer".to_string(),
        local_player_team: "ORDER".to_string(),
        players: Vec::new(),
        game_mode: "CLASSIC".to_string(),
        map_name: "Summoner's Rift".to_string(),
    };

    assert!(context.is_local_player("TestPlayer"));
    // the comparison respects case
    assert!(!context.is_local_player("testplayer"));
    assert!(!context.is_local_player("OtherPlayer"));
}

#[test]
fn test_game_context_team_check() {
    let players = vec![
        PlayerInfo {
            summoner_name: "Ally1".to_string(),
            champion_name: "Ahri".to_string(),
            team: "ORDER".to_string(),
            is_bot: false,
        },
        PlayerInfo {
            summoner_name: "Enemy1".to_string(),
            champion_name: "Zed".to_string(),
            team: "CHAOS".to_string(),
            is_bot: false,
        },
    ];

    let context = GameContext {
        local_player_name: "LocalPlayer".to_string(),
        local_player_team: "ORDER".to_string(),
        players,
        game_mode: "CLASSIC".to_string(),
        map_name: "Summoner's Rift".to_string(),
    };

    assert!(context.is_ally("Ally1"));
    assert!(!context.is_ally("Enemy1"));
    assert!(context.is_enemy("Enemy1"));
    assert!(!context.is_enemy("Ally1"));
}

#[test]
fn test_lcu_status_default() {
    let status = LcuStatus {
        connected: false,
        summoner_name: None,
        in_game: false,
    };
    assert!(!status.connected);
    assert!(status.summoner_name.is_none());
    assert!(!status.in_game);
}

#[test]
fn tests_test_lcu_status_connected() {
    let status = LcuStatus {
        connected: true,
        summoner_name: Some("TestSummoner".to_string()),
        in_game: true,
    };
    assert!(status.connected);
    assert_eq!(status.summoner_name, Some("TestSummoner".to_string()));
    assert!(status.in_game);
}

#[test]
fn test_error_message_formatting() {
    let error = "Test error message";
    let formatted = format!("Error: {error}");
    assert_eq!(formatted, "Error: Test error message");
}

#[test]
fn test_result_unwrap_alternative() {
    let value = 42_i32;
    assert_eq!(value, 42);
}

#[test]
fn test_path_structure() {
    let paths = AppPaths::new("/test/app/data".to_string());

    assert_eq!(paths.config_file(), "/test/app/data/config.json");
    assert_eq!(paths.logs_dir(), "/test/app/data/logs");
    assert_eq!(paths.debug_log_file(), "/test/app/data/logs/scout-debug.log");
    assert_eq!(paths.base_beep_file(), "/test/app/data/cache/sounds/base-beep.wav");
    assert_eq!(paths.youtube_cache_dir(), "/test/app/data/cache/youtube-audio");
}

#[test]
fn test_backend_status() {
    let config = BackendConfig {
        api_token: "test-token".to_string(),
        backend_url: "https://api.example.com".to_string(),
        client_id: "test-client-id".to_string(),
    };

    let status = config.status();
    assert!(status.connected);
    assert_eq!(status.backend_url, Some("https://api.example.com".to_string()));
}

#[test]
fn unconfigured_backend_reports_disconnected() {
    let config = BackendConfig {
        api_token: String::new(),
        backend_url: "https://api.example.com".to_string(),
        client_id: "c".to_string(),
    };
    assert!(!config.status().connected);
}

#[test]
fn override_values_classify_to_cues() {
    let base = SoundPack::base("/beep.wav");

    // an event key of the active pack resolves to that pack's cue
    match classify_override(&base, "kill") {
        SoundCue::File { path } => assert_eq!(path, "/beep.wav"),
        other => panic!("expected the pack cue, got {:?}", other),
    }
    // a web address becomes a remote cue
    match classify_override(&base, "https://youtu.be/abc") {
        SoundCue::Url { url } => assert_eq!(url, "https://youtu.be/abc"),
        other => panic!("expected a remote cue, got {:?}", other),
    }
    // anything else is a file path
    match classify_override(&base, "C:/sounds/horn.mp3") {
        SoundCue::File { path } => assert_eq!(path, "C:/sounds/horn.mp3"),
        other => panic!("expected a file cue, got {:?}", other),
    }
}

#[test]
fn cue_selection_prefers_overrides_over_the_pack() {
    let base = SoundPack::base("/beep.wav");
    let overrides = vec![(
        "kill".to_string(),
        SoundCue::File { path: "/custom/kill.mp3".to_string() },
    )];
    let ctx = SoundEventContext::simple(SoundEvent::Kill);

    let (cue, volume) = select_cue_with_context(None, &overrides, &base, &ctx)
        .expect("an override exists");
    match cue {
        SoundCue::File { path } => assert_eq!(path, "/custom/kill.mp3"),
        other => panic!("expected the override, got {:?}", other),
    }
    assert_eq!(volume, 1000);

    let plain = select_cue_with_context(None, &Vec::new(), &base, &ctx)
        .expect("the base pack covers kill");
    match plain.0 {
        SoundCue::File { path } => assert_eq!(path, "/beep.wav"),
        other => panic!("expected the base cue, got {:?}", other),
    }
}

#[test]
fn rule_pack_decision_wins_over_fallbacks() {
    let rules_pack = scout_core::engine::SoundPack {
        rules: vec![SoundRule {
            id: "kill-rule".to_string(),
            name: "Kill rule".to_string(),
            enabled: true,
            priority: 50,
            conditions: vec![RuleCondition::Stolen { is_stolen: false }],
            condition_logic: ConditionLogic::All,
            sounds: SoundPool {
                sounds: vec![SoundEntry {
                    id: "rule-sound".to_string(),
                    source: SoundSource::Url { url: "https://youtu.be/r".to_string() },
                    volume: 500,
                    weight: None,
                    enabled: true,
                }],
                selection_mode: SelectionMode::Sequential,
            },
        }],
        defaults: vec![(
            EventType::Kill,
            SoundPool { sounds: Vec::new(), selection_mode: SelectionMode::Sequential },
        )],
        ..Default::default()
    };
    let base = SoundPack::base("/beep.wav");
    let ctx = SoundEventContext::simple(SoundEvent::Kill);

    let (cue, volume) = select_cue_with_context(Some(&rules_pack), &Vec::new(), &base, &ctx)
        .expect("the rule matches");
    match cue {
        SoundCue::Url { url } => assert_eq!(url, "https://youtu.be/r"),
        other => panic!("expected the rule's cue, got {:?}", other),
    }
    // entry volume 500 at unit master volume
    assert_eq!(volume, 500);
}

#[test]
fn custom_pack_conversion_uses_defaults_and_beep() {
    let custom = scout_core::engine::SoundPack {
        id: "mypack".to_string(),
        defaults: vec![(
            EventType::Kill,
            SoundPool {
                sounds: vec![SoundEntry {
                    id: "kill-sound".to_string(),
                    source: SoundSource::Url { url: "https://youtu.be/k".to_string() },
                    volume: UNIT_VOLUME,
                    weight: None,
                    enabled: true,
                }],
                selection_mode: SelectionMode::Sequential,
            },
        )],
        ..Default::default()
    };

    assert!(from_custom(&custom, "otherpack", "/beep.wav").is_none());

    let converted = from_custom(&custom, "mypack", "/beep.wav").expect("identifier matches");
    match converted.cue_for("kill") {
        Some(SoundCue::Url { url }) => assert_eq!(url, "https://youtu.be/k"),
        other => panic!("expected the configured cue, got {:?}", other),
    }
    // a kind without a default pool falls back to the bundled beep
    match converted.cue_for("ace") {
        Some(SoundCue::File { path }) => assert_eq!(path, "/beep.wav"),
        other => panic!("expected the beep, got {:?}", other),
    }
}

#[test]
fn pack_registry_falls_back_to_the_default_pack() {
    let base = ClipPack {
        name: "base".to_string(),
        description: "Simple built-in beeps for match events".to_string(),
        clips: vec![SoundClip {
            event_key: "ChampionKill".to_string(),
            path: "/sounds/base/kill.wav".to_string(),
        }],
    };
    let registry = SoundPackRegistry::with_defaults(base);

    let found = registry.get(Some("base"));
    assert_eq!(found.name, "base");
    let fallback = registry.get(Some("no-such-pack"));
    assert_eq!(fallback.name, "base");
    let absent = select_sound_pack(&registry, None);
    assert_eq!(absent.name, "base");

    let clip = found.clip_for_event("ChampionKill").expect("the key is covered");
    assert_eq!(clip.path, "/sounds/base/kill.wav");
    assert!(found.clip_for_event("Recall").is_none());

    let summary = summarize(&found);
    assert_eq!(summary.name, "base");
    assert_eq!(summary.events, vec!["ChampionKill".to_string()]);
}

#[test]
fn fresh_config_has_only_an_identifier() {
    let cfg = Config::new("client-123".to_string());
    assert_eq!(cfg.client_id, "client-123");
    assert!(cfg.api_token.is_none());
    assert!(cfg.backend_url.is_none());
}
