//! Tests of the event pipeline: watermark deduplication, event
//! classification, context building, and the full poll-decide scenario.

use scout_core::context::{SoundEvent, SoundEventContext};
use scout_core::engine::{
    ConditionLogic, DragonKind, EventType, GameResult, MultikillType, ObjectiveType,
    RuleCondition, SelectionMode, SoundEntry, SoundPack, SoundPool, SoundRule, SoundSource,
    UNIT_VOLUME,
};
use scout_core::events::{classify_event, classify_gameflow, GameEvent, GameflowTransition, PolledEvent, WarnThrottle};
use scout_core::roster::{GameContext, PlayerInfo};
use scout_core::watermark::{AdmitOutcome, EventWatermark};

fn polled(id: i64, name: &str) -> PolledEvent {
    PolledEvent {
        event_id: id,
        event_name: name.to_string(),
        killer_name: None,
        victim_name: None,
        kill_streak: None,
        dragon_type: None,
        stolen: None,
        acing_team: None,
    }
}

fn roster_ctx() -> GameContext {
    GameContext::assemble(
        "A".to_string(),
        vec![
            PlayerInfo {
                summoner_name: "A".to_string(),
                champion_name: "Ahri".to_string(),
                team: "ORDER".to_string(),
                is_bot: false,
            },
            PlayerInfo {
                summoner_name: "B".to_string(),
                champion_name: "Zed".to_string(),
                team: "CHAOS".to_string(),
                is_bot: false,
            },
        ],
        "CLASSIC".to_string(),
        "Summoner's Rift".to_string(),
    )
}

#[test]
fn watermark_classifies_and_advances() {
    let mut wm = EventWatermark::new();
    assert_eq!(wm.classify(0), AdmitOutcome::New);
    let fresh = wm.process_batch(&vec![2, 0, 1]);
    assert_eq!(fresh, vec![2, 0, 1]);
    // everything at or below the batch maximum is now stale
    assert_eq!(wm.classify(0), AdmitOutcome::Stale);
    assert_eq!(wm.classify(2), AdmitOutcome::Stale);
    assert_eq!(wm.classify(3), AdmitOutcome::New);
    wm.advance(10);
    assert_eq!(wm.classify(10), AdmitOutcome::Stale);
    wm.advance(5);
    // advancing never lowers the watermark
    assert_eq!(wm.classify(10), AdmitOutcome::Stale);
}

#[test]
fn repolling_the_same_batch_processes_nothing() {
    let mut wm = EventWatermark::new();
    let batch = vec![1, 2, 3];
    let first = wm.process_batch(&batch);
    assert_eq!(first.len(), 3);
    let second = wm.process_batch(&batch);
    assert_eq!(second.len(), 0);
}

#[test]
fn growing_log_yields_only_the_new_suffix() {
    let mut wm = EventWatermark::new();
    let first = wm.process_batch(&vec![1, 2]);
    assert_eq!(first, vec![1, 2]);
    // the upstream source re-returns the whole log, grown by two events
    let second = wm.process_batch(&vec![1, 2, 3, 4]);
    assert_eq!(second, vec![3, 4]);
}

#[test]
fn champion_kill_is_classified_with_roster_data() {
    let ctx = roster_ctx();
    let mut ev = polled(1, "ChampionKill");
    ev.killer_name = Some("A".to_string());
    ev.victim_name = Some("B".to_string());

    match classify_event(&ev, &ctx).expect("kill is recognized") {
        GameEvent::Kill { killer_name, victim_name, killer_champion, victim_champion, killer_team, .. } => {
            assert_eq!(killer_name, "A");
            assert_eq!(victim_name, "B");
            assert_eq!(killer_champion.as_deref(), Some("Ahri"));
            assert_eq!(victim_champion.as_deref(), Some("Zed"));
            assert_eq!(killer_team, "ORDER");
        }
        other => panic!("wrong classification {:?}", other),
    }
}

#[test]
fn dragon_kill_normalizes_stolen_and_variant() {
    let ctx = roster_ctx();
    let mut ev = polled(2, "DragonKill");
    ev.killer_name = Some("B".to_string());
    ev.dragon_type = Some("INFERNAL".to_string());
    ev.stolen = Some("True".to_string());

    match classify_event(&ev, &ctx).expect("dragon is recognized") {
        GameEvent::Objective { objective_type, dragon_type, is_stolen, team, .. } => {
            assert_eq!(objective_type, "dragon");
            assert_eq!(dragon_type.as_deref(), Some("infernal"));
            assert_eq!(is_stolen, Some(true));
            // B is on the enemy team relative to local player A
            assert_eq!(team, "enemy");
        }
        other => panic!("wrong classification {:?}", other),
    }
}

#[test]
fn unparseable_stolen_text_counts_as_not_stolen() {
    let ctx = roster_ctx();
    let mut ev = polled(3, "BaronKill");
    ev.stolen = Some("perhaps".to_string());
    match classify_event(&ev, &ctx).expect("baron is recognized") {
        GameEvent::Objective { is_stolen, .. } => assert_eq!(is_stolen, Some(false)),
        other => panic!("wrong classification {:?}", other),
    }
}

#[test]
fn multikill_without_streak_counts_two() {
    let ctx = roster_ctx();
    let mut ev = polled(4, "Multikill");
    ev.killer_name = Some("A".to_string());
    match classify_event(&ev, &ctx).expect("multikill is recognized") {
        GameEvent::MultiKill { kill_count, killer_team, .. } => {
            assert_eq!(kill_count, 2);
            assert_eq!(killer_team, "ORDER");
        }
        other => panic!("wrong classification {:?}", other),
    }
}

#[test]
fn objective_with_unknown_killer_carries_no_side() {
    // A participant the roster does not know has an unresolved team, which
    // names no side.
    let ctx = roster_ctx();
    let mut ev = polled(6, "HeraldKill");
    ev.killer_name = Some("Stranger".to_string());
    match classify_event(&ev, &ctx).expect("herald is recognized") {
        GameEvent::Objective { team, .. } => assert_eq!(team, ""),
        other => panic!("wrong classification {:?}", other),
    }
}

#[test]
fn unknown_event_kinds_are_skipped_not_errors() {
    let ctx = roster_ctx();
    assert!(classify_event(&polled(5, "ChampionSneeze"), &ctx).is_none());
}

#[test]
fn context_normalization_classifies_free_text() {
    let raw = SoundEventContext {
        event_type: SoundEvent::Objective,
        objective_type: Some("ELDER_DRAGON".to_string()),
        dragon_type: Some("Elder".to_string()),
        ..Default::default()
    };
    let ctx = raw.to_event_context();
    assert_eq!(ctx.event_type, Some(EventType::Objective));
    assert_eq!(ctx.objective_type, Some(ObjectiveType::Dragon));
    assert_eq!(ctx.dragon_type, Some(DragonKind::Elder));

    let end = SoundEventContext::game_end("Victory!").to_event_context();
    assert_eq!(end.game_result, Some(GameResult::Victory));

    let penta = SoundEventContext::multikill("A", 5, Some("A")).to_event_context();
    assert_eq!(penta.multikill_type, Some(MultikillType::Penta));
    assert!(penta.killer_is_local);

    let odd = SoundEventContext::multikill("A", 7, None).to_event_context();
    assert_eq!(odd.multikill_type, None);
}

#[test]
fn kill_context_flags_local_participants_exactly() {
    let ctx = SoundEventContext::kill("A", "B", Some("A"));
    assert!(ctx.killer_is_local);
    assert!(!ctx.victim_is_local);
    // the comparison respects case
    let other = SoundEventContext::kill("a", "B", Some("A"));
    assert!(!other.killer_is_local);
}

#[test]
fn repolled_kill_scenario_decides_from_default_pool() {
    // One kill event polled twice: the first pass yields one new event, the
    // second none; a penta-kill rule does not match a plain kill, so the
    // kill default pool decides.
    let ctx = roster_ctx();
    let mut wm = EventWatermark::new();

    let mut ev = polled(1, "ChampionKill");
    ev.killer_name = Some("A".to_string());
    ev.victim_name = Some("B".to_string());

    let fresh = wm.process_batch(&vec![ev.event_id]);
    assert_eq!(fresh, vec![1]);
    let classified = classify_event(&ev, &ctx).expect("kill is recognized");
    let (killer, victim) = match classified {
        GameEvent::Kill { killer_name, victim_name, .. } => (killer_name, victim_name),
        other => panic!("wrong classification {:?}", other),
    };

    let sound_ctx = SoundEventContext::kill(&killer, &victim, Some("A"));
    let engine_ctx = sound_ctx.to_event_context();

    let penta_rule = SoundRule {
        id: "penta".to_string(),
        name: "PentaKill".to_string(),
        enabled: true,
        priority: 100,
        conditions: vec![RuleCondition::Multikill { kill_types: vec![MultikillType::Penta] }],
        condition_logic: ConditionLogic::All,
        sounds: SoundPool {
            sounds: vec![SoundEntry {
                id: "penta-sound".to_string(),
                source: SoundSource::File { path: "penta.mp3".to_string() },
                volume: UNIT_VOLUME,
                weight: None,
                enabled: true,
            }],
            selection_mode: SelectionMode::Sequential,
        },
    };
    let defaults = vec![(
        EventType::Kill,
        SoundPool {
            sounds: vec![SoundEntry {
                id: "default-kill".to_string(),
                source: SoundSource::File { path: "kill.mp3".to_string() },
                volume: UNIT_VOLUME,
                weight: None,
                enabled: true,
            }],
            selection_mode: SelectionMode::Sequential,
        },
    )];
    let pack = SoundPack { rules: vec![penta_rule], defaults, ..Default::default() };

    let (chosen, _volume) = pack.select_sound_for_event(&engine_ctx).expect("default applies");
    assert_eq!(chosen.id, "default-kill");

    // the second poll of the same log yields nothing new
    let again = wm.process_batch(&vec![1]);
    assert!(again.is_empty());
}

#[test]
fn warn_throttle_limits_diagnostics_to_one_per_window() {
    let mut throttle = WarnThrottle::new(60);
    assert!(throttle.note_failure(0));
    assert!(!throttle.note_failure(30));
    assert!(!throttle.note_failure(60));
    assert!(throttle.note_failure(61));
    assert!(!throttle.note_failure(100));
}

#[test]
fn gameflow_phases_classify_to_transitions() {
    assert_eq!(classify_gameflow("InProgress"), Some(GameflowTransition::Started));
    assert_eq!(classify_gameflow("EndOfGame"), Some(GameflowTransition::Ended));
    assert_eq!(classify_gameflow("ChampSelect"), None);
}
