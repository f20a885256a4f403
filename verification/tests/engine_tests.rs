//! Tests of the sound rule engine: pool selection, condition evaluation,
//! rule priority, fallback behavior, and the weighted draw distribution.

use scout_core::engine::{
    ConditionLogic, EventContext, EventType, MultikillType, PlayerField, RuleCondition,
    SelectionMode, SoundEntry, SoundPack, SoundPool, SoundRule, SoundSource, TeamType,
    UNIT_VOLUME,
};

fn entry(id: &str, path: &str, enabled: bool) -> SoundEntry {
    SoundEntry {
        id: id.to_string(),
        source: SoundSource::File { path: path.to_string() },
        volume: UNIT_VOLUME,
        weight: None,
        enabled,
    }
}

fn pool(sounds: Vec<SoundEntry>, mode: SelectionMode) -> SoundPool {
    SoundPool { sounds, selection_mode: mode }
}

fn rule(id: &str, enabled: bool, priority: u32, conditions: Vec<RuleCondition>, logic: ConditionLogic, sounds: SoundPool) -> SoundRule {
    SoundRule {
        id: id.to_string(),
        name: id.to_string(),
        enabled,
        priority,
        conditions,
        condition_logic: logic,
        sounds,
    }
}

#[test]
fn test_sound_pool_random_selection() {
    let pool = SoundPool {
        sounds: vec![entry("test1", "test1.mp3", true), entry("test2", "test2.mp3", true)],
        selection_mode: SelectionMode::Random,
    };

    let selected = pool.select_sound();
    assert!(selected.is_some());
}

#[test]
fn test_empty_pool_returns_none() {
    let pool = SoundPool::default();
    assert!(pool.select_sound().is_none());
}

#[test]
fn test_disabled_sounds_not_selected() {
    let pool = SoundPool {
        sounds: vec![entry("disabled", "test.mp3", false)],
        selection_mode: SelectionMode::Random,
    };

    assert!(pool.select_sound().is_none());
}

#[test]
fn test_rule_condition_player_match() {
    let pack = SoundPack::default();

    let condition = RuleCondition::Player {
        field: PlayerField::Killer,
        players: vec!["TestPlayer".to_string()],
        include_local_player: false,
    };

    let context = EventContext {
        killer_name: Some("TestPlayer".to_string()),
        ..Default::default()
    };

    assert!(pack.condition_matches(&condition, &context));
}

#[test]
fn test_rule_condition_local_player() {
    let pack = SoundPack::default();

    let condition = RuleCondition::Player {
        field: PlayerField::Killer,
        players: vec![],
        include_local_player: true,
    };

    let context = EventContext {
        killer_is_local: true,
        ..Default::default()
    };

    assert!(pack.condition_matches(&condition, &context));
}

#[test]
fn test_multikill_condition() {
    let pack = SoundPack::default();

    let condition = RuleCondition::Multikill {
        kill_types: vec![MultikillType::Penta],
    };

    let context = EventContext {
        multikill_type: Some(MultikillType::Penta),
        ..Default::default()
    };

    assert!(pack.condition_matches(&condition, &context));
}

#[test]
fn sequential_pool_picks_first_enabled() {
    let p = pool(
        vec![
            entry("off", "a.mp3", false),
            entry("first", "b.mp3", true),
            entry("second", "c.mp3", true),
        ],
        SelectionMode::Sequential,
    );
    assert_eq!(p.select_sound(), Some(1));
}

#[test]
fn weighted_pool_with_zero_total_weight_picks_first_enabled() {
    let mut a = entry("a", "a.mp3", true);
    a.weight = Some(0);
    let mut b = entry("b", "b.mp3", true);
    b.weight = Some(0);
    let p = pool(vec![a, b], SelectionMode::Weighted);
    assert_eq!(p.select_sound(), Some(0));
}

#[test]
fn weighted_distribution_is_roughly_proportional() {
    // Two entries weighted 1:3; the minority entry should be drawn in
    // roughly a quarter of many draws.
    let mut minority = entry("minority", "a.mp3", true);
    minority.weight = Some(1000);
    let mut majority = entry("majority", "b.mp3", true);
    majority.weight = Some(3000);
    let p = pool(vec![minority, majority], SelectionMode::Weighted);

    let draws = 4000;
    let mut minority_count = 0;
    for _ in 0..draws {
        match p.select_sound() {
            Some(0) => minority_count += 1,
            Some(1) => {}
            other => panic!("unexpected selection {:?}", other),
        }
    }
    let share = minority_count as f64 / draws as f64;
    assert!(share > 0.15 && share < 0.35, "minority share was {}", share);
}

#[test]
fn higher_priority_rule_wins() {
    // Two enabled rules that both match; the engine must select from the
    // priority-90 rule's pool, not the priority-10 one.
    let cond = || RuleCondition::Stolen { is_stolen: false };
    let low = rule(
        "low",
        true,
        10,
        vec![cond()],
        ConditionLogic::All,
        pool(vec![entry("low-sound", "low.mp3", true)], SelectionMode::Sequential),
    );
    let high = rule(
        "high",
        true,
        90,
        vec![cond()],
        ConditionLogic::All,
        pool(vec![entry("high-sound", "high.mp3", true)], SelectionMode::Sequential),
    );
    let pack = SoundPack { rules: vec![low, high], ..Default::default() };
    let ctx = EventContext { event_type: Some(EventType::Kill), ..Default::default() };

    let (chosen, _volume) = pack.select_sound_for_event(&ctx).expect("a rule matched");
    assert_eq!(chosen.id, "high-sound");
}

#[test]
fn equal_priority_ties_keep_configuration_order() {
    let cond = || RuleCondition::Stolen { is_stolen: false };
    let first = rule(
        "first",
        true,
        50,
        vec![cond()],
        ConditionLogic::All,
        pool(vec![entry("first-sound", "a.mp3", true)], SelectionMode::Sequential),
    );
    let second = rule(
        "second",
        true,
        50,
        vec![cond()],
        ConditionLogic::All,
        pool(vec![entry("second-sound", "b.mp3", true)], SelectionMode::Sequential),
    );
    let pack = SoundPack { rules: vec![first, second], ..Default::default() };
    let ctx = EventContext::default();

    let (chosen, _volume) = pack.select_sound_for_event(&ctx).expect("a rule matched");
    assert_eq!(chosen.id, "first-sound");
}

#[test]
fn no_matching_rule_falls_back_to_defaults() {
    // The only rule is disabled, so the default pool of the event kind is
    // used.
    let off = rule(
        "off",
        false,
        90,
        vec![RuleCondition::Stolen { is_stolen: false }],
        ConditionLogic::All,
        pool(vec![entry("rule-sound", "r.mp3", true)], SelectionMode::Sequential),
    );
    let defaults = vec![(
        EventType::Kill,
        pool(vec![entry("default-kill", "k.mp3", true)], SelectionMode::Sequential),
    )];
    let pack = SoundPack { rules: vec![off], defaults, ..Default::default() };
    let ctx = EventContext { event_type: Some(EventType::Kill), ..Default::default() };

    let (chosen, _volume) = pack.select_sound_for_event(&ctx).expect("default pool applies");
    assert_eq!(chosen.id, "default-kill");
}

#[test]
fn no_rule_and_no_default_yields_none() {
    let pack = SoundPack::default();
    let ctx = EventContext { event_type: Some(EventType::Ace), ..Default::default() };
    assert!(pack.select_sound_for_event(&ctx).is_none());
}

#[test]
fn all_logic_needs_every_condition_but_any_needs_one() {
    // One true condition (not stolen) and one false condition (penta tier
    // on a context without one): `All` must not match, `Any` must.
    let conditions = vec![
        RuleCondition::Stolen { is_stolen: false },
        RuleCondition::Multikill { kill_types: vec![MultikillType::Penta] },
    ];
    let sounds = || pool(vec![entry("s", "s.mp3", true)], SelectionMode::Sequential);
    let all_rule = rule("all", true, 50, conditions.clone(), ConditionLogic::All, sounds());
    let any_rule = rule("any", true, 50, conditions, ConditionLogic::Any, sounds());
    let pack = SoundPack::default();
    let ctx = EventContext::default();

    assert!(!pack.rule_matches(&all_rule, &ctx));
    assert!(pack.rule_matches(&any_rule, &ctx));
}

#[test]
fn unresolved_actor_team_matches_no_team_condition() {
    let pack = SoundPack::default();
    let ally = RuleCondition::Team { team: TeamType::Ally };
    let enemy = RuleCondition::Team { team: TeamType::Enemy };

    let unresolved = EventContext::default();
    assert!(!pack.condition_matches(&ally, &unresolved));
    assert!(!pack.condition_matches(&enemy, &unresolved));

    let resolved = EventContext { actor_team: Some(TeamType::Ally), ..Default::default() };
    assert!(pack.condition_matches(&ally, &resolved));
    assert!(!pack.condition_matches(&enemy, &resolved));
}

#[test]
fn rule_without_conditions_never_matches() {
    let sounds = pool(vec![entry("s", "s.mp3", true)], SelectionMode::Sequential);
    let catch_all = rule("empty", true, 99, vec![], ConditionLogic::All, sounds);
    let pack = SoundPack::default();
    assert!(!pack.rule_matches(&catch_all, &EventContext::default()));
}

#[test]
fn effective_volume_scales_by_master_volume() {
    let mut quiet = entry("quiet", "q.mp3", true);
    quiet.volume = 500;
    let defaults = vec![(EventType::Kill, pool(vec![quiet], SelectionMode::Sequential))];
    let mut pack = SoundPack { defaults, ..Default::default() };
    pack.settings.master_volume = 500;
    let ctx = EventContext { event_type: Some(EventType::Kill), ..Default::default() };

    let (_chosen, volume) = pack.select_sound_for_event(&ctx).expect("default applies");
    assert_eq!(volume, 250);
}

#[test]
fn matching_rule_with_empty_pool_is_skipped() {
    // A matching high-priority rule whose pool has nothing enabled gives
    // way to a lower-priority matching rule.
    let cond = || RuleCondition::Stolen { is_stolen: false };
    let empty = rule(
        "empty",
        true,
        90,
        vec![cond()],
        ConditionLogic::All,
        pool(vec![], SelectionMode::Sequential),
    );
    let low = rule(
        "low",
        true,
        10,
        vec![cond()],
        ConditionLogic::All,
        pool(vec![entry("low-sound", "l.mp3", true)], SelectionMode::Sequential),
    );
    let pack = SoundPack { rules: vec![empty, low], ..Default::default() };

    let (chosen, _volume) = pack.select_sound_for_event(&EventContext::default()).expect("low matches");
    assert_eq!(chosen.id, "low-sound");
}
