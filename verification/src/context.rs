//! Per-event context carried from the event boundary to the rule engine:
//! the raw, string-typed snapshot of one event, and its normalization into
//! the engine's closed, fully-typed `EventContext`.
//!
//! Free-text upstream fields (objective labels, dragon variants, match
//! results) are classified by case-insensitive containment; anything
//! unrecognized degrades to `None` rather than erroring.

use vstd::prelude::*;
use vstd::string::StringExecFns;
use crate::engine;
use crate::strutil;

verus! {

/// Events that can trigger audio cues.
#[derive(Debug, Clone, Copy, PartialEq, Eq, Hash, Structural)]
pub enum SoundEvent {
    /// The match started.
    GameStart,
    /// First blood occurred.
    FirstBlood,
    /// A standard champion takedown.
    Kill,
    /// A multi-kill event.
    MultiKill,
    /// An objective capture.
    Objective,
    /// A full team wipe.
    Ace,
    /// The match ended.
    GameEnd,
}

impl Default for SoundEvent {
    /// The most common event kind.
    fn default() -> (r: Self)
        ensures
            r == SoundEvent::Kill,
    {
        SoundEvent::Kill
    }
}

impl SoundEvent {
    /// The canonical key used for configuration and display.
    pub fn key(self) -> (r: &'static str)
        ensures
            self == SoundEvent::GameStart ==> r@ == "gameStart"@,
            self == SoundEvent::FirstBlood ==> r@ == "firstBlood"@,
            self == SoundEvent::Kill ==> r@ == "kill"@,
            self == SoundEvent::MultiKill ==> r@ == "multiKill"@,
            self == SoundEvent::Objective ==> r@ == "objective"@,
            self == SoundEvent::Ace ==> r@ == "ace"@,
            self == SoundEvent::GameEnd ==> r@ == "gameEnd"@,
        returns spec_key(self),
    {
        match self {
            SoundEvent::GameStart => "gameStart",
            SoundEvent::FirstBlood => "firstBlood",
            SoundEvent::Kill => "kill",
            SoundEvent::MultiKill => "multiKill",
            SoundEvent::Objective => "objective",
            SoundEvent::Ace => "ace",
            SoundEvent::GameEnd => "gameEnd",
        }
    }
}

/// The canonical configuration key of each event kind.
pub open spec fn spec_key(e: SoundEvent) -> &'static str {
    match e {
        SoundEvent::GameStart => "gameStart",
        SoundEvent::FirstBlood => "firstBlood",
        SoundEvent::Kill => "kill",
        SoundEvent::MultiKill => "multiKill",
        SoundEvent::Objective => "objective",
        SoundEvent::Ace => "ace",
        SoundEvent::GameEnd => "gameEnd",
    }
}

/// The engine event kind each sound event maps to.
pub open spec fn engine_kind(e: SoundEvent) -> engine::EventType {
    match e {
        SoundEvent::GameStart => engine::EventType::GameStart,
        SoundEvent::GameEnd => engine::EventType::GameEnd,
        SoundEvent::FirstBlood => engine::EventType::FirstBlood,
        SoundEvent::Kill => engine::EventType::Kill,
        SoundEvent::MultiKill => engine::EventType::MultiKill,
        SoundEvent::Objective => engine::EventType::Objective,
        SoundEvent::Ace => engine::EventType::Ace,
    }
}

/// The multi-kill tier a takedown count maps to; counts outside two through
/// five carry no tier.
pub open spec fn tier_of_count(count: Option<i64>) -> Option<engine::MultikillType> {
    match count {
        Some(c) => if c == 2 {
            Some(engine::MultikillType::Double)
        } else if c == 3 {
            Some(engine::MultikillType::Triple)
        } else if c == 4 {
            Some(engine::MultikillType::Quadra)
        } else if c == 5 {
            Some(engine::MultikillType::Penta)
        } else {
            None
        },
        None => None,
    }
}

/// The objective kind a free-text label names, by case-insensitive
/// containment, most specific first.
pub open spec fn objective_of(s: Seq<char>) -> Option<engine::ObjectiveType> {
    if strutil::contains_fold(s, "dragon"@) {
        Some(engine::ObjectiveType::Dragon)
    } else if strutil::contains_fold(s, "baron"@) {
        Some(engine::ObjectiveType::Baron)
    } else if strutil::contains_fold(s, "herald"@) {
        Some(engine::ObjectiveType::Herald)
    } else if strutil::contains_fold(s, "tower"@) {
        Some(engine::ObjectiveType::Tower)
    } else if strutil::contains_fold(s, "inhib"@) {
        Some(engine::ObjectiveType::Inhibitor)
    } else {
        None
    }
}

/// The dragon variant a free-text label names, by case-insensitive
/// containment of either the variant name or its element.
pub open spec fn dragon_of(s: Seq<char>) -> Option<engine::DragonKind> {
    if strutil::contains_fold(s, "infernal"@) || strutil::contains_fold(s, "fire"@) {
        Some(engine::DragonKind::Infernal)
    } else if strutil::contains_fold(s, "mountain"@) || strutil::contains_fold(s, "earth"@) {
        Some(engine::DragonKind::Mountain)
    } else if strutil::contains_fold(s, "ocean"@) || strutil::contains_fold(s, "water"@) {
        Some(engine::DragonKind::Ocean)
    } else if strutil::contains_fold(s, "cloud"@) || strutil::contains_fold(s, "air"@) {
        Some(engine::DragonKind::Cloud)
    } else if strutil::contains_fold(s, "hextech"@) {
        Some(engine::DragonKind::Hextech)
    } else if strutil::contains_fold(s, "chemtech"@) {
        Some(engine::DragonKind::Chemtech)
    } else if strutil::contains_fold(s, "elder"@) {
        Some(engine::DragonKind::Elder)
    } else {
        None
    }
}

/// The match outcome a free-text label names.
pub open spec fn result_of(s: Seq<char>) -> Option<engine::GameResult> {
    if strutil::contains_fold(s, "win"@) || strutil::contains_fold(s, "victory"@) {
        Some(engine::GameResult::Victory)
    } else if strutil::contains_fold(s, "loss"@) || strutil::contains_fold(s, "defeat"@) {
        Some(engine::GameResult::Defeat)
    } else {
        None
    }
}

/// The engine context a raw context normalizes to: the event kind mapped
/// directly, the takedown count turned into a tier, the free-text labels
/// classified, and every other field carried over.
pub open spec fn engine_ctx_of(ctx: SoundEventContext) -> engine::EventContext {
    engine::EventContext {
        event_type: Some(engine_kind(ctx.event_type)),
        killer_name: ctx.killer_name,
        victim_name: ctx.victim_name,
        killer_champion: ctx.killer_champion,
        victim_champion: ctx.victim_champion,
        killer_is_local: ctx.killer_is_local,
        victim_is_local: ctx.victim_is_local,
        multikill_type: tier_of_count(ctx.multikill_count),
        objective_type: match ctx.objective_type {
            Some(s) => objective_of(s@),
            None => None,
        },
        dragon_type: match ctx.dragon_type {
            Some(s) => dragon_of(s@),
            None => None,
        },
        is_stolen: ctx.is_stolen,
        actor_team: ctx.actor_team,
        game_result: match ctx.game_result {
            Some(s) => result_of(s@),
            None => None,
        },
        local_player_name: ctx.local_player_name,
    }
}

/// Raw, string-typed context for one event, as the boundary hands it over.
#[derive(Debug, Clone)]
pub struct SoundEventContext {
    /// The event kind.
    pub event_type: SoundEvent,
    /// Killer's name.
    pub killer_name: Option<String>,
    /// Victim's name.
    pub victim_name: Option<String>,
    /// Killer's champion name.
    pub killer_champion: Option<String>,
    /// Victim's champion name.
    pub victim_champion: Option<String>,
    /// Whether the killer is the local player.
    pub killer_is_local: bool,
    /// Whether the victim is the local player.
    pub victim_is_local: bool,
    /// Takedown count of a multi-kill (two through five name a tier).
    pub multikill_count: Option<i64>,
    /// Objective label as reported upstream.
    pub objective_type: Option<String>,
    /// Dragon variant label as reported upstream.
    pub dragon_type: Option<String>,
    /// Whether the objective was contested or stolen.
    pub is_stolen: bool,
    /// Which side the actor stands on relative to the local team, or
    /// `None` when it could not be resolved.
    pub actor_team: Option<engine::TeamType>,
    /// Match result label as reported upstream.
    pub game_result: Option<String>,
    /// The local player's name, when known.
    pub local_player_name: Option<String>,
}

impl Default for SoundEventContext {
    /// A kill event with nothing else known.
    fn default() -> (r: Self)
        ensures
            r.event_type == SoundEvent::Kill,
            r.killer_name is None,
            r.victim_name is None,
            r.killer_champion is None,
            r.victim_champion is None,
            !r.killer_is_local,
            !r.victim_is_local,
            r.multikill_count is None,
            r.objective_type is None,
            r.dragon_type is None,
            !r.is_stolen,
            r.actor_team is None,
            r.game_result is None,
            r.local_player_name is None,
    {
        SoundEventContext {
            event_type: SoundEvent::Kill,
            killer_name: None,
            victim_name: None,
            killer_champion: None,
            victim_champion: None,
            killer_is_local: false,
            victim_is_local: false,
            multikill_count: None,
            objective_type: None,
            dragon_type: None,
            is_stolen: false,
            actor_team: None,
            game_result: None,
            local_player_name: None,
        }
    }
}

impl SoundEventContext {
    /// A context for an event that carries no participants or labels.
    pub fn simple(event_type: SoundEvent) -> (r: Self)
        ensures
            r.event_type == event_type,
            r.killer_name is None,
            r.victim_name is None,
            r.multikill_count is None,
            r.objective_type is None,
            r.dragon_type is None,
            r.game_result is None,
            !r.killer_is_local,
            !r.victim_is_local,
            !r.is_stolen,
            r.actor_team is None,
            r.local_player_name is None,
    {
        SoundEventContext { event_type, ..Default::default() }
    }

    /// A context for a kill: each participant is flagged local exactly when
    /// their name equals the local player's, compared exactly.
    pub fn kill(killer: &str, victim: &str, local_player: Option<&str>) -> (r: Self)
        ensures
            r.event_type == SoundEvent::Kill,
            r.killer_name is Some && r.killer_name->0@ == killer@,
            r.victim_name is Some && r.victim_name->0@ == victim@,
            r.killer_is_local == match local_player {
                Some(lp) => lp@ == killer@,
                None => false,
            },
            r.victim_is_local == match local_player {
                Some(lp) => lp@ == victim@,
                None => false,
            },
            r.local_player_name is Some <==> local_player is Some,
            r.local_player_name is Some ==> r.local_player_name->0@ == local_player->0@,
            r.multikill_count is None,
            r.objective_type is None,
            r.dragon_type is None,
            r.game_result is None,
            !r.is_stolen,
            r.actor_team is None,
    {
        let killer_is_local = match local_player {
            Some(lp) => strutil::str_eq(lp, killer),
            None => false,
        };
        let victim_is_local = match local_player {
            Some(lp) => strutil::str_eq(lp, victim),
            None => false,
        };
        SoundEventContext {
            event_type: SoundEvent::Kill,
            killer_name: Some(String::from_str(killer)),
            victim_name: Some(String::from_str(victim)),
            killer_is_local,
            victim_is_local,
            local_player_name: match local_player {
                Some(lp) => Some(String::from_str(lp)),
                None => None,
            },
            ..Default::default()
        }
    }

    /// A context for a multi-kill with its takedown count.
    pub fn multikill(killer: &str, kill_count: i64, local_player: Option<&str>) -> (r: Self)
        ensures
            r.event_type == SoundEvent::MultiKill,
            r.killer_name is Some && r.killer_name->0@ == killer@,
            r.victim_name is None,
            r.killer_is_local == match local_player {
                Some(lp) => lp@ == killer@,
                None => false,
            },
            r.multikill_count == Some(kill_count),
            r.local_player_name is Some <==> local_player is Some,
            r.local_player_name is Some ==> r.local_player_name->0@ == local_player->0@,
            r.objective_type is None,
            r.dragon_type is None,
            r.game_result is None,
            !r.is_stolen,
            r.actor_team is None,
    {
        let killer_is_local = match local_player {
            Some(lp) => strutil::str_eq(lp, killer),
            None => false,
        };
        SoundEventContext {
            event_type: SoundEvent::MultiKill,
            killer_name: Some(String::from_str(killer)),
            killer_is_local,
            multikill_count: Some(kill_count),
            local_player_name: match local_player {
                Some(lp) => Some(String::from_str(lp)),
                None => None,
            },
            ..Default::default()
        }
    }

    /// A context for an objective capture.
    pub fn objective(killer: &str, objective: &str, stolen: bool, dragon_type: Option<&str>) -> (r:
        Self)
        ensures
            r.event_type == SoundEvent::Objective,
            r.killer_name is Some && r.killer_name->0@ == killer@,
            r.objective_type is Some && r.objective_type->0@ == objective@,
            r.dragon_type is Some <==> dragon_type is Some,
            r.dragon_type is Some ==> r.dragon_type->0@ == dragon_type->0@,
            r.is_stolen == stolen,
            r.victim_name is None,
            r.multikill_count is None,
            r.game_result is None,
            !r.killer_is_local,
            !r.victim_is_local,
            r.actor_team is None,
            r.local_player_name is None,
    {
        SoundEventContext {
            event_type: SoundEvent::Objective,
            killer_name: Some(String::from_str(killer)),
            objective_type: Some(String::from_str(objective)),
            dragon_type: match dragon_type {
                Some(dt) => Some(String::from_str(dt)),
                None => None,
            },
            is_stolen: stolen,
            ..Default::default()
        }
    }

    /// A context for the end of a match.
    pub fn game_end(result: &str) -> (r: Self)
        ensures
            r.event_type == SoundEvent::GameEnd,
            r.game_result is Some && r.game_result->0@ == result@,
            r.killer_name is None,
            r.victim_name is None,
            r.multikill_count is None,
            r.objective_type is None,
            r.dragon_type is None,
            !r.killer_is_local,
            !r.victim_is_local,
            !r.is_stolen,
            r.actor_team is None,
            r.local_player_name is None,
    {
        SoundEventContext {
            event_type: SoundEvent::GameEnd,
            game_result: Some(String::from_str(result)),
            ..Default::default()
        }
    }

    /// Normalizes the raw context into the engine's closed, typed context:
    /// the event kind is mapped directly, the takedown count becomes a tier,
    /// and the free-text objective, dragon and result labels are classified
    /// by case-insensitive containment; unrecognized labels become `None`.
    pub fn to_event_context(&self) -> (r: engine::EventContext)
        ensures
            r == engine_ctx_of(*self),
            r.event_type == Some(engine_kind(self.event_type)),
            r.killer_name == self.killer_name,
            r.victim_name == self.victim_name,
            r.killer_champion == self.killer_champion,
            r.victim_champion == self.victim_champion,
            r.killer_is_local == self.killer_is_local,
            r.victim_is_local == self.victim_is_local,
            r.multikill_type == tier_of_count(self.multikill_count),
            r.objective_type == match self.objective_type {
                Some(s) => objective_of(s@),
                None => None,
            },
            r.dragon_type == match self.dragon_type {
                Some(s) => dragon_of(s@),
                None => None,
            },
            r.is_stolen == self.is_stolen,
            r.actor_team == self.actor_team,
            r.game_result == match self.game_result {
                Some(s) => result_of(s@),
                None => None,
            },
            r.local_player_name == self.local_player_name,
    {
        let event_type = match self.event_type {
            SoundEvent::GameStart => engine::EventType::GameStart,
            SoundEvent::GameEnd => engine::EventType::GameEnd,
            SoundEvent::FirstBlood => engine::EventType::FirstBlood,
            SoundEvent::Kill => engine::EventType::Kill,
            SoundEvent::MultiKill => engine::EventType::MultiKill,
            SoundEvent::Objective => engine::EventType::Objective,
            SoundEvent::Ace => engine::EventType::Ace,
        };

        let multikill_type = match self.multikill_count {
            Some(2) => Some(engine::MultikillType::Double),
            Some(3) => Some(engine::MultikillType::Triple),
            Some(4) => Some(engine::MultikillType::Quadra),
            Some(5) => Some(engine::MultikillType::Penta),
            _ => None,
        };

        let objective_type = match &self.objective_type {
            Some(obj) => {
                let s = obj.as_str();
                if strutil::contains_ignore_ascii_case(s, "dragon") {
                    Some(engine::ObjectiveType::Dragon)
                } else if strutil::contains_ignore_ascii_case(s, "baron") {
                    Some(engine::ObjectiveType::Baron)
                } else if strutil::contains_ignore_ascii_case(s, "herald") {
                    Some(engine::ObjectiveType::Herald)
                } else if strutil::contains_ignore_ascii_case(s, "tower") {
                    Some(engine::ObjectiveType::Tower)
                } else if strutil::contains_ignore_ascii_case(s, "inhib") {
                    Some(engine::ObjectiveType::Inhibitor)
                } else {
                    None
                }
            }
            None => None,
        };

        let dragon_type = match &self.dragon_type {
            Some(dt) => {
                let s = dt.as_str();
                if strutil::contains_ignore_ascii_case(s, "infernal")
                    || strutil::contains_ignore_ascii_case(s, "fire") {
                    Some(engine::DragonKind::Infernal)
                } else if strutil::contains_ignore_ascii_case(s, "mountain")
                    || strutil::contains_ignore_ascii_case(s, "earth") {
                    Some(engine::DragonKind::Mountain)
                } else if strutil::contains_ignore_ascii_case(s, "ocean")
                    || strutil::contains_ignore_ascii_case(s, "water") {
                    Some(engine::DragonKind::Ocean)
                } else if strutil::contains_ignore_ascii_case(s, "cloud")
                    || strutil::contains_ignore_ascii_case(s, "air") {
                    Some(engine::DragonKind::Cloud)
                } else if strutil::contains_ignore_ascii_case(s, "hextech") {
                    Some(engine::DragonKind::Hextech)
                } else if strutil::contains_ignore_ascii_case(s, "chemtech") {
                    Some(engine::DragonKind::Chemtech)
                } else if strutil::contains_ignore_ascii_case(s, "elder") {
                    Some(engine::DragonKind::Elder)
                } else {
                    None
                }
            }
            None => None,
        };

        let game_result = match &self.game_result {
            Some(res) => {
                let s = res.as_str();
                if strutil::contains_ignore_ascii_case(s, "win")
                    || strutil::contains_ignore_ascii_case(s, "victory") {
                    Some(engine::GameResult::Victory)
                } else if strutil::contains_ignore_ascii_case(s, "loss")
                    || strutil::contains_ignore_ascii_case(s, "defeat") {
                    Some(engine::GameResult::Defeat)
                } else {
                    None
                }
            }
            None => None,
        };

        engine::EventContext {
            event_type: Some(event_type),
            killer_name: clone_opt_string(&self.killer_name),
            victim_name: clone_opt_string(&self.victim_name),
            killer_champion: clone_opt_string(&self.killer_champion),
            victim_champion: clone_opt_string(&self.victim_champion),
            killer_is_local: self.killer_is_local,
            victim_is_local: self.victim_is_local,
            multikill_type,
            objective_type,
            dragon_type,
            is_stolen: self.is_stolen,
            actor_team: self.actor_team,
            game_result,
            local_player_name: clone_opt_string(&self.local_player_name),
        }
    }
}

/// Clones an optional string, keeping its value.
pub fn clone_opt_string(s: &Option<String>) -> (r: Option<String>)
    ensures
        r == *s,
{
    match s {
        Some(v) => Some(v.clone()),
        None => None,
    }
}

} // verus!
