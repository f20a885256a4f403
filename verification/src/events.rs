//! Event-stream processing: the typed form of one polled event, its
//! classification into the closed set of forwardable game events, the
//! subscription message format of the event socket, and the throttle that
//! keeps harmless polling failures from flooding the diagnostics.
//!
//! The transport layer parses the upstream's untyped payloads into
//! `PolledEvent` values; everything after that point is verified. An event
//! whose kind is not recognized is skipped, never an error that aborts a
//! batch.

use vstd::prelude::*;
use vstd::string::StringExecFns;
use crate::roster;
use crate::strutil;

verus! {

broadcast use vstd::string::group_string_axioms;

/// One event as polled from the in-match API, already parsed into plain
/// values. Fields absent from the payload are `None`.
#[derive(Debug, Clone)]
pub struct PolledEvent {
    /// The event's sequence id, the identity for deduplication.
    pub event_id: i64,
    /// The upstream kind label.
    pub event_name: String,
    /// Killer's name, when present.
    pub killer_name: Option<String>,
    /// Victim's name, when present.
    pub victim_name: Option<String>,
    /// Takedown streak of a multi-kill, when present.
    pub kill_streak: Option<i64>,
    /// Dragon variant label, when present.
    pub dragon_type: Option<String>,
    /// The upstream stolen flag, a free-text field.
    pub stolen: Option<String>,
    /// The acing team's label, when present.
    pub acing_team: Option<String>,
}

/// A classified game event, ready to be forwarded. The closed, typed form of
/// what the upstream log reports.
#[derive(Debug, Clone)]
pub enum GameEvent {
    /// The match started.
    GameStart {
        /// Mode label of the match.
        game_mode: String,
        /// Map name.
        map_name: String,
        /// The local player's name.
        local_player_name: String,
        /// The local player's team label.
        local_player_team: String,
        /// The full roster.
        players: Vec<roster::PlayerInfo>,
    },
    /// A champion takedown.
    Kill {
        /// Killer's name.
        killer_name: String,
        /// Victim's name.
        victim_name: String,
        /// Killer's champion, when the roster knows the killer.
        killer_champion: Option<String>,
        /// Victim's champion, when the roster knows the victim.
        victim_champion: Option<String>,
        /// The local player's name.
        local_player_name: String,
        /// The local player's team label.
        local_player_team: String,
        /// The killer's team label, empty for unknown killers.
        killer_team: String,
        /// Whether this takedown was also first blood, when known.
        is_first_blood: Option<bool>,
    },
    /// The first takedown of the match.
    FirstBlood {
        /// Killer's name.
        killer_name: String,
        /// Victim's name.
        victim_name: String,
        /// Killer's champion, when known.
        killer_champion: Option<String>,
        /// Victim's champion, when known.
        victim_champion: Option<String>,
        /// The local player's name.
        local_player_name: String,
        /// The local player's team label.
        local_player_team: String,
        /// The killer's team label.
        killer_team: String,
    },
    /// A multi-kill.
    MultiKill {
        /// Killer's name.
        killer_name: String,
        /// Killer's champion, when known.
        killer_champion: Option<String>,
        /// Takedown count.
        kill_count: i64,
        /// The local player's name.
        local_player_name: String,
        /// The local player's team label.
        local_player_team: String,
        /// The killer's team label.
        killer_team: String,
    },
    /// An objective capture.
    Objective {
        /// Objective kind label.
        objective_type: String,
        /// Killer's name, when present.
        killer_name: Option<String>,
        /// Dragon variant label, when present.
        dragon_type: Option<String>,
        /// Whether the objective was stolen, when the kind reports it.
        is_stolen: Option<bool>,
        /// Which side took it, relative to the local player.
        team: String,
        /// The local player's name.
        local_player_name: String,
    },
    /// A full team wipe.
    Ace {
        /// The acing team's label.
        acing_team: String,
        /// The local player's team label.
        local_player_team: String,
    },
    /// The match ended.
    GameEnd {
        /// The match outcome label.
        result: String,
    },
}

/// The characters of an optional string, empty when absent.
pub open spec fn opt_chars(s: Option<String>) -> Seq<char> {
    match s {
        Some(x) => x@,
        None => Seq::empty(),
    }
}

/// The team label of the participant an event credits, looked up in the
/// roster by the killer's name; empty when the roster does not know it.
pub open spec fn killer_team_chars(ctx: roster::GameContext, killer: Option<String>) -> Seq<
    char,
> {
    match roster::lookup_player(ctx.players@, opt_chars(killer)) {
        Some(p) => p.team@,
        None => Seq::empty(),
    }
}

/// The champion of the participant with the given name, when the roster
/// knows the name.
pub open spec fn champion_chars(ctx: roster::GameContext, name: Option<String>) -> Option<
    Seq<char>,
> {
    match roster::lookup_player(ctx.players@, opt_chars(name)) {
        Some(p) => Some(p.champion_name@),
        None => None,
    }
}

/// The upstream stolen field means stolen exactly when it is the text
/// `True`; anything else, including an absent field, normalizes to false.
pub open spec fn stolen_flag(s: Option<String>) -> bool {
    match s {
        Some(x) => x@ == "True"@,
        None => false,
    }
}

/// The side label an objective event carries: `ally` when the credited
/// participant is known and on the local team, `enemy` when known and
/// opposing, and empty when the roster does not know the participant — an
/// unresolved team names no side.
pub open spec fn side_chars(ctx: roster::GameContext, killer: Option<String>) -> Seq<char> {
    match roster::lookup_player(ctx.players@, opt_chars(killer)) {
        Some(p) => if p.team@ == ctx.local_player_team@ {
            "ally"@
        } else {
            "enemy"@
        },
        None => Seq::empty(),
    }
}

/// An optional string's view, preserved through classification.
pub open spec fn opt_chars_opt(s: Option<String>) -> Option<Seq<char>> {
    match s {
        Some(x) => Some(x@),
        None => None,
    }
}

/// What a takedown event classifies to.
pub open spec fn is_kill_of(r: GameEvent, ev: PolledEvent, ctx: roster::GameContext) -> bool {
    r matches GameEvent::Kill {
        killer_name,
        victim_name,
        killer_champion,
        victim_champion,
        local_player_name,
        local_player_team,
        killer_team,
        is_first_blood,
    } && {
        &&& killer_name@ == opt_chars(ev.killer_name)
        &&& victim_name@ == opt_chars(ev.victim_name)
        &&& opt_chars_opt(killer_champion) == champion_chars(ctx, ev.killer_name)
        &&& opt_chars_opt(victim_champion) == champion_chars(ctx, ev.victim_name)
        &&& local_player_name@ == ctx.local_player_name@
        &&& local_player_team@ == ctx.local_player_team@
        &&& killer_team@ == killer_team_chars(ctx, ev.killer_name)
        &&& is_first_blood is None
    }
}

/// What a first-blood event classifies to.
pub open spec fn is_first_blood_of(r: GameEvent, ev: PolledEvent, ctx: roster::GameContext) -> bool {
    r matches GameEvent::FirstBlood {
        killer_name,
        victim_name,
        killer_champion,
        victim_champion,
        local_player_name,
        local_player_team,
        killer_team,
    } && {
        &&& killer_name@ == opt_chars(ev.killer_name)
        &&& victim_name@ == opt_chars(ev.victim_name)
        &&& opt_chars_opt(killer_champion) == champion_chars(ctx, ev.killer_name)
        &&& opt_chars_opt(victim_champion) == champion_chars(ctx, ev.victim_name)
        &&& local_player_name@ == ctx.local_player_name@
        &&& local_player_team@ == ctx.local_player_team@
        &&& killer_team@ == killer_team_chars(ctx, ev.killer_name)
    }
}

/// What a multi-kill event classifies to: an absent streak counts as two.
pub open spec fn is_multikill_of(r: GameEvent, ev: PolledEvent, ctx: roster::GameContext) -> bool {
    r matches GameEvent::MultiKill {
        killer_name,
        killer_champion,
        kill_count,
        local_player_name,
        local_player_team,
        killer_team,
    } && {
        &&& killer_name@ == opt_chars(ev.killer_name)
        &&& opt_chars_opt(killer_champion) == champion_chars(ctx, ev.killer_name)
        &&& kill_count as int == match ev.kill_streak {
            Some(k) => k as int,
            None => 2,
        }
        &&& local_player_name@ == ctx.local_player_name@
        &&& local_player_team@ == ctx.local_player_team@
        &&& killer_team@ == killer_team_chars(ctx, ev.killer_name)
    }
}

/// What an objective event classifies to, given the kind label it carries
/// and whether the kind reports the stolen flag and a dragon variant.
pub open spec fn is_objective_of(
    r: GameEvent,
    ev: PolledEvent,
    ctx: roster::GameContext,
    kind: Seq<char>,
    carries_stolen: bool,
    carries_dragon: bool,
) -> bool {
    r matches GameEvent::Objective {
        objective_type,
        killer_name,
        dragon_type,
        is_stolen,
        team,
        local_player_name,
    } && {
        &&& objective_type@ == kind
        &&& opt_chars_opt(killer_name) == opt_chars_opt(ev.killer_name)
        &&& !carries_dragon ==> dragon_type is None
        &&& carries_dragon ==> {
            &&& dragon_type is Some <==> ev.dragon_type is Some
            &&& dragon_type is Some ==> dragon_type->0@ == strutil::lower_of(ev.dragon_type->0@)
        }
        &&& is_stolen == if carries_stolen {
            Some(stolen_flag(ev.stolen))
        } else {
            None
        }
        &&& team@ == side_chars(ctx, ev.killer_name)
        &&& local_player_name@ == ctx.local_player_name@
    }
}

/// What an ace event classifies to.
pub open spec fn is_ace_of(r: GameEvent, ev: PolledEvent, ctx: roster::GameContext) -> bool {
    r matches GameEvent::Ace { acing_team, local_player_team } && {
        &&& acing_team@ == opt_chars(ev.acing_team)
        &&& local_player_team@ == ctx.local_player_team@
    }
}

/// Classifies one polled event into a forwardable game event, or `None` for
/// kinds the pipeline does not handle — those are skipped, never errors.
///
/// Participant names the payload lacks are treated as empty; the credited
/// participant's team and champion come from the roster; the free-text
/// stolen field counts as stolen only when it reads `True`; a dragon's
/// variant label is carried in lower case.
pub fn classify_event(ev: &PolledEvent, ctx: &roster::GameContext) -> (r: Option<GameEvent>)
    ensures
        ev.event_name@ == "ChampionKill"@ ==> r is Some && is_kill_of(r->0, *ev, *ctx),
        ev.event_name@ == "FirstBlood"@ ==> r is Some && is_first_blood_of(r->0, *ev, *ctx),
        ev.event_name@ == "Multikill"@ ==> r is Some && is_multikill_of(r->0, *ev, *ctx),
        ev.event_name@ == "DragonKill"@ ==> r is Some && is_objective_of(
            r->0,
            *ev,
            *ctx,
            "dragon"@,
            true,
            true,
        ),
        ev.event_name@ == "BaronKill"@ ==> r is Some && is_objective_of(
            r->0,
            *ev,
            *ctx,
            "baron"@,
            true,
            false,
        ),
        ev.event_name@ == "HeraldKill"@ ==> r is Some && is_objective_of(
            r->0,
            *ev,
            *ctx,
            "herald"@,
            true,
            false,
        ),
        ev.event_name@ == "TurretKilled"@ || ev.event_name@ == "FirstBrick"@ ==> r is Some
            && is_objective_of(r->0, *ev, *ctx, "tower"@, false, false),
        ev.event_name@ == "InhibKilled"@ ==> r is Some && is_objective_of(
            r->0,
            *ev,
            *ctx,
            "inhibitor"@,
            false,
            false,
        ),
        ev.event_name@ == "Ace"@ ==> r is Some && is_ace_of(r->0, *ev, *ctx),
        r is None <==> !recognized_event_name(ev.event_name@),
{
    proof {
        reveal_strlit("ChampionKill");
        reveal_strlit("FirstBlood");
        reveal_strlit("Multikill");
        reveal_strlit("DragonKill");
        reveal_strlit("BaronKill");
        reveal_strlit("HeraldKill");
        reveal_strlit("TurretKilled");
        reveal_strlit("FirstBrick");
        reveal_strlit("InhibKilled");
        reveal_strlit("Ace");
        assert("ChampionKill"@.len() == 12);
        assert("FirstBlood"@.len() == 10);
        assert("Multikill"@.len() == 9);
        assert("DragonKill"@.len() == 10);
        assert("BaronKill"@.len() == 9);
        assert("HeraldKill"@.len() == 10);
        assert("TurretKilled"@.len() == 12);
        assert("FirstBrick"@.len() == 10);
        assert("InhibKilled"@.len() == 11);
        assert("Ace"@.len() == 3);
        assert("ChampionKill"@[0] == 'C' && "TurretKilled"@[0] == 'T');
        assert("FirstBlood"@[0] == 'F' && "DragonKill"@[0] == 'D' && "HeraldKill"@[0] == 'H');
        assert("FirstBlood"@[6] == 'l' && "FirstBrick"@[6] == 'r');
        assert("Multikill"@[0] == 'M' && "BaronKill"@[0] == 'B');
        assert("ChampionKill"@ != "TurretKilled"@);
        assert("FirstBlood"@ != "DragonKill"@);
        assert("FirstBlood"@ != "HeraldKill"@);
        assert("FirstBlood"@ != "FirstBrick"@);
        assert("DragonKill"@ != "HeraldKill"@);
        assert("DragonKill"@ != "FirstBrick"@);
        assert("HeraldKill"@ != "FirstBrick"@);
        assert("Multikill"@ != "BaronKill"@);
    }
    let name = ev.event_name.as_str();
    if strutil::str_eq(name, "ChampionKill") {
        let killer = unwrap_or_empty(&ev.killer_name);
        let victim = unwrap_or_empty(&ev.victim_name);
        Some(
            GameEvent::Kill {
                killer_champion: champion_of(ctx, &ev.killer_name),
                victim_champion: champion_of(ctx, &ev.victim_name),
                killer_team: killer_team_of(ctx, &ev.killer_name),
                killer_name: killer,
                victim_name: victim,
                local_player_name: ctx.local_player_name.clone(),
                local_player_team: ctx.local_player_team.clone(),
                is_first_blood: None,
            },
        )
    } else if strutil::str_eq(name, "FirstBlood") {
        Some(
            GameEvent::FirstBlood {
                killer_champion: champion_of(ctx, &ev.killer_name),
                victim_champion: champion_of(ctx, &ev.victim_name),
                killer_team: killer_team_of(ctx, &ev.killer_name),
                killer_name: unwrap_or_empty(&ev.killer_name),
                victim_name: unwrap_or_empty(&ev.victim_name),
                local_player_name: ctx.local_player_name.clone(),
                local_player_team: ctx.local_player_team.clone(),
            },
        )
    } else if strutil::str_eq(name, "Multikill") {
        let kill_count: i64 = match ev.kill_streak {
            Some(k) => k,
            None => 2,
        };
        Some(
            GameEvent::MultiKill {
                killer_champion: champion_of(ctx, &ev.killer_name),
                killer_team: killer_team_of(ctx, &ev.killer_name),
                killer_name: unwrap_or_empty(&ev.killer_name),
                kill_count,
                local_player_name: ctx.local_player_name.clone(),
                local_player_team: ctx.local_player_team.clone(),
            },
        )
    } else if strutil::str_eq(name, "DragonKill") {
        Some(
            GameEvent::Objective {
                objective_type: String::from_str("dragon"),
                killer_name: crate::context::clone_opt_string(&ev.killer_name),
                dragon_type: match &ev.dragon_type {
                    Some(dt) => Some(strutil::to_lowercase(dt.as_str())),
                    None => None,
                },
                is_stolen: Some(stolen_is_true(&ev.stolen)),
                team: side_of(ctx, &ev.killer_name),
                local_player_name: ctx.local_player_name.clone(),
            },
        )
    } else if strutil::str_eq(name, "BaronKill") {
        Some(
            GameEvent::Objective {
                objective_type: String::from_str("baron"),
                killer_name: crate::context::clone_opt_string(&ev.killer_name),
                dragon_type: None,
                is_stolen: Some(stolen_is_true(&ev.stolen)),
                team: side_of(ctx, &ev.killer_name),
                local_player_name: ctx.local_player_name.clone(),
            },
        )
    } else if strutil::str_eq(name, "HeraldKill") {
        Some(
            GameEvent::Objective {
                objective_type: String::from_str("herald"),
                killer_name: crate::context::clone_opt_string(&ev.killer_name),
                dragon_type: None,
                is_stolen: Some(stolen_is_true(&ev.stolen)),
                team: side_of(ctx, &ev.killer_name),
                local_player_name: ctx.local_player_name.clone(),
            },
        )
    } else if strutil::str_eq(name, "TurretKilled") || strutil::str_eq(name, "FirstBrick") {
        Some(
            GameEvent::Objective {
                objective_type: String::from_str("tower"),
                killer_name: crate::context::clone_opt_string(&ev.killer_name),
                dragon_type: None,
                is_stolen: None,
                team: side_of(ctx, &ev.killer_name),
                local_player_name: ctx.local_player_name.clone(),
            },
        )
    } else if strutil::str_eq(name, "InhibKilled") {
        Some(
            GameEvent::Objective {
                objective_type: String::from_str("inhibitor"),
                killer_name: crate::context::clone_opt_string(&ev.killer_name),
                dragon_type: None,
                is_stolen: None,
                team: side_of(ctx, &ev.killer_name),
                local_player_name: ctx.local_player_name.clone(),
            },
        )
    } else if strutil::str_eq(name, "Ace") {
        Some(
            GameEvent::Ace {
                acing_team: unwrap_or_empty(&ev.acing_team),
                local_player_team: ctx.local_player_team.clone(),
            },
        )
    } else {
        None
    }
}

/// The event kind labels the pipeline handles.
pub open spec fn recognized_event_name(name: Seq<char>) -> bool {
    ||| name == "ChampionKill"@
    ||| name == "FirstBlood"@
    ||| name == "Multikill"@
    ||| name == "DragonKill"@
    ||| name == "BaronKill"@
    ||| name == "HeraldKill"@
    ||| name == "TurretKilled"@
    ||| name == "FirstBrick"@
    ||| name == "InhibKilled"@
    ||| name == "Ace"@
}

/// The string's value, or an empty string when absent.
fn unwrap_or_empty(s: &Option<String>) -> (r: String)
    ensures
        r@ == opt_chars(*s),
{
    match s {
        Some(v) => v.clone(),
        None => String::new(),
    }
}

/// The credited participant's champion from the roster.
fn champion_of(ctx: &roster::GameContext, killer: &Option<String>) -> (r: Option<String>)
    ensures
        opt_chars_opt(r) == champion_chars(*ctx, *killer),
{
    let name = unwrap_or_empty(killer);
    match roster::find_player(&ctx.players, name.as_str()) {
        Some(i) => Some(ctx.players[i].champion_name.clone()),
        None => None,
    }
}

/// The credited participant's team label from the roster, empty when
/// unknown.
fn killer_team_of(ctx: &roster::GameContext, killer: &Option<String>) -> (r: String)
    ensures
        r@ == killer_team_chars(*ctx, *killer),
{
    let name = unwrap_or_empty(killer);
    match roster::find_player(&ctx.players, name.as_str()) {
        Some(i) => ctx.players[i].team.clone(),
        None => String::new(),
    }
}

/// The side label for an objective: `ally` or `enemy` for a participant the
/// roster knows, empty for an unresolved one.
fn side_of(ctx: &roster::GameContext, killer: &Option<String>) -> (r: String)
    ensures
        r@ == side_chars(*ctx, *killer),
{
    let name = unwrap_or_empty(killer);
    match roster::find_player(&ctx.players, name.as_str()) {
        Some(i) => {
            if strutil::str_eq(ctx.players[i].team.as_str(), ctx.local_player_team.as_str()) {
                String::from_str("ally")
            } else {
                String::from_str("enemy")
            }
        }
        None => String::new(),
    }
}

/// Whether the free-text stolen field reads exactly `True`.
fn stolen_is_true(s: &Option<String>) -> (r: bool)
    ensures
        r == stolen_flag(*s),
{
    match s {
        Some(v) => strutil::str_eq(v.as_str(), "True"),
        None => false,
    }
}

/// The subscription message of the event socket: an opcode and a path in a
/// two-element array.
pub fn json_message(opcode: u8, path: &str) -> (r: String)
    ensures
        r@ == "["@ + strutil::dec_rep(opcode as nat) + ", \""@ + path@ + "\"]"@,
{
    let mut r = String::from_str("[");
    let op = strutil::u64_to_dec(opcode as u64);
    r.append(op.as_str());
    r.append(", \"");
    r.append(path);
    r.append("\"]");
    r
}

/// Throttles a recurring diagnostic: between matches the poll fails on every
/// cycle, and at most one warning per window should surface.
#[derive(Debug, Clone, Copy)]
pub struct WarnThrottle {
    /// When the last warning surfaced, in seconds of monotonic time.
    last_warning: Option<u64>,
    /// Minimum quiet time between warnings, in seconds.
    window_secs: u64,
}

impl WarnThrottle {
    /// When the last warning surfaced.
    pub closed spec fn last_spec(&self) -> Option<u64> {
        self.last_warning
    }

    /// The quiet window length.
    pub closed spec fn window_spec(&self) -> u64 {
        self.window_secs
    }

    /// A warning is due when none surfaced yet, or the window has fully
    /// passed since the last one.
    pub open spec fn due(&self, now: u64) -> bool {
        match self.last_spec() {
            Some(t) => now as int - t as int > self.window_spec() as int,
            None => true,
        }
    }

    /// A throttle that lets the first warning through at once.
    pub fn new(window_secs: u64) -> (r: Self)
        ensures
            r.last_spec() is None,
            r.window_spec() == window_secs,
    {
        WarnThrottle { last_warning: None, window_secs }
    }

    /// Notes one failed cycle at `now` and says whether a warning should
    /// surface; surfacing one starts a new quiet window.
    pub fn note_failure(&mut self, now: u64) -> (r: bool)
        ensures
            r == old(self).due(now),
            r ==> final(self).last_spec() == Some(now),
            !r ==> *final(self) == *old(self),
            final(self).window_spec() == old(self).window_spec(),
    {
        let warn = match self.last_warning {
            Some(t) => now > t && now - t > self.window_secs,
            None => true,
        };
        if warn {
            self.last_warning = Some(now);
        }
        warn
    }
}

/// Note of a match phase change worth surfacing.
#[derive(Debug, Clone, Copy, PartialEq, Eq, Structural)]
pub enum GameflowTransition {
    /// A match began.
    Started,
    /// A match ended.
    Ended,
}

/// Classifies a gameflow phase label: only the in-progress and end-of-match
/// phases are worth surfacing.
pub fn classify_gameflow(phase: &str) -> (r: Option<GameflowTransition>)
    ensures
        phase@ == "InProgress"@ <==> r == Some(GameflowTransition::Started),
        phase@ == "EndOfGame"@ <==> r == Some(GameflowTransition::Ended),
        r is None <==> phase@ != "InProgress"@ && phase@ != "EndOfGame"@,
{
    proof {
        reveal_strlit("InProgress");
        reveal_strlit("EndOfGame");
        assert("InProgress"@.len() == 10);
        assert("EndOfGame"@.len() == 9);
        assert("InProgress"@ != "EndOfGame"@);
    }
    if strutil::str_eq(phase, "InProgress") {
        Some(GameflowTransition::Started)
    } else if strutil::str_eq(phase, "EndOfGame") {
        Some(GameflowTransition::Ended)
    } else {
        None
    }
}

} // verus!
