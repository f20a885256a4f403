//! The sound rule engine: pools of candidate sounds with a selection mode,
//! prioritized conditional rules, per-event-kind default pools, and the
//! decision procedure that maps an event context to a chosen sound and an
//! effective volume.
//!
//! Volumes and selection weights are fixed-point values in thousandths, so a
//! volume of `UNIT_VOLUME` plays at the configured level and a weight of
//! `UNIT_VOLUME` is the default drawing weight.

use vstd::prelude::*;
use crate::strutil;

verus! {

/// One thousandth steps: the fixed-point unit for volumes and weights.
pub const UNIT_VOLUME: u32 = 1000;

/// A sound source: either a file path or a remote address.
#[derive(Debug)]
pub enum SoundSource {
    /// A local file, by path.
    File { path: String },
    /// A remote source, by address.
    Url { url: String },
}

/// A single sound entry with volume and metadata.
#[derive(Debug)]
pub struct SoundEntry {
    /// Identifier of the entry.
    pub id: String,
    /// Where the audio comes from.
    pub source: SoundSource,
    /// Volume multiplier in thousandths; `UNIT_VOLUME` plays unchanged.
    pub volume: u32,
    /// Optional selection weight in thousandths; `None` weighs `UNIT_VOLUME`.
    pub weight: Option<u32>,
    /// Disabled entries are never selected.
    pub enabled: bool,
}

/// How one sound is drawn from a pool.
#[derive(Debug, Clone, Copy, PartialEq, Eq, Structural)]
pub enum SelectionMode {
    /// Uniform draw over the enabled entries.
    Random,
    /// Deterministic choice: the first enabled entry. The pool carries no
    /// cursor across calls, so this is a first-enabled alias rather than a
    /// rotation.
    Sequential,
    /// Draw proportional to each enabled entry's weight.
    Weighted,
}

impl Default for SelectionMode {
    /// Pools select uniformly unless configured otherwise.
    fn default() -> (r: Self)
        ensures
            r == SelectionMode::Random,
    {
        SelectionMode::Random
    }
}

/// An ordered list of sound entries plus a selection mode.
#[derive(Debug, Clone)]
pub struct SoundPool {
    /// The candidate entries, in configuration order.
    pub sounds: Vec<SoundEntry>,
    /// How one entry is drawn.
    pub selection_mode: SelectionMode,
}

impl Default for SoundPool {
    /// An empty pool: selecting from it yields no sound.
    fn default() -> (r: Self)
        ensures
            r.sounds@.len() == 0,
            r.selection_mode == SelectionMode::Random,
    {
        SoundPool { sounds: Vec::new(), selection_mode: SelectionMode::Random }
    }
}

/// The weight an entry contributes to a weighted draw.
pub open spec fn weight_of(e: SoundEntry) -> int {
    match e.weight {
        Some(w) => w as int,
        None => UNIT_VOLUME as int,
    }
}

/// Some entry of `s` is enabled.
pub open spec fn has_enabled(s: Seq<SoundEntry>) -> bool {
    exists|i: int| 0 <= i < s.len() && s[i].enabled
}

/// `i` is the first enabled index of `s`.
pub open spec fn is_first_enabled(s: Seq<SoundEntry>, i: int) -> bool {
    &&& 0 <= i < s.len()
    &&& s[i].enabled
    &&& forall|j: int| 0 <= j < i ==> !s[j].enabled
}

/// How many of the first `i` entries of `s` are enabled.
pub open spec fn enabled_before(s: Seq<SoundEntry>, i: int) -> int
    decreases i,
{
    if i <= 0 {
        0
    } else {
        enabled_before(s, i - 1) + if s[i - 1].enabled {
            1int
        } else {
            0int
        }
    }
}

/// Total enabled entries of `s`.
pub open spec fn enabled_count(s: Seq<SoundEntry>) -> int {
    enabled_before(s, s.len() as int)
}

/// Summed weight of the enabled entries among the first `i` of `s`.
pub open spec fn cum_weight(s: Seq<SoundEntry>, i: int) -> int
    decreases i,
{
    if i <= 0 {
        0
    } else {
        cum_weight(s, i - 1) + if s[i - 1].enabled {
            weight_of(s[i - 1])
        } else {
            0int
        }
    }
}

/// Total weight of the enabled entries of `s`.
pub open spec fn total_weight(s: Seq<SoundEntry>) -> int {
    cum_weight(s, s.len() as int)
}

/// The volume a sound entry carries when none is configured: unit volume.
pub fn default_volume() -> (r: u32)
    ensures
        r == UNIT_VOLUME,
{
    UNIT_VOLUME
}

/// Entries and rules are enabled unless configured otherwise.
pub fn default_enabled() -> (r: bool)
    ensures
        r,
{
    true
}

/// The priority a rule carries when none is configured.
pub fn default_priority() -> (r: u32)
    ensures
        r == 50,
{
    50
}

/// The version a pack carries when none is recorded.
pub fn default_version() -> (r: String)
    ensures
        r@ == "1.0.0"@,
{
    String::from_str("1.0.0")
}

/// Relies on rand::random_range: a draw from `0..bound` lies below `bound`.
/// The draw is uniform over the range; nothing beyond membership is assumed.
#[verifier::external_body]
fn random_below(bound: u128) -> (r: u128)
    requires
        bound > 0,
    ensures
        r < bound,
{
    rand::random_range(0..bound)
}

/// Counting enabled entries never decreases and rises by at most one per step.
proof fn lemma_enabled_before_monotone(s: Seq<SoundEntry>, i: int, j: int)
    requires
        i <= j,
    ensures
        enabled_before(s, i) <= enabled_before(s, j),
    decreases j - i,
{
    if i < j {
        lemma_enabled_before_monotone(s, i, j - 1);
    }
}

impl SoundPool {
    /// The index of the first enabled entry, or `None` when every entry is
    /// disabled or the pool is empty.
    pub fn first_enabled_index(&self) -> (r: Option<usize>)
        ensures
            r is Some <==> has_enabled(self.sounds@),
            r is Some ==> is_first_enabled(self.sounds@, r->0 as int),
    {
        let mut i: usize = 0;
        while i < self.sounds.len()
            invariant
                i <= self.sounds@.len(),
                forall|j: int| 0 <= j < i ==> !self.sounds@[j].enabled,
            decreases self.sounds@.len() - i,
        {
            if self.sounds[i].enabled {
                return Some(i);
            }
            i = i + 1;
        }
        None
    }

    /// The number of enabled entries.
    pub fn count_enabled(&self) -> (r: usize)
        ensures
            r as int == enabled_count(self.sounds@),
    {
        let mut i: usize = 0;
        let mut n: usize = 0;
        while i < self.sounds.len()
            invariant
                i <= self.sounds@.len(),
                n as int == enabled_before(self.sounds@, i as int),
                n <= i,
            decreases self.sounds@.len() - i,
        {
            if self.sounds[i].enabled {
                n = n + 1;
            }
            i = i + 1;
        }
        n
    }

    /// The index of the `d`-th enabled entry, counting from zero: the uniform
    /// draw `d` picks exactly this entry.
    pub fn nth_enabled_index(&self, d: usize) -> (r: usize)
        requires
            (d as int) < enabled_count(self.sounds@),
        ensures
            r < self.sounds@.len(),
            self.sounds@[r as int].enabled,
            enabled_before(self.sounds@, r as int) == d as int,
    {
        let n = self.sounds.len();
        let mut i: usize = 0;
        let mut seen: usize = 0;
        loop
            invariant
                n == self.sounds@.len(),
                i <= n,
                seen as int == enabled_before(self.sounds@, i as int),
                (d as int) < enabled_count(self.sounds@),
                seen <= d,
            ensures
                i < self.sounds@.len(),
                self.sounds@[i as int].enabled,
                enabled_before(self.sounds@, i as int) == d as int,
                seen == d,
            decreases n - i,
        {
            proof {
                if i >= n {
                    assert(false);
                }
            }
            if self.sounds[i].enabled {
                if seen == d {
                    break;
                }
                seen = seen + 1;
            }
            i = i + 1;
        }
        i
    }

    /// The entry a weighted draw of `t` lands on: the unique enabled index
    /// whose cumulative weight interval contains `t`.
    pub fn weighted_index(&self, t: u128) -> (r: usize)
        requires
            (t as int) < total_weight(self.sounds@),
        ensures
            r < self.sounds@.len(),
            self.sounds@[r as int].enabled,
            cum_weight(self.sounds@, r as int) <= t as int,
            (t as int) < cum_weight(self.sounds@, r as int + 1),
    {
        let n = self.sounds.len();
        let mut i: usize = 0;
        let mut acc: u128 = 0;
        loop
            invariant
                n == self.sounds@.len(),
                i <= n,
                acc as int == cum_weight(self.sounds@, i as int),
                (t as int) < total_weight(self.sounds@),
                acc <= t,
            ensures
                i < self.sounds@.len(),
                self.sounds@[i as int].enabled,
                cum_weight(self.sounds@, i as int) <= t as int,
                (t as int) < cum_weight(self.sounds@, i as int + 1),
            decreases n - i,
        {
            proof {
                if i >= n {
                    assert(false);
                }
            }
            if self.sounds[i].enabled {
                let w: u32 = match self.sounds[i].weight {
                    Some(w) => w,
                    None => UNIT_VOLUME,
                };
                if t - acc < w as u128 {
                    break;
                }
                acc = acc + w as u128;
            }
            i = i + 1;
        }
        i
    }

    /// The total weight of the enabled entries, as carried by a weighted draw.
    pub fn compute_total_weight(&self) -> (r: u128)
        ensures
            r as int == total_weight(self.sounds@),
    {
        let mut i: usize = 0;
        let mut acc: u128 = 0;
        while i < self.sounds.len()
            invariant
                i <= self.sounds@.len(),
                acc as int == cum_weight(self.sounds@, i as int),
                acc <= (i as u128) * (u32::MAX as u128),
            decreases self.sounds@.len() - i,
        {
            if self.sounds[i].enabled {
                let w: u32 = match self.sounds[i].weight {
                    Some(w) => w,
                    None => UNIT_VOLUME,
                };
                proof {
                    assert(acc + w as u128 <= (i as u128 + 1) * (u32::MAX as u128))
                        by (nonlinear_arith)
                        requires
                            acc <= (i as u128) * (u32::MAX as u128),
                            w <= u32::MAX,
                    ;
                }
                acc = acc + w as u128;
            } else {
                proof {
                    assert((i as u128) * (u32::MAX as u128) <= (i as u128 + 1) * (u32::MAX as u128))
                        by (nonlinear_arith);
                }
            }
            i = i + 1;
        }
        acc
    }

    /// Selects one entry from the pool according to the selection mode and
    /// returns its index, or `None` when no entry is enabled.
    ///
    /// A successful selection always lands on an enabled entry. `Sequential`
    /// picks the first enabled entry, and a weighted pool whose total weight
    /// is zero falls back to the first enabled entry; `Random` draws
    /// uniformly, and `Weighted` draws proportional to the weights.
    pub fn select_sound(&self) -> (r: Option<usize>)
        ensures
            r is Some <==> has_enabled(self.sounds@),
            r is Some ==> (r->0 as int) < self.sounds@.len() && self.sounds@[r->0 as int].enabled,
            self.selection_mode == SelectionMode::Sequential && has_enabled(self.sounds@)
                ==> is_first_enabled(self.sounds@, r->0 as int),
            self.selection_mode == SelectionMode::Weighted && has_enabled(self.sounds@)
                && total_weight(self.sounds@) == 0 ==> is_first_enabled(self.sounds@, r->0 as int),
    {
        match self.selection_mode {
            SelectionMode::Random => {
                let n = self.count_enabled();
                if n == 0 {
                    proof {
                        if has_enabled(self.sounds@) {
                            let w = choose|i: int|
                                0 <= i < self.sounds@.len() && self.sounds@[i].enabled;
                            lemma_enabled_step(self.sounds@, w);
                            lemma_enabled_before_monotone(
                                self.sounds@,
                                w + 1,
                                self.sounds@.len() as int,
                            );
                        }
                    }
                    return None;
                }
                let d = random_below(n as u128);
                let idx = self.nth_enabled_index(d as usize);
                Some(idx)
            }
            SelectionMode::Sequential => self.first_enabled_index(),
            SelectionMode::Weighted => {
                match self.first_enabled_index() {
                    None => None,
                    Some(first) => {
                        let total = self.compute_total_weight();
                        if total == 0 {
                            return Some(first);
                        }
                        let t = random_below(total);
                        let idx = self.weighted_index(t);
                        Some(idx)
                    }
                }
            }
        }
    }
}

/// An enabled entry raises the enabled count of the prefix just past it.
proof fn lemma_enabled_step(s: Seq<SoundEntry>, i: int)
    requires
        0 <= i < s.len(),
        s[i].enabled,
    ensures
        enabled_before(s, i + 1) >= 1,
{
    lemma_enabled_before_monotone(s, 0, i);
}

impl Clone for SoundSource {
    /// A clone is the same source.
    fn clone(&self) -> (r: Self)
        ensures
            r == *self,
    {
        match self {
            SoundSource::File { path } => SoundSource::File { path: path.clone() },
            SoundSource::Url { url } => SoundSource::Url { url: url.clone() },
        }
    }
}

impl Clone for SoundEntry {
    /// A clone is the same entry.
    fn clone(&self) -> (r: Self)
        ensures
            r == *self,
    {
        SoundEntry {
            id: self.id.clone(),
            source: self.source.clone(),
            volume: self.volume,
            weight: self.weight,
            enabled: self.enabled,
        }
    }
}

/// Which participant of a kill a player condition looks at.
#[derive(Debug, Clone, Copy, PartialEq, Eq, Structural)]
pub enum PlayerField {
    /// The participant credited with the kill.
    Killer,
    /// The participant that was taken down.
    Victim,
}

/// Which participant's champion a champion condition looks at.
#[derive(Debug, Clone, Copy, PartialEq, Eq, Structural)]
pub enum ChampionField {
    /// The killer's champion.
    KillerChampion,
    /// The victim's champion.
    VictimChampion,
}

/// Multi-kill tiers.
#[derive(Debug, Clone, Copy, PartialEq, Eq, Structural)]
pub enum MultikillType {
    /// Two takedowns in short order.
    Double,
    /// Three.
    Triple,
    /// Four.
    Quadra,
    /// Five.
    Penta,
}

/// Objective kinds.
#[derive(Debug, Clone, Copy, PartialEq, Eq, Structural)]
pub enum ObjectiveType {
    /// A turret.
    Tower,
    /// An inhibitor.
    Inhibitor,
    /// Any dragon.
    Dragon,
    /// The baron.
    Baron,
    /// The rift herald.
    Herald,
}

/// Dragon element variants.
#[derive(Debug, Clone, Copy, PartialEq, Eq, Structural)]
pub enum DragonKind {
    /// Fire.
    Infernal,
    /// Earth.
    Mountain,
    /// Water.
    Ocean,
    /// Air.
    Cloud,
    /// Hextech.
    Hextech,
    /// Chemtech.
    Chemtech,
    /// Elder.
    Elder,
}

/// Team side relative to the local participant.
#[derive(Debug, Clone, Copy, PartialEq, Eq, Structural)]
pub enum TeamType {
    /// The local participant's team.
    Ally,
    /// The opposing team.
    Enemy,
}

/// Match outcome for end-of-match events.
#[derive(Debug, Clone, Copy, PartialEq, Eq, Structural)]
pub enum GameResult {
    /// The local participant's team won.
    Victory,
    /// The local participant's team lost.
    Defeat,
}

/// How the conditions of one rule are combined.
#[derive(Debug, Clone, Copy, PartialEq, Eq, Structural)]
pub enum ConditionLogic {
    /// Every condition must hold.
    All,
    /// At least one condition must hold.
    Any,
}

impl Default for ConditionLogic {
    /// Conditions are conjoined unless configured otherwise.
    fn default() -> (r: Self)
        ensures
            r == ConditionLogic::All,
    {
        ConditionLogic::All
    }
}

/// One condition of a sound rule.
#[derive(Debug, Clone)]
pub enum RuleCondition {
    /// The named participant is in a player list, or is the local
    /// participant when the escape hatch is set.
    Player {
        /// Which participant to test.
        field: PlayerField,
        /// Names that match, without regard to ASCII case.
        players: Vec<String>,
        /// Also match when the participant is the local player.
        include_local_player: bool,
    },
    /// The participant's champion is in a list.
    Champion {
        /// Which participant's champion to test.
        field: ChampionField,
        /// Champion names that match, without regard to ASCII case.
        champions: Vec<String>,
    },
    /// The event's multi-kill tier is one of a set.
    Multikill {
        /// Tiers that match.
        kill_types: Vec<MultikillType>,
    },
    /// The event's objective kind is one of a set.
    Objective {
        /// Kinds that match.
        objectives: Vec<ObjectiveType>,
    },
    /// The event's dragon variant is one of a set.
    DragonType {
        /// Variants that match.
        dragons: Vec<DragonKind>,
    },
    /// The contested/stolen flag has a given value.
    Stolen {
        /// Expected flag value.
        is_stolen: bool,
    },
    /// The acting participant is on a given side.
    Team {
        /// Expected side.
        team: TeamType,
    },
    /// The match outcome has a given value.
    GameResult {
        /// Expected outcome.
        result: GameResult,
    },
}

/// Event kinds that can trigger sounds.
#[derive(Debug, Clone, Copy, PartialEq, Eq, Hash, Structural)]
pub enum EventType {
    /// The match started.
    GameStart,
    /// The match ended.
    GameEnd,
    /// The first takedown of the match.
    FirstBlood,
    /// A champion takedown.
    Kill,
    /// A multi-kill.
    MultiKill,
    /// An objective capture.
    Objective,
    /// A full enemy team wipe.
    Ace,
}

/// A prioritized, conditional mapping from event context to a sound pool.
#[derive(Debug, Clone)]
pub struct SoundRule {
    /// Identifier of the rule.
    pub id: String,
    /// Display name.
    pub name: String,
    /// Disabled rules never match.
    pub enabled: bool,
    /// Higher priorities are evaluated first.
    pub priority: u32,
    /// The conditions; a rule with no conditions never matches.
    pub conditions: Vec<RuleCondition>,
    /// How the conditions combine.
    pub condition_logic: ConditionLogic,
    /// Candidate sounds of the rule.
    pub sounds: SoundPool,
}

/// Pack-wide playback settings.
#[derive(Debug, Clone)]
pub struct SoundPackSettings {
    /// Master volume in thousandths; scales every entry's volume.
    pub master_volume: u32,
    /// Whether loudness normalization is requested of the audio output.
    pub normalization: bool,
}

impl Default for SoundPackSettings {
    /// Unit master volume, normalization on.
    fn default() -> (r: Self)
        ensures
            r.master_volume == UNIT_VOLUME,
            r.normalization,
    {
        SoundPackSettings { master_volume: UNIT_VOLUME, normalization: true }
    }
}

/// A complete sound pack: rules plus per-event-kind default pools.
///
/// Loaded once per session and read-only during evaluation.
#[derive(Debug, Clone)]
pub struct SoundPack {
    /// Identifier of the pack.
    pub id: String,
    /// Display name.
    pub name: String,
    /// Version string.
    pub version: String,
    /// Author, if recorded.
    pub author: Option<String>,
    /// Description, if recorded.
    pub description: Option<String>,
    /// Playback settings.
    pub settings: SoundPackSettings,
    /// Fallback pools, keyed by event kind; the first entry for a kind wins.
    pub defaults: Vec<(EventType, SoundPool)>,
    /// The rules, in configuration order.
    pub rules: Vec<SoundRule>,
}

impl Default for SoundPack {
    /// An empty pack with no defaults and no rules.
    fn default() -> (r: Self)
        ensures
            r.id@ == "default"@,
            r.settings.master_volume == UNIT_VOLUME,
            r.defaults@.len() == 0,
            r.rules@.len() == 0,
    {
        SoundPack {
            id: String::from_str("default"),
            name: String::from_str("Default Sound Pack"),
            version: String::from_str("1.0.0"),
            author: None,
            description: None,
            settings: SoundPackSettings { master_volume: UNIT_VOLUME, normalization: true },
            defaults: Vec::new(),
            rules: Vec::new(),
        }
    }
}

/// Normalized, per-event snapshot of everything a rule can condition on.
///
/// A field absent from the event degrades to `None` or `false`; conditions
/// that reference it then evaluate to false rather than erroring.
#[derive(Debug, Clone)]
pub struct EventContext {
    /// The event kind, when recognized.
    pub event_type: Option<EventType>,
    /// Killer's name.
    pub killer_name: Option<String>,
    /// Victim's name.
    pub victim_name: Option<String>,
    /// Killer's champion.
    pub killer_champion: Option<String>,
    /// Victim's champion.
    pub victim_champion: Option<String>,
    /// Whether the killer is the local participant.
    pub killer_is_local: bool,
    /// Whether the victim is the local participant.
    pub victim_is_local: bool,
    /// Multi-kill tier, when applicable.
    pub multikill_type: Option<MultikillType>,
    /// Objective kind, when applicable.
    pub objective_type: Option<ObjectiveType>,
    /// Dragon variant, when applicable.
    pub dragon_type: Option<DragonKind>,
    /// Whether the objective was contested or stolen.
    pub is_stolen: bool,
    /// Which side the acting participant stands on relative to the local
    /// team, or `None` when the roster could not resolve it; an unresolved
    /// team matches no team condition.
    pub actor_team: Option<TeamType>,
    /// Match outcome, for end-of-match events.
    pub game_result: Option<GameResult>,
    /// The local participant's name, when known.
    pub local_player_name: Option<String>,
}

impl Default for EventContext {
    /// A context with nothing known: no kind, no names, every flag false.
    fn default() -> (r: Self)
        ensures
            r.event_type is None,
            r.killer_name is None,
            r.victim_name is None,
            r.killer_champion is None,
            r.victim_champion is None,
            !r.killer_is_local,
            !r.victim_is_local,
            r.multikill_type is None,
            r.objective_type is None,
            r.dragon_type is None,
            !r.is_stolen,
            r.actor_team is None,
            r.game_result is None,
            r.local_player_name is None,
    {
        EventContext {
            event_type: None,
            killer_name: None,
            victim_name: None,
            killer_champion: None,
            victim_champion: None,
            killer_is_local: false,
            victim_is_local: false,
            multikill_type: None,
            objective_type: None,
            dragon_type: None,
            is_stolen: false,
            actor_team: None,
            game_result: None,
            local_player_name: None,
        }
    }
}

/// `name` equals some entry of `list`, with ASCII case folded.
pub open spec fn name_in_list(list: Seq<String>, name: Seq<char>) -> bool {
    exists|i: int| 0 <= i < list.len() && strutil::eq_fold(list[i]@, name)
}

/// What one condition means against a context.
pub open spec fn condition_holds(c: RuleCondition, ctx: EventContext) -> bool {
    match c {
        RuleCondition::Player { field, players, include_local_player } => {
            let target = if field == PlayerField::Killer {
                ctx.killer_name
            } else {
                ctx.victim_name
            };
            let is_local = if field == PlayerField::Killer {
                ctx.killer_is_local
            } else {
                ctx.victim_is_local
            };
            ||| include_local_player && is_local
            ||| match target {
                Some(n) => name_in_list(players@, n@),
                None => false,
            }
        }
        RuleCondition::Champion { field, champions } => {
            let target = if field == ChampionField::KillerChampion {
                ctx.killer_champion
            } else {
                ctx.victim_champion
            };
            match target {
                Some(n) => name_in_list(champions@, n@),
                None => false,
            }
        }
        RuleCondition::Multikill { kill_types } => match ctx.multikill_type {
            Some(mt) => kill_types@.contains(mt),
            None => false,
        },
        RuleCondition::Objective { objectives } => match ctx.objective_type {
            Some(ot) => objectives@.contains(ot),
            None => false,
        },
        RuleCondition::DragonType { dragons } => match ctx.dragon_type {
            Some(dt) => dragons@.contains(dt),
            None => false,
        },
        RuleCondition::Stolen { is_stolen } => ctx.is_stolen == is_stolen,
        RuleCondition::Team { team } => ctx.actor_team == Some(team),
        RuleCondition::GameResult { result } => match ctx.game_result {
            Some(gr) => gr == result,
            None => false,
        },
    }
}

/// What a whole rule means against a context: a rule with zero conditions
/// never matches, `All` conjoins, `Any` disjoins.
pub open spec fn rule_matches_spec(r: SoundRule, ctx: EventContext) -> bool {
    &&& r.conditions@.len() > 0
    &&& match r.condition_logic {
        ConditionLogic::All => forall|i: int|
            0 <= i < r.conditions@.len() ==> condition_holds(#[trigger] r.conditions@[i], ctx),
        ConditionLogic::Any => exists|i: int|
            0 <= i < r.conditions@.len() && condition_holds(#[trigger] r.conditions@[i], ctx),
    }
}

/// Rule `i` can produce a sound for `ctx`: it is enabled, it matches, and its
/// pool has an enabled entry.
pub open spec fn rule_eligible(rules: Seq<SoundRule>, ctx: EventContext, i: int) -> bool {
    &&& 0 <= i < rules.len()
    &&& rules[i].enabled
    &&& rule_matches_spec(rules[i], ctx)
    &&& has_enabled(rules[i].sounds.sounds@)
}

/// Rule `i` is the one the engine picks: eligible, of maximal priority among
/// eligible rules, and earliest in configuration order among those of equal
/// priority.
pub open spec fn is_best_rule(rules: Seq<SoundRule>, ctx: EventContext, i: int) -> bool {
    &&& rule_eligible(rules, ctx, i)
    &&& forall|j: int|
        rule_eligible(rules, ctx, j) ==> rules[j].priority < rules[i].priority || (
        rules[j].priority == rules[i].priority && j >= i)
}

/// The default pool configured for event kind `k`: the first entry with that
/// kind, if any.
pub open spec fn defaults_lookup(d: Seq<(EventType, SoundPool)>, k: EventType) -> Option<
    SoundPool,
>
    decreases d.len(),
{
    if d.len() == 0 {
        None
    } else if d[0].0 == k {
        Some(d[0].1)
    } else {
        defaults_lookup(d.drop_first(), k)
    }
}

/// Whether the per-kind fallback can produce a sound for `ctx`.
pub open spec fn fallback_available(pack: SoundPack, ctx: EventContext) -> bool {
    match ctx.event_type {
        Some(k) => match defaults_lookup(pack.defaults@, k) {
            Some(pool) => has_enabled(pool.sounds@),
            None => false,
        },
        None => false,
    }
}

/// The effective playback volume: the entry's volume scaled by the master
/// volume, in thousandths, rounded down.
pub open spec fn effective_volume(volume: u32, master: u32) -> int {
    (volume * master) / (UNIT_VOLUME as int)
}

impl SoundPack {
    /// Evaluates one condition against a context. Total and side-effect-free:
    /// a condition on a field the context lacks is false, never an error.
    pub fn condition_matches(&self, condition: &RuleCondition, context: &EventContext) -> (r:
        bool)
        ensures
            r == condition_holds(*condition, *context),
    {
        match condition {
            RuleCondition::Player { field, players, include_local_player } => {
                let target: &Option<String> = match field {
                    PlayerField::Killer => &context.killer_name,
                    PlayerField::Victim => &context.victim_name,
                };
                let is_local = match field {
                    PlayerField::Killer => context.killer_is_local,
                    PlayerField::Victim => context.victim_is_local,
                };
                if *include_local_player && is_local {
                    return true;
                }
                match target {
                    Some(name) => name_list_has(players, name.as_str()),
                    None => false,
                }
            }
            RuleCondition::Champion { field, champions } => {
                let target: &Option<String> = match field {
                    ChampionField::KillerChampion => &context.killer_champion,
                    ChampionField::VictimChampion => &context.victim_champion,
                };
                match target {
                    Some(name) => name_list_has(champions, name.as_str()),
                    None => false,
                }
            }
            RuleCondition::Multikill { kill_types } => match context.multikill_type {
                Some(mt) => kill_type_list_has(kill_types, mt),
                None => false,
            },
            RuleCondition::Objective { objectives } => match context.objective_type {
                Some(ot) => objective_list_has(objectives, ot),
                None => false,
            },
            RuleCondition::DragonType { dragons } => match context.dragon_type {
                Some(dt) => dragon_list_has(dragons, dt),
                None => false,
            },
            RuleCondition::Stolen { is_stolen } => context.is_stolen == *is_stolen,
            RuleCondition::Team { team } => match (context.actor_team, team) {
                (Some(TeamType::Ally), TeamType::Ally) => true,
                (Some(TeamType::Enemy), TeamType::Enemy) => true,
                _ => false,
            },
            RuleCondition::GameResult { result } => match (context.game_result, result) {
                (Some(GameResult::Victory), GameResult::Victory) => true,
                (Some(GameResult::Defeat), GameResult::Defeat) => true,
                _ => false,
            },
        }
    }

    /// Evaluates a whole rule against a context under its combination mode.
    pub fn rule_matches(&self, rule: &SoundRule, context: &EventContext) -> (r: bool)
        ensures
            r == rule_matches_spec(*rule, *context),
    {
        let n = rule.conditions.len();
        if n == 0 {
            return false;
        }
        match rule.condition_logic {
            ConditionLogic::All => {
                let mut i: usize = 0;
                while i < n
                    invariant
                        n == rule.conditions@.len(),
                        n > 0,
                        rule.condition_logic == ConditionLogic::All,
                        i <= n,
                        forall|j: int|
                            0 <= j < i ==> condition_holds(#[trigger] rule.conditions@[j], *context),
                    decreases n - i,
                {
                    if !self.condition_matches(&rule.conditions[i], context) {
                        return false;
                    }
                    i = i + 1;
                }
                true
            }
            ConditionLogic::Any => {
                let mut i: usize = 0;
                while i < n
                    invariant
                        n == rule.conditions@.len(),
                        n > 0,
                        rule.condition_logic == ConditionLogic::Any,
                        i <= n,
                        forall|j: int|
                            0 <= j < i ==> !condition_holds(#[trigger] rule.conditions@[j], *context),
                    decreases n - i,
                {
                    if self.condition_matches(&rule.conditions[i], context) {
                        return true;
                    }
                    i = i + 1;
                }
                false
            }
        }
    }

    /// The default pool for event kind `k`, if one is configured.
    pub fn lookup_default(&self, k: EventType) -> (r: Option<&SoundPool>)
        ensures
            match r {
                Some(pool) => defaults_lookup(self.defaults@, k) == Some(*pool),
                None => defaults_lookup(self.defaults@, k) is None,
            },
    {
        let n = self.defaults.len();
        proof {
            assert(self.defaults@.subrange(0, n as int) =~= self.defaults@);
        }
        let mut i: usize = 0;
        while i < n
            invariant
                n == self.defaults@.len(),
                i <= n,
                defaults_lookup(self.defaults@, k) == defaults_lookup(
                    self.defaults@.subrange(i as int, n as int),
                    k,
                ),
            decreases n - i,
        {
            proof {
                assert(self.defaults@.subrange(i as int, n as int).drop_first()
                    =~= self.defaults@.subrange(i + 1, n as int));
                assert(self.defaults@.subrange(i as int, n as int)[0] == self.defaults@[i as int]);
            }
            let hit = match self.defaults[i].0 {
                EventType::GameStart => matches!(k, EventType::GameStart),
                EventType::GameEnd => matches!(k, EventType::GameEnd),
                EventType::FirstBlood => matches!(k, EventType::FirstBlood),
                EventType::Kill => matches!(k, EventType::Kill),
                EventType::MultiKill => matches!(k, EventType::MultiKill),
                EventType::Objective => matches!(k, EventType::Objective),
                EventType::Ace => matches!(k, EventType::Ace),
            };
            if hit {
                return Some(&self.defaults[i].1);
            }
            i = i + 1;
        }
        None
    }

    /// Finds the rule the engine should use for `context`: the eligible rule
    /// of maximal priority, earliest on ties.
    fn best_rule_index(&self, context: &EventContext) -> (r: Option<usize>)
        ensures
            match r {
                Some(i) => is_best_rule(self.rules@, *context, i as int),
                None => forall|j: int| !rule_eligible(self.rules@, *context, j),
            },
    {
        let n = self.rules.len();
        let mut best: Option<usize> = None;
        let mut i: usize = 0;
        while i < n
            invariant
                n == self.rules@.len(),
                i <= n,
                match best {
                    Some(b) => {
                        &&& (b as int) < i
                        &&& rule_eligible(self.rules@, *context, b as int)
                        &&& forall|j: int|
                            0 <= j < i && rule_eligible(self.rules@, *context, j)
                                ==> self.rules@[j].priority < self.rules@[b as int].priority || (
                            self.rules@[j].priority == self.rules@[b as int].priority && j
                                >= b as int)
                    },
                    None => forall|j: int| 0 <= j < i ==> !rule_eligible(self.rules@, *context, j),
                },
            decreases n - i,
        {
            let rule = &self.rules[i];
            let eligible = rule.enabled && self.rule_matches(rule, context)
                && rule.sounds.first_enabled_index().is_some();
            if eligible {
                match best {
                    Some(b) => {
                        if self.rules[i].priority > self.rules[b].priority {
                            best = Some(i);
                        }
                    }
                    None => {
                        best = Some(i);
                    }
                }
            }
            i = i + 1;
        }
        best
    }

    /// Decides the sound for an event: the best matching rule's pool wins;
    /// with no matching rule the per-kind default pool is used; with neither,
    /// there is no sound to play — a valid outcome, not an error.
    ///
    /// Returns the chosen entry and the effective volume, the entry's volume
    /// scaled by the pack's master volume.
    pub fn select_sound_for_event(&self, context: &EventContext) -> (r: Option<(SoundEntry, u64)>)
        ensures
            r is Some <==> (exists|i: int| rule_eligible(self.rules@, *context, i))
                || fallback_available(*self, *context),
            match r {
                Some(pair) => {
                    &&& pair.0.enabled
                    &&& pair.1 as int == effective_volume(pair.0.volume, self.settings.master_volume)
                    &&& if exists|i: int| rule_eligible(self.rules@, *context, i) {
                        exists|i: int, k: int|
                            {
                                &&& is_best_rule(self.rules@, *context, i)
                                &&& 0 <= k < self.rules@[i].sounds.sounds@.len()
                                &&& pair.0 == self.rules@[i].sounds.sounds@[k]
                            }
                    } else {
                        exists|k: int|
                            {
                                &&& ctx_default_pool(*self, *context) is Some
                                &&& 0 <= k < ctx_default_pool(*self, *context)->0.sounds@.len()
                                &&& pair.0 == ctx_default_pool(*self, *context)->0.sounds@[k]
                            }
                    }
                },
                None => true,
            },
    {
        match self.best_rule_index(context) {
            Some(b) => {
                let rule = &self.rules[b];
                match rule.sounds.select_sound() {
                    Some(k) => {
                        let entry = rule.sounds.sounds[k].clone();
                        proof {
                            lemma_volume_product_fits(entry.volume, self.settings.master_volume);
                        }
                        let volume = (entry.volume as u64) * (self.settings.master_volume as u64)
                            / (UNIT_VOLUME as u64);
                        Some((entry, volume))
                    }
                    None => {
                        // the eligibility test showed an enabled entry
                        proof {
                            assert(false);
                        }
                        None
                    }
                }
            }
            None => {
                let kind = match &context.event_type {
                    Some(k) => *k,
                    None => {
                        return None;
                    }
                };
                match self.lookup_default(kind) {
                    Some(pool) => {
                        match pool.select_sound() {
                            Some(k) => {
                                let entry = pool.sounds[k].clone();
                                proof {
                                    lemma_volume_product_fits(
                                        entry.volume,
                                        self.settings.master_volume,
                                    );
                                }
                                let volume = (entry.volume as u64) * (self.settings.master_volume
                                    as u64) / (UNIT_VOLUME as u64);
                                Some((entry, volume))
                            }
                            None => None,
                        }
                    }
                    None => None,
                }
            }
        }
    }
}

/// The product of two volumes in thousandths fits a 64-bit integer.
proof fn lemma_volume_product_fits(a: u32, b: u32)
    ensures
        (a as int) * (b as int) <= u64::MAX,
{
    assert((a as int) * (b as int) <= (u32::MAX as int) * (u32::MAX as int)) by (nonlinear_arith)
        requires
            a <= u32::MAX,
            b <= u32::MAX,
    ;
}

/// The default pool the context's event kind maps to, if any.
pub open spec fn ctx_default_pool(pack: SoundPack, ctx: EventContext) -> Option<SoundPool> {
    match ctx.event_type {
        Some(k) => defaults_lookup(pack.defaults@, k),
        None => None,
    }
}

/// Rule priority: of two rules that can both produce a sound for a context,
/// the lower-priority one is never the engine's choice, and whatever rule the
/// engine does choose has at least the higher of the two priorities. Combined
/// with the contract of `select_sound_for_event`, the selection comes from
/// the higher-priority rule's pool when only those two are eligible.
pub proof fn lemma_rule_priority(rules: Seq<SoundRule>, ctx: EventContext, i: int, j: int)
    requires
        rule_eligible(rules, ctx, i),
        rule_eligible(rules, ctx, j),
        rules[j].priority < rules[i].priority,
    ensures
        !is_best_rule(rules, ctx, j),
        forall|b: int| is_best_rule(rules, ctx, b) ==> rules[b].priority >= rules[i].priority,
{
}

/// Fallback: with zero enabled rules no rule is eligible, so by the contract
/// of `select_sound_for_event` the engine selects from the default pool of
/// the context's event kind when one is configured with an enabled entry, and
/// returns nothing otherwise.
pub proof fn lemma_fallback_when_no_enabled_rule(rules: Seq<SoundRule>, ctx: EventContext)
    requires
        forall|i: int| 0 <= i < rules.len() ==> !(#[trigger] rules[i]).enabled,
    ensures
        forall|i: int| !rule_eligible(rules, ctx, i),
{
}

/// Condition combination: a rule whose two conditions disagree on a context
/// does not match under `All` but does match under `Any`.
pub proof fn lemma_condition_logic(r_all: SoundRule, r_any: SoundRule, ctx: EventContext)
    requires
        r_all.conditions@.len() == 2,
        r_any.conditions == r_all.conditions,
        r_all.condition_logic == ConditionLogic::All,
        r_any.condition_logic == ConditionLogic::Any,
        condition_holds(r_all.conditions@[0], ctx) != condition_holds(r_all.conditions@[1], ctx),
    ensures
        !rule_matches_spec(r_all, ctx),
        rule_matches_spec(r_any, ctx),
{
    if condition_holds(r_all.conditions@[0], ctx) {
        assert(!condition_holds(r_all.conditions@[1], ctx));
    } else {
        assert(condition_holds(r_all.conditions@[1], ctx));
    }
}

/// `name` equals some entry of `list`, ASCII case folded.
fn name_list_has(list: &Vec<String>, name: &str) -> (r: bool)
    ensures
        r == name_in_list(list@, name@),
{
    let n = list.len();
    let mut i: usize = 0;
    while i < n
        invariant
            n == list@.len(),
            i <= n,
            forall|j: int| 0 <= j < i ==> !strutil::eq_fold(list@[j]@, name@),
        decreases n - i,
    {
        if strutil::eq_ignore_ascii_case(list[i].as_str(), name) {
            return true;
        }
        i = i + 1;
    }
    false
}

/// Whether `x` is one of the listed multi-kill tiers.
fn kill_type_list_has(list: &Vec<MultikillType>, x: MultikillType) -> (r: bool)
    ensures
        r == list@.contains(x),
{
    let n = list.len();
    let mut i: usize = 0;
    while i < n
        invariant
            n == list@.len(),
            i <= n,
            forall|j: int| 0 <= j < i ==> list@[j] != x,
        decreases n - i,
    {
        if list[i] == x {
            return true;
        }
        i = i + 1;
    }
    false
}

/// Whether `x` is one of the listed objective kinds.
fn objective_list_has(list: &Vec<ObjectiveType>, x: ObjectiveType) -> (r: bool)
    ensures
        r == list@.contains(x),
{
    let n = list.len();
    let mut i: usize = 0;
    while i < n
        invariant
            n == list@.len(),
            i <= n,
            forall|j: int| 0 <= j < i ==> list@[j] != x,
        decreases n - i,
    {
        if list[i] == x {
            return true;
        }
        i = i + 1;
    }
    false
}

/// Whether `x` is one of the listed dragon variants.
fn dragon_list_has(list: &Vec<DragonKind>, x: DragonKind) -> (r: bool)
    ensures
        r == list@.contains(x),
{
    let n = list.len();
    let mut i: usize = 0;
    while i < n
        invariant
            n == list@.len(),
            i <= n,
            forall|j: int| 0 <= j < i ==> list@[j] != x,
        decreases n - i,
    {
        if list[i] == x {
            return true;
        }
        i = i + 1;
    }
    false
}

} // verus!
