//! The voice client's cue table: which audio cue plays for each event key.
//! Holds the bundled base pack, the conversion of a configured rule pack
//! into a plain cue table, the classification of per-event overrides, and
//! the cue decision that prefers rule evaluation and falls back to
//! overrides and the active pack.

use vstd::prelude::*;
use vstd::string::StringExecFns;
use crate::context;
use crate::context::SoundEvent;
use crate::context::SoundEventContext;
use crate::engine;
use crate::strutil;

verus! {

/// Connection status of the voice client.
#[derive(Debug, Clone)]
pub struct DiscordStatus {
    /// Whether the client is connected.
    pub connected: bool,
    /// The text channel's name, when connected.
    pub channel_name: Option<String>,
    /// Whether a voice channel is joined.
    pub voice_connected: bool,
    /// The voice channel's name, when joined.
    pub voice_channel_name: Option<String>,
    /// Identifier of the active sound pack.
    pub active_sound_pack: Option<String>,
}

/// An audio cue: a local file or a remote address to stream or cache.
#[derive(Debug)]
pub enum SoundCue {
    /// Load audio from a file path.
    File {
        /// The path on disk.
        path: String,
    },
    /// Stream or cache audio from a remote address.
    Url {
        /// The address.
        url: String,
    },
}

impl Clone for SoundCue {
    /// A clone is the same cue.
    fn clone(&self) -> (r: Self)
        ensures
            r == *self,
    {
        match self {
            SoundCue::File { path } => SoundCue::File { path: path.clone() },
            SoundCue::Url { url } => SoundCue::Url { url: url.clone() },
        }
    }
}

/// Two cues carry the same kind and the same characters.
pub open spec fn cue_like(a: SoundCue, b: SoundCue) -> bool {
    match (a, b) {
        (SoundCue::File { path: p1 }, SoundCue::File { path: p2 }) => p1@ == p2@,
        (SoundCue::Url { url: u1 }, SoundCue::Url { url: u2 }) => u1@ == u2@,
        _ => false,
    }
}

/// A cue for a local file with these characters as its path.
pub open spec fn cue_is_file(c: SoundCue, path: Seq<char>) -> bool {
    c matches SoundCue::File { path: p } && p@ == path
}

/// The cue a sound entry's source turns into.
pub open spec fn cue_of_source(c: SoundCue, s: engine::SoundSource) -> bool {
    match (c, s) {
        (SoundCue::File { path }, engine::SoundSource::File { path: p }) => path@ == p@,
        (SoundCue::Url { url }, engine::SoundSource::Url { url: u }) => url@ == u@,
        _ => false,
    }
}

/// The cue recorded under a key, searching from the newest entry.
pub open spec fn cue_lookup(s: Seq<(String, SoundCue)>, key: Seq<char>) -> Option<SoundCue>
    decreases s.len(),
{
    if s.len() == 0 {
        None
    } else if s.last().0@ == key {
        Some(s.last().1)
    } else {
        cue_lookup(s.drop_last(), key)
    }
}

/// A collection of cues that can be swapped in as a pack.
#[derive(Debug, Clone)]
pub struct SoundPack {
    /// Identifier used for configuration.
    pub id: String,
    /// Friendly name for display.
    pub name: String,
    /// Human-readable description.
    pub description: String,
    /// The cue of each event key.
    pub cues: Vec<(String, SoundCue)>,
}

impl SoundPack {
    /// The base pack: every event key plays the bundled beep at the given
    /// path.
    pub fn base(beep_path: &str) -> (r: Self)
        ensures
            r.id@ == "base"@,
            forall|e: SoundEvent|
                #[trigger] cue_lookup(r.cues@, context::spec_key(e)@) matches Some(c)
                    && cue_is_file(c, beep_path@),
    {
        let mut cues: Vec<(String, SoundCue)> = Vec::new();
        put_file_cue(&mut cues, SoundEvent::GameStart.key(), beep_path);
        put_file_cue(&mut cues, SoundEvent::Kill.key(), beep_path);
        put_file_cue(&mut cues, SoundEvent::MultiKill.key(), beep_path);
        put_file_cue(&mut cues, SoundEvent::Objective.key(), beep_path);
        put_file_cue(&mut cues, SoundEvent::FirstBlood.key(), beep_path);
        put_file_cue(&mut cues, SoundEvent::Ace.key(), beep_path);
        put_file_cue(&mut cues, SoundEvent::GameEnd.key(), beep_path);
        let r = SoundPack {
            id: String::from_str("base"),
            name: String::from_str("Base Pack"),
            description: String::from_str("Lightweight synthesized tones for quick callouts"),
            cues,
        };
        proof {
            lemma_spec_keys_distinct();
            assert forall|e: SoundEvent|
                #[trigger] cue_lookup(r.cues@, context::spec_key(e)@) matches Some(c)
                    && cue_is_file(c, beep_path@) by {
                match e {
                    SoundEvent::GameStart => {}
                    SoundEvent::FirstBlood => {}
                    SoundEvent::Kill => {}
                    SoundEvent::MultiKill => {}
                    SoundEvent::Objective => {}
                    SoundEvent::Ace => {}
                    SoundEvent::GameEnd => {}
                }
            }
        }
        r
    }

    /// The cue for a key, when the pack has one.
    pub fn cue_for(&self, key: &str) -> (r: Option<SoundCue>)
        ensures
            match (r, cue_lookup(self.cues@, key@)) {
                (Some(c), Some(l)) => cue_like(c, l),
                (None, None) => true,
                _ => false,
            },
    {
        cue_table_get(&self.cues, key)
    }
}

/// The seven event keys are pairwise distinct.
proof fn lemma_spec_keys_distinct()
    ensures
        "gameStart"@ != "firstBlood"@,
        "gameStart"@ != "kill"@,
        "gameStart"@ != "multiKill"@,
        "gameStart"@ != "objective"@,
        "gameStart"@ != "ace"@,
        "gameStart"@ != "gameEnd"@,
        "firstBlood"@ != "kill"@,
        "firstBlood"@ != "multiKill"@,
        "firstBlood"@ != "objective"@,
        "firstBlood"@ != "ace"@,
        "firstBlood"@ != "gameEnd"@,
        "kill"@ != "multiKill"@,
        "kill"@ != "objective"@,
        "kill"@ != "ace"@,
        "kill"@ != "gameEnd"@,
        "multiKill"@ != "objective"@,
        "multiKill"@ != "ace"@,
        "multiKill"@ != "gameEnd"@,
        "objective"@ != "ace"@,
        "objective"@ != "gameEnd"@,
        "ace"@ != "gameEnd"@,
{
    reveal_strlit("gameStart");
    reveal_strlit("firstBlood");
    reveal_strlit("kill");
    reveal_strlit("multiKill");
    reveal_strlit("objective");
    reveal_strlit("ace");
    reveal_strlit("gameEnd");
    assert("gameStart"@.len() == 9);
    assert("firstBlood"@.len() == 10);
    assert("kill"@.len() == 4);
    assert("multiKill"@.len() == 9);
    assert("objective"@.len() == 9);
    assert("ace"@.len() == 3);
    assert("gameEnd"@.len() == 7);
    assert("gameStart"@[0] == 'g' && "multiKill"@[0] == 'm' && "objective"@[0] == 'o');
}

/// Records a cue for a key at the end of the table; the cue of every other
/// key is unchanged.
fn put_cue(cues: &mut Vec<(String, SoundCue)>, key: &str, cue: SoundCue)
    ensures
        cue_lookup(final(cues)@, key@) == Some(cue),
        forall|u: Seq<char>|
            u != key@ ==> cue_lookup(final(cues)@, u) == cue_lookup(old(cues)@, u),
{
    let ghost s0 = cues@;
    cues.push((String::from_str(key), cue));
    proof {
        assert(cues@.last().0@ == key@);
        assert forall|u: Seq<char>|
            u != key@ implies cue_lookup(cues@, u) == cue_lookup(s0, u) by {
            assert(cues@.drop_last() =~= s0);
        }
    }
}

/// Records a file cue for a key at the end of the table.
fn put_file_cue(cues: &mut Vec<(String, SoundCue)>, key: &str, path: &str)
    ensures
        (cue_lookup(final(cues)@, key@) matches Some(c) && cue_is_file(c, path@)),
        forall|u: Seq<char>|
            u != key@ ==> cue_lookup(final(cues)@, u) == cue_lookup(old(cues)@, u),
{
    put_cue(cues, key, SoundCue::File { path: String::from_str(path) });
}

/// The cue stored under a key, by exact key comparison.
fn cue_table_get(cues: &Vec<(String, SoundCue)>, key: &str) -> (r: Option<SoundCue>)
    ensures
        match (r, cue_lookup(cues@, key@)) {
            (Some(c), Some(l)) => cue_like(c, l),
            (None, None) => true,
            _ => false,
        },
{
    let n = cues.len();
    proof {
        assert(cues@.subrange(0, n as int) =~= cues@);
    }
    let mut i: usize = n;
    while i > 0
        invariant
            n == cues@.len(),
            i <= n,
            cue_lookup(cues@, key@) == cue_lookup(cues@.subrange(0, i as int), key@),
        decreases i,
    {
        proof {
            assert(cues@.subrange(0, i as int).last() == cues@[i - 1]);
            assert(cues@.subrange(0, i as int).drop_last() =~= cues@.subrange(0, i - 1));
        }
        if strutil::str_eq(cues[i - 1].0.as_str(), key) {
            return Some(cues[i - 1].1.clone());
        }
        i = i - 1;
    }
    None
}

/// What the conversion of a configured rule pack records for one event
/// kind: with no default pool for the kind, the bundled beep; with a pool
/// that has an enabled entry, a cue carrying one enabled entry's source;
/// with a pool whose entries are all disabled, no cue at all.
pub open spec fn converted_key_ok(
    pack: engine::SoundPack,
    kind: engine::EventType,
    key: Seq<char>,
    cues: Seq<(String, SoundCue)>,
    beep: Seq<char>,
) -> bool {
    match engine::defaults_lookup(pack.defaults@, kind) {
        None => cue_lookup(cues, key) matches Some(c) && cue_is_file(c, beep),
        Some(pool) => if engine::has_enabled(pool.sounds@) {
            cue_lookup(cues, key) matches Some(c) && exists|k: int|
                0 <= k < pool.sounds@.len() && pool.sounds@[k].enabled && #[trigger] cue_of_source(
                    c,
                    pool.sounds@[k].source,
                )
        } else {
            cue_lookup(cues, key) is None
        },
    }
}

/// Converts one event kind of a configured rule pack into a cue entry.
fn add_converted_cue(
    cues: &mut Vec<(String, SoundCue)>,
    pack: &engine::SoundPack,
    kind: engine::EventType,
    key: &str,
    beep: &str,
)
    requires
        cue_lookup(old(cues)@, key@) is None,
    ensures
        converted_key_ok(*pack, kind, key@, final(cues)@, beep@),
        forall|u: Seq<char>|
            u != key@ ==> cue_lookup(final(cues)@, u) == cue_lookup(old(cues)@, u),
{
    match pack.lookup_default(kind) {
        Some(pool) => {
            match pool.select_sound() {
                Some(k) => {
                    let cue = match &pool.sounds[k].source {
                        engine::SoundSource::File { path } => SoundCue::File {
                            path: path.clone(),
                        },
                        engine::SoundSource::Url { url } => SoundCue::Url { url: url.clone() },
                    };
                    proof {
                        assert(cue_of_source(cue, pool.sounds@[k as int].source));
                    }
                    put_cue(cues, key, cue);
                }
                None => {}
            }
        }
        None => {
            put_file_cue(cues, key, beep);
        }
    }
}

/// Converts a configured rule pack into a plain cue table, when its
/// identifier is the requested one: each event kind gets the cue of its
/// default pool's selection, the bundled beep where the kind has no default
/// pool, and no cue where the pool has nothing enabled.
pub fn from_custom(pack: &engine::SoundPack, pack_id: &str, beep_path: &str) -> (r: Option<
    SoundPack,
>)
    ensures
        r is Some <==> pack.id@ == pack_id@,
        r matches Some(converted) ==> {
            &&& converted.id@ == pack.id@
            &&& converted.name@ == pack.name@
            &&& forall|e: SoundEvent|
                #[trigger] converted_key_ok(
                    *pack,
                    context::engine_kind(e),
                    context::spec_key(e)@,
                    converted.cues@,
                    beep_path@,
                )
        },
{
    if !strutil::str_eq(pack.id.as_str(), pack_id) {
        return None;
    }
    proof {
        lemma_spec_keys_distinct();
    }
    let mut cues: Vec<(String, SoundCue)> = Vec::new();
    add_converted_cue(&mut cues, pack, engine::EventType::GameStart, SoundEvent::GameStart.key(), beep_path);
    add_converted_cue(&mut cues, pack, engine::EventType::GameEnd, SoundEvent::GameEnd.key(), beep_path);
    add_converted_cue(&mut cues, pack, engine::EventType::FirstBlood, SoundEvent::FirstBlood.key(), beep_path);
    add_converted_cue(&mut cues, pack, engine::EventType::Kill, SoundEvent::Kill.key(), beep_path);
    add_converted_cue(&mut cues, pack, engine::EventType::MultiKill, SoundEvent::MultiKill.key(), beep_path);
    add_converted_cue(&mut cues, pack, engine::EventType::Objective, SoundEvent::Objective.key(), beep_path);
    add_converted_cue(&mut cues, pack, engine::EventType::Ace, SoundEvent::Ace.key(), beep_path);
    let description = match &pack.description {
        Some(d) => d.clone(),
        None => String::new(),
    };
    let r = SoundPack { id: pack.id.clone(), name: pack.name.clone(), description, cues };
    proof {
        assert forall|e: SoundEvent|
            #[trigger] converted_key_ok(
                *pack,
                context::engine_kind(e),
                context::spec_key(e)@,
                r.cues@,
                beep_path@,
            ) by {
            match e {
                SoundEvent::GameStart => {}
                SoundEvent::FirstBlood => {}
                SoundEvent::Kill => {}
                SoundEvent::MultiKill => {}
                SoundEvent::Objective => {}
                SoundEvent::Ace => {}
                SoundEvent::GameEnd => {}
            }
        }
    }
    Some(r)
}

/// Classifies one override value: an event key of the active pack names that
/// pack's cue; otherwise a web address becomes a remote cue and anything
/// else a file path.
pub fn classify_override(base: &SoundPack, value: &str) -> (r: SoundCue)
    ensures
        match cue_lookup(base.cues@, value@) {
            Some(c) => cue_like(r, c),
            None => {
                if strutil::is_prefix_of("http://"@, value@) || strutil::is_prefix_of(
                    "https://"@,
                    value@,
                ) {
                    r matches SoundCue::Url { url } && url@ == value@
                } else {
                    r matches SoundCue::File { path } && path@ == value@
                }
            },
        },
{
    match base.cue_for(value) {
        Some(cue) => cue,
        None => {
            if strutil::starts_with(value, "http://") || strutil::starts_with(value, "https://") {
                SoundCue::Url { url: String::from_str(value) }
            } else {
                SoundCue::File { path: String::from_str(value) }
            }
        }
    }
}

/// Decides the cue and volume for an event: the rule pack's decision wins
/// when one is configured and produces a sound; otherwise the per-event
/// override, then the active pack's cue for the event key, both at unit
/// volume; with none of the three there is nothing to play.
///
/// The volume is in thousandths, as `engine::effective_volume` computes it.
pub fn select_cue_with_context(
    rules_pack: Option<&engine::SoundPack>,
    overrides: &Vec<(String, SoundCue)>,
    active: &SoundPack,
    ctx: &SoundEventContext,
) -> (r: Option<(SoundCue, u64)>)
    ensures
        ({
            let key = context::spec_key(ctx.event_type)@;
            match rules_pack {
                Some(pack) => {
                    let engine_ctx = context::engine_ctx_of(*ctx);
                    if engine_decides(*pack, engine_ctx) {
                        r matches Some(pair) && rule_cue_ok(pair.0, pair.1, *pack, engine_ctx)
                    } else {
                        fallback_cue_ok(r, overrides@, *active, key)
                    }
                },
                None => fallback_cue_ok(r, overrides@, *active, key),
            }
        }),
{
    let key = ctx.event_type.key();
    match rules_pack {
        Some(pack) => {
            let engine_ctx = ctx.to_event_context();
            match pack.select_sound_for_event(&engine_ctx) {
                Some((entry, volume)) => {
                    let cue = match &entry.source {
                        engine::SoundSource::File { path } => SoundCue::File {
                            path: path.clone(),
                        },
                        engine::SoundSource::Url { url } => SoundCue::Url { url: url.clone() },
                    };
                    proof {
                        assert(cue_of_source(cue, entry.source));
                    }
                    Some((cue, volume))
                }
                None => fallback_cue(overrides, active, key),
            }
        }
        None => fallback_cue(overrides, active, key),
    }
}

/// Whether the rule engine produces a sound for this pack and context.
pub open spec fn engine_decides(pack: engine::SoundPack, ctx: engine::EventContext) -> bool {
    (exists|i: int| engine::rule_eligible(pack.rules@, ctx, i)) || engine::fallback_available(
        pack,
        ctx,
    )
}

/// The cue and volume of a rule-engine decision: the cue carries some
/// enabled entry's source, and the volume is that entry's effective volume.
pub open spec fn rule_cue_ok(
    cue: SoundCue,
    volume: u64,
    pack: engine::SoundPack,
    ctx: engine::EventContext,
) -> bool {
    exists|entry: engine::SoundEntry|
        {
            &&& #[trigger] cue_of_source(cue, entry.source)
            &&& entry.enabled
            &&& volume as int == engine::effective_volume(
                entry.volume,
                pack.settings.master_volume,
            )
        }
}

/// A fallback decision: the override for the key when one is set, else the
/// active pack's cue, each at unit volume; nothing otherwise.
pub open spec fn fallback_cue_ok(
    r: Option<(SoundCue, u64)>,
    overrides: Seq<(String, SoundCue)>,
    active: SoundPack,
    key: Seq<char>,
) -> bool {
    match cue_lookup(overrides, key) {
        Some(c) => r matches Some(pair) && cue_like(pair.0, c) && pair.1
            == engine::UNIT_VOLUME as u64,
        None => match cue_lookup(active.cues@, key) {
            Some(c) => r matches Some(pair) && cue_like(pair.0, c) && pair.1
                == engine::UNIT_VOLUME as u64,
            None => r is None,
        },
    }
}

/// The override cue for the key, else the active pack's cue, at unit volume.
fn fallback_cue(overrides: &Vec<(String, SoundCue)>, active: &SoundPack, key: &str) -> (r: Option<
    (SoundCue, u64),
>)
    ensures
        fallback_cue_ok(r, overrides@, *active, key@),
{
    match cue_table_get(overrides, key) {
        Some(c) => Some((c, engine::UNIT_VOLUME as u64)),
        None => {
            match active.cue_for(key) {
                Some(c) => Some((c, engine::UNIT_VOLUME as u64)),
                None => None,
            }
        }
    }
}

} // verus!
