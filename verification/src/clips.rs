//! The registry of bundled sound packs: simple packs that map event keys to
//! generated clips, and the lookup that falls back to the default pack when
//! a requested name is unknown. Generating the clip files themselves is the
//! shell's business; the registry works on the paths it is handed.

use vstd::prelude::*;
use crate::strutil;

verus! {

/// A single sound clip mapped to a game event.
#[derive(Debug)]
pub struct SoundClip {
    /// The logical event key.
    pub event_key: String,
    /// Path to the audio asset on disk.
    pub path: String,
}

impl Clone for SoundClip {
    /// A clone is the same clip.
    fn clone(&self) -> (r: Self)
        ensures
            r == *self,
    {
        SoundClip { event_key: self.event_key.clone(), path: self.path.clone() }
    }
}

/// The first clip of `clips` with the given event key.
pub open spec fn clip_lookup(clips: Seq<SoundClip>, key: Seq<char>) -> Option<SoundClip>
    decreases clips.len(),
{
    if clips.len() == 0 {
        None
    } else if clips[0].event_key@ == key {
        Some(clips[0])
    } else {
        clip_lookup(clips.drop_first(), key)
    }
}

/// A collection of clips that can be swapped at runtime.
#[derive(Debug)]
pub struct SoundPack {
    /// Unique identifier for the pack.
    pub name: String,
    /// Human friendly description.
    pub description: String,
    /// The clips, one per covered event key.
    pub clips: Vec<SoundClip>,
}

impl Clone for SoundPack {
    /// A clone is the same pack.
    fn clone(&self) -> (r: Self)
        ensures
            r.name == self.name,
            r.description == self.description,
            r.clips@ == self.clips@,
    {
        let mut clips: Vec<SoundClip> = Vec::new();
        let n = self.clips.len();
        let mut i: usize = 0;
        while i < n
            invariant
                n == self.clips@.len(),
                i <= n,
                clips@ == self.clips@.subrange(0, i as int),
            decreases n - i,
        {
            clips.push(self.clips[i].clone());
            proof {
                assert(clips@ =~= self.clips@.subrange(0, i + 1));
            }
            i = i + 1;
        }
        proof {
            assert(clips@ =~= self.clips@);
        }
        SoundPack { name: self.name.clone(), description: self.description.clone(), clips }
    }
}

impl SoundPack {
    /// The clip for an event key, if the pack covers it.
    pub fn clip_for_event(&self, event_key: &str) -> (r: Option<SoundClip>)
        ensures
            match (r, clip_lookup(self.clips@, event_key@)) {
                (Some(c), Some(l)) => c == l,
                (None, None) => true,
                _ => false,
            },
    {
        let n = self.clips.len();
        proof {
            assert(self.clips@.subrange(0, n as int) =~= self.clips@);
        }
        let mut i: usize = 0;
        while i < n
            invariant
                n == self.clips@.len(),
                i <= n,
                clip_lookup(self.clips@, event_key@) == clip_lookup(
                    self.clips@.subrange(i as int, n as int),
                    event_key@,
                ),
            decreases n - i,
        {
            proof {
                assert(self.clips@.subrange(i as int, n as int).drop_first()
                    =~= self.clips@.subrange(i + 1, n as int));
                assert(self.clips@.subrange(i as int, n as int)[0] == self.clips@[i as int]);
            }
            if strutil::str_eq(self.clips[i].event_key.as_str(), event_key) {
                return Some(self.clips[i].clone());
            }
            i = i + 1;
        }
        None
    }
}

/// The first pack of `packs` with the given name.
pub open spec fn pack_lookup(packs: Seq<SoundPack>, name: Seq<char>) -> Option<SoundPack>
    decreases packs.len(),
{
    if packs.len() == 0 {
        None
    } else if packs[0].name@ == name {
        Some(packs[0])
    } else {
        pack_lookup(packs.drop_first(), name)
    }
}

/// Registry of available sound packs.
#[derive(Debug)]
pub struct SoundPackRegistry {
    packs: Vec<SoundPack>,
    default_pack: String,
}

impl SoundPackRegistry {
    /// The registered packs.
    pub closed spec fn packs_spec(&self) -> Seq<SoundPack> {
        self.packs@
    }

    /// The name of the pack used when a requested name is unknown.
    pub closed spec fn default_spec(&self) -> Seq<char> {
        self.default_pack@
    }

    /// The registry is usable when its default pack is registered.
    pub open spec fn wf(&self) -> bool {
        pack_lookup(self.packs_spec(), self.default_spec()) is Some
    }

    /// A registry holding one pack, which is also the default.
    pub fn with_defaults(base_pack: SoundPack) -> (r: Self)
        ensures
            r.wf(),
            r.packs_spec() =~= seq![base_pack],
            r.default_spec() == base_pack.name@,
    {
        let default_pack = base_pack.name.clone();
        let mut packs: Vec<SoundPack> = Vec::new();
        packs.push(base_pack);
        SoundPackRegistry { packs, default_pack }
    }

    /// All registered packs.
    pub fn all(&self) -> (r: Vec<SoundPack>)
        ensures
            r@.len() == self.packs_spec().len(),
            forall|i: int|
                0 <= i < r@.len() ==> {
                    &&& (#[trigger] r@[i]).name == self.packs_spec()[i].name
                    &&& r@[i].description == self.packs_spec()[i].description
                    &&& r@[i].clips@ == self.packs_spec()[i].clips@
                },
    {
        let n = self.packs.len();
        let mut r: Vec<SoundPack> = Vec::new();
        let mut i: usize = 0;
        while i < n
            invariant
                n == self.packs@.len(),
                i <= n,
                r@.len() == i,
                forall|j: int|
                    0 <= j < i ==> {
                        &&& (#[trigger] r@[j]).name == self.packs@[j].name
                        &&& r@[j].description == self.packs@[j].description
                        &&& r@[j].clips@ == self.packs@[j].clips@
                    },
            decreases n - i,
        {
            r.push(self.packs[i].clone());
            i = i + 1;
        }
        r
    }

    /// Resolves a pack by name, falling back to the default pack for an
    /// unknown or absent name.
    pub fn get(&self, name: Option<&str>) -> (r: SoundPack)
        requires
            self.wf(),
        ensures
            ({
                let direct = match name {
                    Some(n) => pack_lookup(self.packs_spec(), n@),
                    None => None,
                };
                let chosen = match direct {
                    Some(p) => p,
                    None => pack_lookup(self.packs_spec(), self.default_spec())->0,
                };
                r.name == chosen.name && r.description == chosen.description && r.clips@
                    == chosen.clips@
            }),
    {
        if let Some(requested) = name {
            if let Some(i) = find_pack(&self.packs, requested) {
                return self.packs[i].clone();
            }
        }
        match find_pack(&self.packs, self.default_pack.as_str()) {
            Some(i) => self.packs[i].clone(),
            None => {
                // well-formedness placed the default pack in the registry
                proof {
                    assert(false);
                }
                SoundPack {
                    name: String::new(),
                    description: String::new(),
                    clips: Vec::new(),
                }
            }
        }
    }
}

/// Index of the first pack with the given name.
fn find_pack(packs: &Vec<SoundPack>, name: &str) -> (r: Option<usize>)
    ensures
        match r {
            Some(i) => i < packs@.len() && pack_lookup(packs@, name@) == Some(packs@[i as int]),
            None => pack_lookup(packs@, name@) is None,
        },
{
    let n = packs.len();
    proof {
        assert(packs@.subrange(0, n as int) =~= packs@);
    }
    let mut i: usize = 0;
    while i < n
        invariant
            n == packs@.len(),
            i <= n,
            pack_lookup(packs@, name@) == pack_lookup(packs@.subrange(i as int, n as int), name@),
        decreases n - i,
    {
        proof {
            assert(packs@.subrange(i as int, n as int).drop_first() =~= packs@.subrange(
                i + 1,
                n as int,
            ));
            assert(packs@.subrange(i as int, n as int)[0] == packs@[i as int]);
        }
        if strutil::str_eq(packs[i].name.as_str(), name) {
            return Some(i);
        }
        i = i + 1;
    }
    None
}

/// Determines which sound pack to use for a configured name.
pub fn select_sound_pack(registry: &SoundPackRegistry, pack_name: Option<&str>) -> (r: SoundPack)
    requires
        registry.wf(),
    ensures
        ({
            let direct = match pack_name {
                Some(n) => pack_lookup(registry.packs_spec(), n@),
                None => None,
            };
            let chosen = match direct {
                Some(p) => p,
                None => pack_lookup(registry.packs_spec(), registry.default_spec())->0,
            };
            r.name == chosen.name && r.description == chosen.description && r.clips@
                == chosen.clips@
        }),
{
    registry.get(pack_name)
}

/// Summary of one pack for display: its name, description, and the event
/// keys it covers.
#[derive(Debug)]
pub struct SoundPackSummary {
    /// Identifier used when selecting the pack.
    pub name: String,
    /// Description shown alongside.
    pub description: String,
    /// Event keys covered by the pack.
    pub events: Vec<String>,
}

/// Summarizes a pack: its name, description, and covered event keys in clip
/// order.
pub fn summarize(pack: &SoundPack) -> (r: SoundPackSummary)
    ensures
        r.name == pack.name,
        r.description == pack.description,
        r.events@.len() == pack.clips@.len(),
        forall|i: int| 0 <= i < r.events@.len() ==> r.events@[i] == pack.clips@[i].event_key,
{
    let n = pack.clips.len();
    let mut events: Vec<String> = Vec::new();
    let mut i: usize = 0;
    while i < n
        invariant
            n == pack.clips@.len(),
            i <= n,
            events@.len() == i,
            forall|j: int| 0 <= j < i ==> events@[j] == pack.clips@[j].event_key,
        decreases n - i,
    {
        events.push(pack.clips[i].event_key.clone());
        i = i + 1;
    }
    SoundPackSummary { name: pack.name.clone(), description: pack.description.clone(), events }
}

} // verus!
