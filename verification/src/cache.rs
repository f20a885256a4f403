//! The acquisition cache for remote audio: a stable on-disk name for each
//! source address, and the shared claim state that guarantees at most one
//! concurrent download per distinct source while letting every requester
//! reach the resolved file.
//!
//! The state tracks which sources are currently being downloaded and which
//! are already materialized this session. A source is in at most one of the
//! two at a time; the claim operation is the atomic test-and-set that
//! serializes racing requesters, and the surrounding task performs the
//! download itself outside any lock.

use vstd::prelude::*;
use vstd::string::StrSliceExecFns;
use vstd::string::StringExecFns;
use crate::strutil;

verus! {

/// Offset basis of the 64-bit FNV-1a hash.
pub const FNV_OFFSET: u64 = 0xcbf2_9ce4_8422_2325;

/// Prime of the 64-bit FNV-1a hash.
pub const FNV_PRIME: u64 = 0x0000_0100_0000_01b3;

/// One step of FNV-1a: fold a byte into the running hash.
pub open spec fn fnv1a_step(h: u64, b: u8) -> u64 {
    vstd::wrapping::u64_specs::wrapping_mul(h ^ (b as u64), FNV_PRIME)
}

/// The 64-bit FNV-1a hash of a byte sequence.
pub open spec fn fnv1a(bytes: Seq<u8>) -> u64
    decreases bytes.len(),
{
    if bytes.len() == 0 {
        FNV_OFFSET
    } else {
        fnv1a_step(fnv1a(bytes.drop_last()), bytes.last())
    }
}

/// The on-disk cache file name of a source address: sixteen hex digits of
/// the address's hash, then the audio extension.
pub open spec fn cache_filename_chars(url: Seq<char>) -> Seq<char> {
    strutil::hex_rep(fnv1a(vstd::utf8::encode_utf8(url)) as nat, 16) + ".mp3"@
}

/// The 64-bit FNV-1a hash of a string's bytes: the stable cache key of a
/// source address.
pub fn url_hash(url: &str) -> (r: u64)
    ensures
        r == fnv1a(vstd::utf8::encode_utf8(url@)),
{
    let bytes = url.as_bytes_vec();
    let n = bytes.len();
    let mut h: u64 = FNV_OFFSET;
    let mut i: usize = 0;
    while i < n
        invariant
            n == bytes@.len(),
            i <= n,
            bytes@ == vstd::utf8::encode_utf8(url@),
            h == fnv1a(bytes@.subrange(0, i as int)),
        decreases n - i,
    {
        proof {
            assert(bytes@.subrange(0, i + 1).drop_last() =~= bytes@.subrange(0, i as int));
        }
        h = (h ^ (bytes[i] as u64)).wrapping_mul(FNV_PRIME);
        i = i + 1;
    }
    proof {
        assert(bytes@.subrange(0, n as int) =~= bytes@);
    }
    h
}

/// A deterministic file name for a source address, unique per hash value,
/// so that one address always lands on the same cached file.
pub fn youtube_url_to_cache_filename(url: &str) -> (r: String)
    ensures
        r@ == cache_filename_chars(url@),
{
    let h = url_hash(url);
    let mut r = strutil::u64_to_hex_width(h, 16);
    r.append(".mp3");
    r
}

/// The full cache path of a source address under a cache directory.
pub fn get_youtube_cache_path(cache_dir: &str, url: &str) -> (r: String)
    ensures
        r@ == cache_dir@ + "/"@ + cache_filename_chars(url@),
{
    let mut r = String::from_str(cache_dir);
    r.append("/");
    let name = youtube_url_to_cache_filename(url);
    r.append(name.as_str());
    proof {
        assert(r@ =~= cache_dir@ + "/"@ + cache_filename_chars(url@));
    }
    r
}

/// Whether an address points at the video platform whose audio is cached.
pub fn is_youtube_url(url: &str) -> (r: bool)
    ensures
        r == (strutil::contains_exact(url@, "youtube.com"@) || strutil::contains_exact(
            url@,
            "youtu.be"@,
        )),
{
    strutil::contains_str(url, "youtube.com") || strutil::contains_str(url, "youtu.be")
}

/// No two entries carry the same characters.
pub open spec fn distinct_names(s: Seq<String>) -> bool {
    forall|i: int, j: int| 0 <= i < j < s.len() ==> s[i]@ != s[j]@
}

/// No two entries carry the same key characters.
pub open spec fn distinct_keys(s: Seq<(String, String)>) -> bool {
    forall|i: int, j: int| 0 <= i < j < s.len() ==> s[i].0@ != s[j].0@
}

/// Whether some entry carries exactly these characters.
pub open spec fn has_name(s: Seq<String>, u: Seq<char>) -> bool {
    exists|i: int| 0 <= i < s.len() && s[i]@ == u
}

/// The value recorded under a key, searching from the newest entry.
pub open spec fn lookup_pair(s: Seq<(String, String)>, u: Seq<char>) -> Option<Seq<char>>
    decreases s.len(),
{
    if s.len() == 0 {
        None
    } else if s.last().0@ == u {
        Some(s.last().1@)
    } else {
        lookup_pair(s.drop_last(), u)
    }
}

/// With distinct keys, the entry at any matching index is the lookup result.
proof fn lemma_lookup_at(s: Seq<(String, String)>, u: Seq<char>, i: int)
    requires
        distinct_keys(s),
        0 <= i < s.len(),
        s[i].0@ == u,
    ensures
        lookup_pair(s, u) == Some(s[i].1@),
    decreases s.len(),
{
    if i < s.len() - 1 {
        assert(s.drop_last()[i] == s[i]);
        lemma_lookup_at(s.drop_last(), u, i);
    }
}

/// A key under no entry has no lookup result.
proof fn lemma_lookup_absent(s: Seq<(String, String)>, u: Seq<char>)
    requires
        forall|i: int| 0 <= i < s.len() ==> s[i].0@ != u,
    ensures
        lookup_pair(s, u) is None,
    decreases s.len(),
{
    if s.len() > 0 {
        lemma_lookup_absent(s.drop_last(), u);
    }
}

/// Shared state of the audio acquisition cache: sources currently being
/// downloaded and sources already materialized this session, with the local
/// path of each.
#[derive(Debug)]
pub struct YouTubeCacheState {
    /// Addresses with a download in flight, to refuse duplicate downloads.
    downloading: Vec<String>,
    /// Addresses resolved this session, with their local file path.
    cached: Vec<(String, String)>,
}

impl YouTubeCacheState {
    /// Whether a download of this address is in flight.
    pub closed spec fn downloading_spec(&self, u: Seq<char>) -> bool {
        has_name(self.downloading@, u)
    }

    /// The local path this address resolved to, if it did.
    pub closed spec fn cached_spec(&self, u: Seq<char>) -> Option<Seq<char>> {
        lookup_pair(self.cached@, u)
    }

    /// Whether this address is resolved.
    pub open spec fn is_cached_spec(&self, u: Seq<char>) -> bool {
        self.cached_spec(u) is Some
    }

    /// Well-formed state: no duplicate claims, no duplicate resolutions, and
    /// every address in at most one of the two.
    pub closed spec fn wf(&self) -> bool {
        &&& distinct_names(self.downloading@)
        &&& distinct_keys(self.cached@)
        &&& forall|i: int|
            0 <= i < self.downloading@.len() ==> lookup_pair(
                self.cached@,
                #[trigger] self.downloading@[i]@,
            ) is None
    }

    /// An empty cache state: nothing claimed, nothing resolved.
    pub fn new() -> (r: Self)
        ensures
            r.wf(),
            forall|u: Seq<char>| !r.downloading_spec(u),
            forall|u: Seq<char>| !r.is_cached_spec(u),
    {
        let r = YouTubeCacheState { downloading: Vec::new(), cached: Vec::new() };
        proof {
            assert forall|u: Seq<char>| !r.is_cached_spec(u) by {
                lemma_lookup_absent(r.cached@, u);
            }
        }
        r
    }

    /// Whether a download of this address is currently in flight.
    pub fn is_downloading(&self, url: &str) -> (r: bool)
        ensures
            r == self.downloading_spec(url@),
    {
        index_of_name(&self.downloading, url).is_some()
    }

    /// The resolved local path of this address, if it resolved this session.
    pub fn get_cached_path(&self, url: &str) -> (r: Option<&String>)
        requires
            self.wf(),
        ensures
            match r {
                Some(p) => self.cached_spec(url@) == Some(p@),
                None => self.cached_spec(url@) is None,
            },
    {
        match index_of_key(&self.cached, url) {
            Some(i) => {
                proof {
                    lemma_lookup_at(self.cached@, url@, i as int);
                }
                Some(&self.cached[i].1)
            }
            None => {
                proof {
                    lemma_lookup_absent(self.cached@, url@);
                }
                None
            }
        }
    }

    /// Records a claim for this address. The address must not already be
    /// resolved: a resolved source is never downloaded again this session.
    pub fn start_download(&mut self, url: &str)
        requires
            old(self).wf(),
            !old(self).is_cached_spec(url@),
        ensures
            final(self).wf(),
            final(self).downloading_spec(url@),
            forall|u: Seq<char>|
                u != url@ ==> final(self).downloading_spec(u) == old(self).downloading_spec(u),
            forall|u: Seq<char>| final(self).cached_spec(u) == old(self).cached_spec(u),
            cache_step(*old(self), *final(self), CacheOp::MarkDownloading { url: url@ }),
    {
        match index_of_name(&self.downloading, url) {
            Some(i) => {
                proof {
                    assert(self.downloading@[i as int]@ == url@);
                }
            }
            None => {
                self.downloading.push(String::from_str(url));
                proof {
                    let s = self.downloading@;
                    let s0 = old(self).downloading@;
                    assert(forall|j: int| 0 <= j < s0.len() ==> s[j] == s0[j]);
                    assert(s[s0.len() as int]@ == url@);
                    assert forall|u: Seq<char>|
                        u != url@ implies self.downloading_spec(u) == old(
                        self,
                    ).downloading_spec(u) by {
                        if has_name(s0, u) {
                            let i = choose|i: int| 0 <= i < s0.len() && s0[i]@ == u;
                            assert(s[i]@ == u);
                        }
                        if has_name(s, u) {
                            let i = choose|i: int| 0 <= i < s.len() && s[i]@ == u;
                            assert(0 <= i < s0.len() && s0[i]@ == u);
                        }
                    }
                    assert forall|i: int, j: int| 0 <= i < j < s.len() implies s[i]@ != s[j]@ by {
                        if j < s0.len() {
                            assert(s0[i]@ != s0[j]@);
                        } else {
                            assert(s0[i]@ != url@);
                        }
                    }
                    assert forall|i: int|
                        0 <= i < s.len() implies lookup_pair(
                        self.cached@,
                        #[trigger] s[i]@,
                    ) is None by {
                        if i < s0.len() {
                            assert(lookup_pair(old(self).cached@, s0[i]@) is None);
                        }
                    }
                }
            }
        }
    }

    /// Records that this address resolved to a local path; any claim for it
    /// is released, and later requesters get the path without downloading.
    pub fn finish_download(&mut self, url: &str, path: String)
        requires
            old(self).wf(),
        ensures
            final(self).wf(),
            !final(self).downloading_spec(url@),
            final(self).cached_spec(url@) == Some(path@),
            forall|u: Seq<char>|
                u != url@ ==> final(self).downloading_spec(u) == old(self).downloading_spec(u),
            forall|u: Seq<char>|
                u != url@ ==> final(self).cached_spec(u) == old(self).cached_spec(u),
            cache_step(*old(self), *final(self), CacheOp::Finish { url: url@, path: path@ }),
    {
        remove_name(&mut self.downloading, url);
        let ghost mid_cached = self.cached@;
        match index_of_key(&self.cached, url) {
            Some(i) => {
                let pair = (String::from_str(url), path);
                self.cached[i] = pair;
                proof {
                    lemma_update_keeps_lookup(mid_cached, self.cached@, url@, path@, i as int);
                }
            }
            None => {
                self.cached.push((String::from_str(url), path));
                proof {
                    let s0 = mid_cached;
                    let s = self.cached@;
                    assert(forall|j: int| 0 <= j < s0.len() ==> s[j] == s0[j]);
                    assert(s[s0.len() as int].0@ == url@);
                    assert forall|i: int, j: int|
                        0 <= i < j < s.len() implies s[i].0@ != s[j].0@ by {
                        if j < s0.len() {
                            assert(s0[i].0@ != s0[j].0@);
                        } else {
                            assert(s0[i].0@ != url@);
                        }
                    }
                    lemma_lookup_at(s, url@, s0.len() as int);
                    assert forall|u: Seq<char>| u != url@ implies lookup_pair(s, u) == lookup_pair(
                        s0,
                        u,
                    ) by {
                        lemma_lookup_agree_except(s0, s, u);
                    }
                }
            }
        }
        proof {
            assert forall|i: int|
                0 <= i < self.downloading@.len() implies lookup_pair(
                self.cached@,
                #[trigger] self.downloading@[i]@,
            ) is None by {
                let u = self.downloading@[i]@;
                assert(has_name(self.downloading@, u));
                assert(u != url@);
                assert(has_name(old(self).downloading@, u));
                let j = choose|j: int|
                    0 <= j < old(self).downloading@.len() && old(self).downloading@[j]@ == u;
                assert(lookup_pair(old(self).cached@, old(self).downloading@[j]@) is None);
                assert(self.cached_spec(u) == old(self).cached_spec(u));
            }
        }
    }

    /// Releases the claim for this address after a failed download, so a
    /// later request may retry it.
    pub fn fail_download(&mut self, url: &str)
        requires
            old(self).wf(),
        ensures
            final(self).wf(),
            !final(self).downloading_spec(url@),
            forall|u: Seq<char>|
                u != url@ ==> final(self).downloading_spec(u) == old(self).downloading_spec(u),
            forall|u: Seq<char>| final(self).cached_spec(u) == old(self).cached_spec(u),
            cache_step(*old(self), *final(self), CacheOp::Fail { url: url@ }),
    {
        remove_name(&mut self.downloading, url);
        proof {
            assert forall|i: int|
                0 <= i < self.downloading@.len() implies lookup_pair(
                self.cached@,
                #[trigger] self.downloading@[i]@,
            ) is None by {
                let u = self.downloading@[i]@;
                assert(has_name(self.downloading@, u));
                assert(u != url@);
                assert(has_name(old(self).downloading@, u));
                let j = choose|j: int|
                    0 <= j < old(self).downloading@.len() && old(self).downloading@[j]@ == u;
                assert(lookup_pair(old(self).cached@, old(self).downloading@[j]@) is None);
            }
        }
    }

    /// The atomic test-and-set of the download protocol: grants the claim
    /// exactly when the address is neither claimed nor resolved, so at most
    /// one downloader per distinct source ever starts.
    pub fn try_start_download(&mut self, url: &str) -> (r: bool)
        requires
            old(self).wf(),
        ensures
            final(self).wf(),
            claim_transition(*old(self), *final(self), url@, r),
            cache_step(*old(self), *final(self), CacheOp::Claim { url: url@, granted: r }),
    {
        let already = index_of_name(&self.downloading, url).is_some() || {
            match index_of_key(&self.cached, url) {
                Some(i) => {
                    proof {
                        lemma_lookup_at(self.cached@, url@, i as int);
                    }
                    true
                }
                None => {
                    proof {
                        lemma_lookup_absent(self.cached@, url@);
                    }
                    false
                }
            }
        };
        if already {
            return false;
        }
        self.start_download(url);
        true
    }

}

/// One claim attempt: granted exactly when the address was neither claimed
/// nor resolved before; a granted claim records the address as downloading
/// and changes nothing else, a refused one leaves the state as it was.
pub open spec fn claim_transition(
    pre: YouTubeCacheState,
    post: YouTubeCacheState,
    url: Seq<char>,
    granted: bool,
) -> bool {
    &&& granted == (!pre.downloading_spec(url) && !pre.is_cached_spec(url))
    &&& granted ==> {
        &&& post.downloading_spec(url)
        &&& forall|u: Seq<char>| u != url ==> post.downloading_spec(u) == pre.downloading_spec(u)
        &&& forall|u: Seq<char>| post.cached_spec(u) == pre.cached_spec(u)
    }
    &&& !granted ==> post == pre
}

/// Single flight: of two claim attempts for the same source in direct
/// succession, at most one is granted — a standing claim refuses every
/// later one until the download finishes or fails.
pub proof fn lemma_claim_single_flight(
    s0: YouTubeCacheState,
    s1: YouTubeCacheState,
    s2: YouTubeCacheState,
    url: Seq<char>,
    r1: bool,
    r2: bool,
)
    requires
        claim_transition(s0, s1, url, r1),
        claim_transition(s1, s2, url, r2),
    ensures
        r1 ==> !r2,
{
}

/// One operation of the download protocol, as the state's contracts
/// describe it. A serialized history of calls on one shared state is a
/// sequence of these.
pub enum CacheOp {
    /// A claim attempt and whether it was granted.
    Claim {
        /// The source address.
        url: Seq<char>,
        /// Whether the claim was granted.
        granted: bool,
    },
    /// A claim recorded directly.
    MarkDownloading {
        /// The source address.
        url: Seq<char>,
    },
    /// A download reported finished with a resolved path.
    Finish {
        /// The source address.
        url: Seq<char>,
        /// The resolved local path.
        path: Seq<char>,
    },
    /// A download reported failed; the claim is released.
    Fail {
        /// The source address.
        url: Seq<char>,
    },
    /// A step that only reads the state.
    Read,
}

/// What one operation does to the state — exactly what the corresponding
/// method's contract says.
pub open spec fn cache_step(
    pre: YouTubeCacheState,
    post: YouTubeCacheState,
    op: CacheOp,
) -> bool {
    match op {
        CacheOp::Claim { url, granted } => claim_transition(pre, post, url, granted),
        CacheOp::MarkDownloading { url } => {
            &&& !pre.is_cached_spec(url)
            &&& post.downloading_spec(url)
            &&& forall|u: Seq<char>|
                u != url ==> post.downloading_spec(u) == pre.downloading_spec(u)
            &&& forall|u: Seq<char>| post.cached_spec(u) == pre.cached_spec(u)
        },
        CacheOp::Finish { url, path } => {
            &&& !post.downloading_spec(url)
            &&& post.cached_spec(url) == Some(path)
            &&& forall|u: Seq<char>|
                u != url ==> post.downloading_spec(u) == pre.downloading_spec(u)
            &&& forall|u: Seq<char>| u != url ==> post.cached_spec(u) == pre.cached_spec(u)
        },
        CacheOp::Fail { url } => {
            &&& !post.downloading_spec(url)
            &&& forall|u: Seq<char>|
                u != url ==> post.downloading_spec(u) == pre.downloading_spec(u)
            &&& forall|u: Seq<char>| post.cached_spec(u) == pre.cached_spec(u)
        },
        CacheOp::Read => post == pre,
    }
}

/// A serialized run: `states` has one entry more than `ops`, and each
/// operation steps its state to the next.
pub open spec fn cache_run(states: Seq<YouTubeCacheState>, ops: Seq<CacheOp>) -> bool {
    &&& states.len() == ops.len() + 1
    &&& forall|i: int|
        0 <= i < ops.len() ==> cache_step(states[i], states[i + 1], #[trigger] ops[i])
}

/// The source is claimed or already resolved: the condition that refuses a
/// new claim.
pub open spec fn claimed_or_resolved(s: YouTubeCacheState, url: Seq<char>) -> bool {
    s.downloading_spec(url) || s.is_cached_spec(url)
}

/// The operation is a granted claim for this source.
pub open spec fn is_grant(op: CacheOp, url: Seq<char>) -> bool {
    op matches CacheOp::Claim { url: u, granted } && granted && u == url
}

/// How many operations of the run granted a claim for this source.
pub open spec fn grants_for(ops: Seq<CacheOp>, url: Seq<char>) -> int
    decreases ops.len(),
{
    if ops.len() == 0 {
        0
    } else {
        grants_for(ops.drop_last(), url) + if is_grant(ops.last(), url) {
            1int
        } else {
            0int
        }
    }
}

/// A run never grants a negative number of claims.
proof fn lemma_grants_nonneg(ops: Seq<CacheOp>, url: Seq<char>)
    ensures
        grants_for(ops, url) >= 0,
    decreases ops.len(),
{
    if ops.len() > 0 {
        lemma_grants_nonneg(ops.drop_last(), url);
    }
}

/// No operation of the run releases the claim for this source.
pub open spec fn no_release_for(ops: Seq<CacheOp>, url: Seq<char>) -> bool {
    forall|i: int|
        0 <= i < ops.len() ==> !((#[trigger] ops[i]) matches CacheOp::Fail { url: u } && u
            == url)
}

/// Over any prefix of a run without a release for the source, at most one
/// claim is granted, and once one was granted the source stays claimed or
/// resolved.
proof fn lemma_grants_bounded(
    states: Seq<YouTubeCacheState>,
    ops: Seq<CacheOp>,
    url: Seq<char>,
    n: int,
)
    requires
        cache_run(states, ops),
        no_release_for(ops, url),
        0 <= n <= ops.len(),
    ensures
        grants_for(ops.subrange(0, n), url) <= 1,
        grants_for(ops.subrange(0, n), url) >= 1 ==> claimed_or_resolved(states[n], url),
    decreases n,
{
    if n > 0 {
        lemma_grants_bounded(states, ops, url, n - 1);
        let prefix = ops.subrange(0, n);
        assert(prefix.drop_last() =~= ops.subrange(0, n - 1));
        assert(prefix.last() == ops[n - 1]);
        let op = ops[n - 1];
        assert(cache_step(states[n - 1], states[n], op));
        if is_grant(op, url) {
            // a grant found the source free, so no earlier grant stands
            assert(!claimed_or_resolved(states[n - 1], url));
            lemma_grants_nonneg(ops.subrange(0, n - 1), url);
            assert(grants_for(ops.subrange(0, n - 1), url) == 0);
            assert(claimed_or_resolved(states[n], url));
        } else {
            if grants_for(ops.subrange(0, n - 1), url) >= 1 {
                // the standing claim or resolution survives every
                // non-releasing operation
                assert(claimed_or_resolved(states[n - 1], url));
                match op {
                    CacheOp::Claim { url: u, granted } => {
                        if granted {
                            assert(u != url);
                        }
                    }
                    CacheOp::MarkDownloading { url: u } => {}
                    CacheOp::Finish { url: u, path } => {}
                    CacheOp::Fail { url: u } => {
                        assert(u != url);
                    }
                    CacheOp::Read => {}
                }
                assert(claimed_or_resolved(states[n], url));
            }
        }
    }
}

/// Single flight over any interleaving: however many requesters race on one
/// shared state, a serialized run of the protocol's operations that never
/// reports a failed download for a source grants at most one claim for it —
/// so at most one download of that source ever starts.
pub proof fn lemma_single_flight_run(
    states: Seq<YouTubeCacheState>,
    ops: Seq<CacheOp>,
    url: Seq<char>,
)
    requires
        cache_run(states, ops),
        no_release_for(ops, url),
    ensures
        grants_for(ops, url) <= 1,
{
    lemma_grants_bounded(states, ops, url, ops.len() as int);
    assert(ops.subrange(0, ops.len() as int) =~= ops);
}

/// A recorded resolution is stable: once a source resolved to a path, every
/// later state of a run whose operations never finish that source again
/// reports the same path — all deferred requesters read one resolution.
pub proof fn lemma_resolution_stable(
    states: Seq<YouTubeCacheState>,
    ops: Seq<CacheOp>,
    url: Seq<char>,
    path: Seq<char>,
    k: int,
    j: int,
)
    requires
        cache_run(states, ops),
        0 <= k <= j <= ops.len(),
        states[k].cached_spec(url) == Some(path),
        forall|i: int|
            k <= i < j ==> !((#[trigger] ops[i]) matches CacheOp::Finish { url: u, path: p }
                && u == url),
    ensures
        states[j].cached_spec(url) == Some(path),
    decreases j - k,
{
    if j > k {
        lemma_resolution_stable(states, ops, url, path, k, j - 1);
        let op = ops[j - 1];
        assert(cache_step(states[j - 1], states[j], op));
        match op {
            CacheOp::Claim { url: u, granted } => {
                if granted {
                    assert(u != url);
                }
            }
            CacheOp::MarkDownloading { url: u } => {}
            CacheOp::Finish { url: u, path: p } => {
                assert(u != url);
            }
            CacheOp::Fail { url: u } => {}
            CacheOp::Read => {}
        }
    }
}

/// Why a source failed to resolve to a playable file.
#[derive(Debug, Clone)]
pub enum CacheError {
    /// A local file source does not exist: a configuration error, surfaced
    /// to the operator and not retried.
    NotFound {
        /// The path that was probed.
        path: String,
    },
    /// A remote fetch failed; the next natural request for the source may
    /// retry it.
    DownloadFailed {
        /// What the fetch reported.
        reason: String,
    },
}

impl CacheError {
    /// A human-readable description of the failure for the diagnostic
    /// channel.
    pub fn message(&self) -> (r: String)
        ensures
            match self {
                CacheError::NotFound { path } => r@ == "Sound file not found at "@ + path@,
                CacheError::DownloadFailed { reason } => r@ == "Download failed: "@ + reason@,
            },
    {
        match self {
            CacheError::NotFound { path } => {
                let mut r = String::from_str("Sound file not found at ");
                r.append(path.as_str());
                r
            }
            CacheError::DownloadFailed { reason } => {
                let mut r = String::from_str("Download failed: ");
                r.append(reason.as_str());
                r
            }
        }
    }
}

/// What a requester should do for one source, as decided by the cache.
#[derive(Debug, Clone)]
pub enum ResolveAction {
    /// Play this already-materialized local file; no download is needed.
    UseLocal {
        /// The resolved local path.
        path: String,
    },
    /// The requester holds the claim and must perform the download, then
    /// report it finished or failed.
    Download,
    /// Another requester is already downloading this source; do not start a
    /// second download.
    Wait,
}

impl YouTubeCacheState {
    /// One resolution step for a remote source. The caller reports whether
    /// the deterministic cache file already exists on disk with content;
    /// a disk hit — including one surviving from an earlier session — is
    /// recorded and resolves at once. Otherwise an existing resolution is
    /// served from memory, a standing claim defers the requester, and a free
    /// source grants the claim so that exactly one download starts.
    pub fn resolve_step(&mut self, url: &str, on_disk: bool, disk_path: &str) -> (r:
        ResolveAction)
        requires
            old(self).wf(),
        ensures
            final(self).wf(),
            on_disk ==> {
                &&& r matches ResolveAction::UseLocal { path } && path@ == disk_path@
                &&& final(self).cached_spec(url@) == Some(disk_path@)
                &&& !final(self).downloading_spec(url@)
            },
            !on_disk && old(self).cached_spec(url@) is Some ==> {
                &&& r matches ResolveAction::UseLocal { path } && Some(path@) == old(
                    self,
                ).cached_spec(url@)
                &&& *final(self) == *old(self)
            },
            !on_disk && old(self).cached_spec(url@) is None && old(self).downloading_spec(url@)
                ==> (r matches ResolveAction::Wait) && *final(self) == *old(self),
            !on_disk && old(self).cached_spec(url@) is None && !old(self).downloading_spec(url@)
                ==> {
                &&& r matches ResolveAction::Download
                &&& final(self).downloading_spec(url@)
                &&& forall|u: Seq<char>|
                    final(self).cached_spec(u) == old(self).cached_spec(u)
            },
    {
        if on_disk {
            self.finish_download(url, String::from_str(disk_path));
            return ResolveAction::UseLocal { path: String::from_str(disk_path) };
        }
        let hit = match self.get_cached_path(url) {
            Some(p) => Some(p.clone()),
            None => None,
        };
        match hit {
            Some(p) => ResolveAction::UseLocal { path: p },
            None => {
                if self.try_start_download(url) {
                    ResolveAction::Download
                } else {
                    ResolveAction::Wait
                }
            }
        }
    }
}

/// Index of the first entry with exactly these characters.
fn index_of_name(v: &Vec<String>, url: &str) -> (r: Option<usize>)
    ensures
        match r {
            Some(i) => i < v@.len() && v@[i as int]@ == url@,
            None => forall|j: int| 0 <= j < v@.len() ==> v@[j]@ != url@,
        },
        r is Some <==> has_name(v@, url@),
{
    let n = v.len();
    let mut i: usize = 0;
    while i < n
        invariant
            n == v@.len(),
            i <= n,
            forall|j: int| 0 <= j < i ==> v@[j]@ != url@,
        decreases n - i,
    {
        if strutil::str_eq(v[i].as_str(), url) {
            return Some(i);
        }
        i = i + 1;
    }
    None
}

/// Index of the first entry whose key has exactly these characters.
fn index_of_key(v: &Vec<(String, String)>, url: &str) -> (r: Option<usize>)
    ensures
        match r {
            Some(i) => i < v@.len() && v@[i as int].0@ == url@,
            None => forall|j: int| 0 <= j < v@.len() ==> v@[j].0@ != url@,
        },
{
    let n = v.len();
    let mut i: usize = 0;
    while i < n
        invariant
            n == v@.len(),
            i <= n,
            forall|j: int| 0 <= j < i ==> v@[j].0@ != url@,
        decreases n - i,
    {
        if strutil::str_eq(v[i].0.as_str(), url) {
            return Some(i);
        }
        i = i + 1;
    }
    None
}

/// Removes the entry with these characters, if present; all others stay.
fn remove_name(v: &mut Vec<String>, url: &str)
    requires
        distinct_names(old(v)@),
    ensures
        distinct_names(final(v)@),
        !has_name(final(v)@, url@),
        forall|u: Seq<char>| u != url@ ==> has_name(final(v)@, u) == has_name(old(v)@, u),
{
    match index_of_name(v, url) {
        Some(i) => {
            let ghost s0 = v@;
            v.remove(i);
            proof {
                let s = v@;
                assert(forall|j: int| 0 <= j < i ==> s[j] == s0[j]);
                assert(forall|j: int| i <= j < s.len() ==> s[j] == s0[j + 1]);
                assert forall|u: Seq<char>| !(u != url@) || has_name(s, u) == has_name(
                    s0,
                    u,
                ) by {
                    if u != url@ {
                        if has_name(s0, u) {
                            let j = choose|j: int| 0 <= j < s0.len() && s0[j]@ == u;
                            if j < i {
                                assert(s[j]@ == u);
                            } else {
                                assert(j != i);
                                assert(s[j - 1]@ == u);
                            }
                        }
                        if has_name(s, u) {
                            let j = choose|j: int| 0 <= j < s.len() && s[j]@ == u;
                            if j < i {
                                assert(s0[j]@ == u);
                            } else {
                                assert(s0[j + 1]@ == u);
                            }
                        }
                    }
                }
                assert forall|j: int| 0 <= j < s.len() implies s[j]@ != url@ by {
                    if j < i {
                        assert(s0[j]@ != url@);
                    } else {
                        assert(s0[j + 1]@ != url@);
                    }
                }
            }
        }
        None => {}
    }
}

/// Updating the entry at a matching index rewrites that key's value and no
/// other.
proof fn lemma_update_keeps_lookup(
    s0: Seq<(String, String)>,
    s: Seq<(String, String)>,
    url: Seq<char>,
    path: Seq<char>,
    i: int,
)
    requires
        distinct_keys(s0),
        0 <= i < s0.len(),
        s0[i].0@ == url,
        s.len() == s0.len(),
        forall|j: int| 0 <= j < s.len() && j != i ==> s[j] == s0[j],
        s[i].0@ == url,
        s[i].1@ == path,
    ensures
        distinct_keys(s),
        lookup_pair(s, url) == Some(path),
        forall|u: Seq<char>| u != url ==> lookup_pair(s, u) == lookup_pair(s0, u),
{
    assert forall|a: int, b: int| 0 <= a < b < s.len() implies s[a].0@ != s[b].0@ by {
        if a != i && b != i {
            assert(s0[a].0@ != s0[b].0@);
        } else if a == i {
            assert(s0[a].0@ != s0[b].0@);
        } else {
            assert(s0[a].0@ != s0[b].0@);
        }
    }
    lemma_lookup_at(s, url, i);
    assert forall|u: Seq<char>| u != url implies lookup_pair(s, u) == lookup_pair(s0, u) by {
        lemma_lookup_agree_except(s0, s, u);
    }
}

/// Two key-distinct sequences that agree on every entry with key `u` give
/// `u` the same lookup result.
proof fn lemma_lookup_agree_except(
    s0: Seq<(String, String)>,
    s: Seq<(String, String)>,
    u: Seq<char>,
)
    requires
        distinct_keys(s0),
        distinct_keys(s),
        forall|j: int|
            0 <= j < s0.len() && s0[j].0@ == u ==> 0 <= j < s.len() && s[j] == s0[j],
        forall|j: int|
            0 <= j < s.len() && s[j].0@ == u ==> 0 <= j < s0.len() && s[j] == s0[j],
    ensures
        lookup_pair(s, u) == lookup_pair(s0, u),
{
    if exists|j: int| 0 <= j < s0.len() && s0[j].0@ == u {
        let j = choose|j: int| 0 <= j < s0.len() && s0[j].0@ == u;
        lemma_lookup_at(s0, u, j);
        lemma_lookup_at(s, u, j);
    } else {
        lemma_lookup_absent(s0, u);
        if exists|j: int| 0 <= j < s.len() && s[j].0@ == u {
            let j = choose|j: int| 0 <= j < s.len() && s[j].0@ == u;
            assert(s0[j].0@ == u);
        }
        lemma_lookup_absent(s, u);
    }
}

} // verus!
