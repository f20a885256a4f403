//! The application's on-disk layout, derived from one data directory:
//! configuration, logs, and the cache tree with its sound and remote-audio
//! subdirectories. Pure path arithmetic; creating or probing the
//! directories is the shell's business.

use vstd::prelude::*;
use vstd::string::StringExecFns;

verus! {

/// The application's path layout under one base data directory.
#[derive(Debug, Clone)]
pub struct AppPaths {
    /// The base data directory.
    pub base: String,
}

/// A directory path joined with one component.
pub open spec fn joined(dir: Seq<char>, name: Seq<char>) -> Seq<char> {
    dir + "/"@ + name
}

/// Joins a directory path and one component.
fn join(dir: &str, name: &str) -> (r: String)
    ensures
        r@ == joined(dir@, name@),
{
    let mut r = String::from_str(dir);
    r.append("/");
    r.append(name);
    proof {
        assert(r@ =~= joined(dir@, name@));
    }
    r
}

impl AppPaths {
    /// The layout rooted at a base data directory.
    pub fn new(base: String) -> (r: Self)
        ensures
            r.base == base,
    {
        AppPaths { base }
    }

    /// The configuration file.
    pub fn config_file(&self) -> (r: String)
        ensures
            r@ == joined(self.base@, "config.json"@),
    {
        join(self.base.as_str(), "config.json")
    }

    /// The sound pack file.
    pub fn sound_pack_file(&self) -> (r: String)
        ensures
            r@ == joined(self.base@, "sound-pack.json"@),
    {
        join(self.base.as_str(), "sound-pack.json")
    }

    /// The directory all log files live in.
    pub fn logs_dir(&self) -> (r: String)
        ensures
            r@ == joined(self.base@, "logs"@),
    {
        join(self.base.as_str(), "logs")
    }

    /// The debug log for sound and event diagnostics.
    pub fn debug_log_file(&self) -> (r: String)
        ensures
            r@ == joined(joined(self.base@, "logs"@), "scout-debug.log"@),
    {
        let dir = self.logs_dir();
        join(dir.as_str(), "scout-debug.log")
    }

    /// The startup diagnostics log.
    pub fn startup_log_file(&self) -> (r: String)
        ensures
            r@ == joined(joined(self.base@, "logs"@), "startup-log.txt"@),
    {
        let dir = self.logs_dir();
        join(dir.as_str(), "startup-log.txt")
    }

    /// The cache directory.
    pub fn cache_dir(&self) -> (r: String)
        ensures
            r@ == joined(self.base@, "cache"@),
    {
        join(self.base.as_str(), "cache")
    }

    /// The extracted sound files' directory.
    pub fn sounds_cache_dir(&self) -> (r: String)
        ensures
            r@ == joined(joined(self.base@, "cache"@), "sounds"@),
    {
        let dir = self.cache_dir();
        join(dir.as_str(), "sounds")
    }

    /// The bundled beep sound file.
    pub fn base_beep_file(&self) -> (r: String)
        ensures
            r@ == joined(joined(joined(self.base@, "cache"@), "sounds"@), "base-beep.wav"@),
    {
        let dir = self.sounds_cache_dir();
        join(dir.as_str(), "base-beep.wav")
    }

    /// The downloaded remote audio directory.
    pub fn youtube_cache_dir(&self) -> (r: String)
        ensures
            r@ == joined(joined(self.base@, "cache"@), "youtube-audio"@),
    {
        let dir = self.cache_dir();
        join(dir.as_str(), "youtube-audio")
    }
}

} // verus!
