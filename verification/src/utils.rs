//! The directory in which backups are kept, fixed once for the whole run.

use vstd::prelude::*;

verus! {

/// A write-once slot for the backup directory: empty until the first
/// `set_app_cache_dir`, and unchanged by every later one.
pub struct CacheDir {
    pub dir: Option<String>,
}

impl CacheDir {
    /// Whether a directory has been recorded.
    pub open spec fn is_set(&self) -> bool {
        self.dir is Some
    }

    /// The recorded directory, as text.
    pub open spec fn text(&self) -> Seq<char>
        recommends
            self.is_set(),
    {
        self.dir->0@
    }

    /// An empty slot.
    pub fn new() -> (slot: CacheDir)
        ensures
            !slot.is_set(),
    {
        CacheDir { dir: None }
    }

    /// Whether a directory has been recorded.
    pub fn ready(&self) -> (set: bool)
        ensures
            set == self.is_set(),
    {
        self.dir.is_some()
    }
}

/// Records `dir` as the backup directory unless one was recorded before.
pub fn set_app_cache_dir(slot: &mut CacheDir, dir: &str)
    ensures
        final(slot).is_set(),
        old(slot).is_set() ==> *final(slot) == *old(slot),
        !old(slot).is_set() ==> final(slot).text() == dir@,
{
    if slot.dir.is_none() {
        slot.dir = Some(dir.to_owned());
    }
}

/// The recorded backup directory.
pub fn get_app_cache_dir(slot: &CacheDir) -> (dir: String)
    requires
        slot.is_set(),
    ensures
        dir@ == slot.text(),
{
    match &slot.dir {
        Some(d) => d.clone(),
        None => String::new(),
    }
}

} // verus!
