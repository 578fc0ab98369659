//! The operations offered to a host shell, as far as they are decisions:
//! which format a file name asks for, where a backup lives, which backups
//! have expired, and what an optimize or convert call reports.

use crate::paths::{path_extension, path_join, text_or_empty};
use crate::utils::CacheDir;
use vstd::prelude::*;

verus! {

/// What a command can fail with.
#[derive(Debug, Clone, PartialEq, Eq)]
pub enum Error {
    /// A codec step failed.
    OptimizeProcessing { message: String },
    /// Reading or writing a file failed.
    Io { message: String },
    /// A folder could not be enumerated: the pattern was refused.
    Pattern { message: String },
    /// The file name has no extension to tell the format by.
    FormatInvalid,
    /// No backup is kept under the hash.
    NotFound { hash: String },
}

/// The text of a refused format.
pub open spec fn format_invalid_text() -> Seq<char> {
    "Format is invalid"@
}

/// The serialized form of an error: an object of a category and a message,
/// both copied in as they are.
pub open spec fn error_json(category: Seq<char>, message: Seq<char>) -> Seq<char> {
    "{\"category\": \""@ + category + "\", \"message\": \""@ + message + "\"}"@
}

impl Error {
    /// The stable category of the error.
    pub open spec fn category_of(&self) -> Seq<char> {
        match self {
            Error::OptimizeProcessing { .. } => "optim"@,
            Error::Io { .. } => "io"@,
            Error::Pattern { .. } => "pattern"@,
            Error::FormatInvalid => "format"@,
            Error::NotFound { .. } => "not_found"@,
        }
    }

    /// The message of the error.
    pub open spec fn message_of(&self) -> Seq<char> {
        match self {
            Error::OptimizeProcessing { message } => message@,
            Error::Io { message } => message@,
            Error::Pattern { message } => message@,
            Error::FormatInvalid => format_invalid_text(),
            Error::NotFound { hash } => "No backup for "@ + hash@,
        }
    }

    /// The stable category of the error.
    pub fn category(&self) -> (c: &'static str)
        ensures
            c@ == self.category_of(),
    {
        match self {
            Error::OptimizeProcessing { .. } => "optim",
            Error::Io { .. } => "io",
            Error::Pattern { .. } => "pattern",
            Error::FormatInvalid => "format",
            Error::NotFound { .. } => "not_found",
        }
    }

    /// The message of the error.
    pub fn message(&self) -> (m: String)
        ensures
            m@ == self.message_of(),
    {
        match self {
            Error::OptimizeProcessing { message } => message.clone(),
            Error::Io { message } => message.clone(),
            Error::Pattern { message } => message.clone(),
            Error::FormatInvalid => "Format is invalid".to_owned(),
            Error::NotFound { hash } => {
                let mut m = "No backup for ".to_owned();
                m.append(hash.as_str());
                m
            },
        }
    }

    /// Serializes the error for the shell.
    pub fn serialize(&self) -> (json: String)
        ensures
            json@ == error_json(self.category_of(), self.message_of()),
    {
        let mut json = "{\"category\": \"".to_owned();
        json.append(self.category());
        json.append("\", \"message\": \"");
        let m = self.message();
        json.append(m.as_str());
        json.append("\"}");
        json
    }
}

/// What an optimize or convert call reports.
#[derive(Debug, Clone, PartialEq, Eq)]
pub struct ImageOptimizeResult {
    /// The perceptual difference in ten-thousandths.
    pub diff: i64,
    /// The content hash under which the original was backed up; empty where
    /// no backup is available.
    pub hash: String,
    /// The size in bytes after the call.
    pub size: usize,
    /// The size in bytes before the call.
    pub original_size: usize,
    pub width: u32,
    pub height: u32,
    /// How many rounds were accepted.
    pub optim_count: u8,
}

/// The format that an extension asks for: `jpeg` for `jpg`, else the
/// extension itself; none for the empty extension.
pub open spec fn format_of_extension(ext: Seq<char>) -> Option<Seq<char>> {
    if ext.len() == 0 {
        None
    } else if ext == "jpg"@ {
        Some("jpeg"@)
    } else {
        Some(ext)
    }
}

/// The format that the extension `ext` asks for, or `FormatInvalid` for the
/// empty extension.
pub fn image_format_of(ext: String) -> (r: Result<String, Error>)
    ensures
        match format_of_extension(ext@) {
            Some(f) => r is Ok && r->Ok_0@ == f,
            None => r == Err::<String, Error>(Error::FormatInvalid),
        },
{
    if ext.as_str().unicode_len() == 0 {
        return Err(Error::FormatInvalid);
    }
    if crate::text::str_eq(ext.as_str(), "jpg") {
        Ok("jpeg".to_owned())
    } else {
        Ok(ext)
    }
}

/// The format that the name of `file` asks for, by its extension.
pub fn get_image_format(file: &str) -> (r: Result<String, Error>)
    ensures
        match format_of_extension(text_or_empty(path_extension(file@))) {
            Some(f) => r is Ok && r->Ok_0@ == f,
            None => r == Err::<String, Error>(Error::FormatInvalid),
        },
{
    image_format_of(crate::paths::extension_or_empty(file))
}

/// The BLAKE3 hash of `bytes`, written as lowercase hexadecimal.
pub uninterp spec fn blake3_hex(bytes: Seq<u8>) -> Seq<char>;

/// Hashes `bytes` with `blake3::hash` and writes the hash with
/// `Hash::to_hex`: 64 hexadecimal digits, two for each of the 32 bytes of
/// the hash. The hash is a function of the bytes, named by `blake3_hex`.
#[verifier::external_body]
pub(crate) fn hash_hex(bytes: &[u8]) -> (hex: String)
    ensures
        hex@ == blake3_hex(bytes@),
        hex@.len() == 64,
{
    blake3::hash(bytes).to_hex().to_string()
}

/// The name of the backup of the content with the given hash.
pub open spec fn backup_name(hash: Seq<char>) -> Seq<char> {
    hash + ".bak"@
}

/// The path of the backup of the content with the given hash, below `dir`.
pub open spec fn backup_path(dir: Seq<char>, hash: Seq<char>) -> Seq<char> {
    path_join(dir, backup_name(hash))
}

/// The path under which the content with the given hash is backed up.
pub fn get_backup_file(cache: &CacheDir, hash: &str) -> (path: String)
    requires
        cache.is_set(),
    ensures
        path@ == backup_path(cache.text(), hash@),
{
    let mut name = hash.to_owned();
    name.append(".bak");
    let dir = crate::utils::get_app_cache_dir(cache);
    crate::paths::join(dir.as_str(), name.as_str())
}

/// The content hash that keys the backup of `original`.
pub fn backup_key(original: &[u8]) -> (hash: String)
    ensures
        hash@ == blake3_hex(original@),
        hash@.len() == 64,
{
    hash_hex(original)
}

/// How many rounds a quality search runs at most.
pub const MAX_ROUNDS: u8 = 3;

/// The accumulated difference, in ten-thousandths, above which a quality
/// search stops: half a unit.
pub const DIFF_LIMIT: i64 = 5000;

/// Why a quality search stopped.
#[derive(Clone, Copy, Debug, PartialEq, Eq, Structural)]
pub enum StopReason {
    /// The last round did not undercut the size that was fed into it.
    NoImprovement,
    /// The accumulated difference went above the limit.
    DiffExceeded,
    /// The last allowed round was accepted.
    RoundLimitReached,
}

/// The sum of two differences, held at the ends of the 64-bit range.
pub open spec fn diff_sum(a: i64, b: i64) -> i64 {
    if a + b > i64::MAX {
        i64::MAX
    } else if a + b < i64::MIN {
        i64::MIN
    } else {
        (a + b) as i64
    }
}

/// Adds two differences, holding the sum at the ends of the 64-bit range.
pub fn add_diff(a: i64, b: i64) -> (sum: i64)
    ensures
        sum == diff_sum(a, b),
{
    let wide: i128 = a as i128 + b as i128;
    if wide > i64::MAX as i128 {
        i64::MAX
    } else if wide < i64::MIN as i128 {
        i64::MIN
    } else {
        wide as i64
    }
}

/// The search for a smaller encoding of one file: the same quality is
/// applied again and again, each round to the output of the round before,
/// for as long as that pays.
#[derive(Debug, Clone, PartialEq, Eq)]
pub struct QualitySearch {
    /// The size of the file as it was found.
    pub original_size: usize,
    /// The size that is fed into the next round: that of the best encoding
    /// so far, or of the original while none was accepted.
    pub fed_size: usize,
    /// The best encoding so far: the output of the last accepted round.
    pub best: Option<Vec<u8>>,
    /// How many rounds were accepted.
    pub rounds: u8,
    /// The differences of the accepted rounds, summed up.
    pub diff: i64,
    /// The sides of the image that the last round produced.
    pub width: u32,
    pub height: u32,
    /// Why the search stopped; `None` while it runs.
    pub stop: Option<StopReason>,
}

/// A quality search as contracts see it.
pub struct SearchView {
    pub original_size: int,
    pub fed_size: int,
    pub best: Option<Seq<u8>>,
    pub rounds: int,
    pub diff: i64,
    pub width: u32,
    pub height: u32,
    pub stop: Option<StopReason>,
}

/// One round's output: the bytes, their difference from the original in
/// ten-thousandths, and the sides of the image.
pub struct Round {
    pub output: Seq<u8>,
    pub diff: i64,
    pub width: u32,
    pub height: u32,
}

/// The search before its first round.
pub open spec fn search_start(original_size: int) -> SearchView {
    SearchView {
        original_size,
        fed_size: original_size,
        best: None,
        rounds: 0,
        diff: 0,
        width: 0,
        height: 0,
        stop: None,
    }
}

/// The search after one more round.
///
/// A stopped search stays as it is. A round that does not undercut the size
/// fed into it stops the search and is discarded: the best encoding stays.
/// Any other round is accepted: its output becomes the best encoding and is
/// fed into the next round, its difference is added to the sum, and the
/// search stops where the sum is above the limit or the round was the last
/// one allowed. A running search takes the sides of every round.
pub open spec fn search_next(s: SearchView, r: Round) -> SearchView {
    if s.stop is Some {
        s
    } else if r.output.len() >= s.fed_size {
        SearchView {
            width: r.width,
            height: r.height,
            stop: Some(StopReason::NoImprovement),
            ..s
        }
    } else {
        let sum = diff_sum(s.diff, r.diff);
        SearchView {
            original_size: s.original_size,
            fed_size: r.output.len() as int,
            best: Some(r.output),
            rounds: s.rounds + 1,
            diff: sum,
            width: r.width,
            height: r.height,
            stop: if sum > DIFF_LIMIT {
                Some(StopReason::DiffExceeded)
            } else if s.rounds + 1 >= MAX_ROUNDS {
                Some(StopReason::RoundLimitReached)
            } else {
                None
            },
        }
    }
}

/// Whether the round that turned `before` into `after` was accepted.
pub open spec fn accepted(before: SearchView, after: SearchView) -> bool {
    after.rounds == before.rounds + 1
}

impl SearchView {
    /// What holds of every search that was started and stepped: it has
    /// accepted at most the allowed rounds, runs only while rounds are
    /// left and the difference is within the limit, feeds the original
    /// size exactly while nothing was accepted, and holds a best encoding
    /// exactly once a round was accepted, of the size that it feeds.
    pub open spec fn valid(self) -> bool {
        &&& 0 <= self.rounds <= MAX_ROUNDS
        &&& 0 <= self.fed_size <= self.original_size
        &&& self.stop is None ==> self.rounds < MAX_ROUNDS && self.diff <= DIFF_LIMIT
        &&& self.rounds == 0 ==> self.fed_size == self.original_size && self.diff == 0
        &&& self.rounds > 0 ==> self.fed_size < self.original_size
        &&& self.stop == Some(StopReason::RoundLimitReached) ==> self.rounds == MAX_ROUNDS
        &&& self.stop == Some(StopReason::DiffExceeded) ==> self.rounds > 0 && self.diff
            > DIFF_LIMIT
        &&& self.best is Some <==> self.rounds > 0
        &&& self.best is Some ==> self.best->0.len() == self.fed_size
    }
}

impl View for QualitySearch {
    type V = SearchView;

    open spec fn view(&self) -> SearchView {
        SearchView {
            original_size: self.original_size as int,
            fed_size: self.fed_size as int,
            best: match self.best {
                Some(b) => Some(b@),
                None => None,
            },
            rounds: self.rounds as int,
            diff: self.diff,
            width: self.width,
            height: self.height,
            stop: self.stop,
        }
    }
}

impl QualitySearch {
    /// The search is one that `new` and `step` can have made.
    pub open spec fn wf(&self) -> bool {
        self@.valid()
    }

    /// Whether the search is well-formed.
    pub fn is_wf(&self) -> (ok: bool)
        ensures
            ok == self.wf(),
    {
        let held = match &self.best {
            Some(b) => self.rounds > 0 && b.len() == self.fed_size,
            None => self.rounds == 0,
        };
        let running_ok = match self.stop {
            None => self.rounds < MAX_ROUNDS && self.diff <= DIFF_LIMIT,
            Some(StopReason::RoundLimitReached) => self.rounds == MAX_ROUNDS,
            Some(StopReason::DiffExceeded) => self.rounds > 0 && self.diff > DIFF_LIMIT,
            Some(StopReason::NoImprovement) => true,
        };
        let sizes_ok = if self.rounds == 0 {
            self.fed_size == self.original_size && self.diff == 0
        } else {
            self.fed_size < self.original_size
        };
        held && running_ok && sizes_ok && self.rounds <= MAX_ROUNDS
    }

    /// A search for a file of `original_size` bytes, before its first round.
    pub fn new(original_size: usize) -> (s: QualitySearch)
        ensures
            s.wf(),
            s@ == search_start(original_size as int),
    {
        QualitySearch {
            original_size,
            fed_size: original_size,
            best: None,
            rounds: 0,
            diff: 0,
            width: 0,
            height: 0,
            stop: None,
        }
    }

    /// Whether another round is due.
    pub fn running(&self) -> (r: bool)
        ensures
            r == (self.stop is None),
    {
        self.stop.is_none()
    }

    /// Takes the output of one round: its bytes, its difference from the
    /// original in ten-thousandths, and the sides of the image. The search
    /// moves as `search_next` says.
    pub fn step(&mut self, output: Vec<u8>, diff: i64, width: u32, height: u32)
        requires
            old(self).wf(),
        ensures
            final(self).wf(),
            final(self)@ == search_next(
                old(self)@,
                Round { output: output@, diff, width, height },
            ),
    {
        if self.stop.is_some() {
            return ;
        }
        self.width = width;
        self.height = height;
        let size = output.len();
        if size >= self.fed_size {
            self.stop = Some(StopReason::NoImprovement);
            return ;
        }
        self.fed_size = size;
        self.best = Some(output);
        self.rounds = self.rounds + 1;
        self.diff = add_diff(self.diff, diff);
        if self.diff > DIFF_LIMIT {
            self.stop = Some(StopReason::DiffExceeded);
        } else if self.rounds >= MAX_ROUNDS {
            self.stop = Some(StopReason::RoundLimitReached);
        }
    }

    /// The bytes that the next round encodes: the best encoding so far, or
    /// `original` while no round was accepted.
    pub fn input<'a>(&'a self, original: &'a Vec<u8>) -> (bytes: &'a Vec<u8>)
        ensures
            bytes@ == match self@.best {
                Some(b) => b,
                None => original@,
            },
    {
        match &self.best {
            Some(b) => b,
            None => original,
        }
    }

    /// What the search reports once the file was handled. `hash` is the key
    /// of the backup, empty where none is available. Where no round was
    /// accepted nothing was saved: the size is the original's, the
    /// difference is cleared and no hash is reported.
    pub fn report(&self, hash: String) -> (r: ImageOptimizeResult)
        requires
            self.wf(),
        ensures
            r.original_size == self.original_size,
            r.width == self.width,
            r.height == self.height,
            r.optim_count == self.rounds,
            r.size == self.fed_size,
            self.rounds == 0 ==> r.diff == 0 && r.hash@.len() == 0 && r.size == self.original_size,
            self.rounds > 0 ==> r.diff == self.diff && r.hash == hash && r.size
                < self.original_size,
    {
        if self.rounds == 0 {
            ImageOptimizeResult {
                diff: 0,
                hash: String::new(),
                size: self.original_size,
                original_size: self.original_size,
                width: self.width,
                height: self.height,
                optim_count: 0,
            }
        } else {
            ImageOptimizeResult {
                diff: self.diff,
                hash,
                size: self.fed_size,
                original_size: self.original_size,
                width: self.width,
                height: self.height,
                optim_count: self.rounds,
            }
        }
    }
}

/// A valid search stays valid, whatever a round puts out.
pub proof fn lemma_search_stays_valid(s: SearchView, r: Round)
    requires
        s.valid(),
    ensures
        search_next(s, r).valid(),
{
}

/// No round is accepted unless its output is smaller than what was fed
/// into it, so the size of the best encoding never grows.
pub proof fn lemma_accepted_round_shrinks(s: SearchView, r: Round)
    requires
        s.valid(),
    ensures
        accepted(s, search_next(s, r)) ==> r.output.len() < s.fed_size,
        accepted(s, search_next(s, r)) ==> search_next(s, r).fed_size == r.output.len()
            && search_next(s, r).best == Some(r.output),
        !accepted(s, search_next(s, r)) ==> search_next(s, r).fed_size == s.fed_size
            && search_next(s, r).best == s.best,
        search_next(s, r).fed_size <= s.fed_size,
{
}

/// A search has stopped after three rounds, whatever they put out, and has
/// never accepted more than three.
pub proof fn lemma_search_stops_in_three(original_size: int, r1: Round, r2: Round, r3: Round)
    requires
        original_size >= 0,
    ensures
        search_next(search_next(search_next(search_start(original_size), r1), r2), r3).stop
            is Some,
        search_next(search_next(search_next(search_start(original_size), r1), r2), r3).rounds
            <= MAX_ROUNDS,
{
}

/// Once a search has stopped, no further round changes it.
pub proof fn lemma_stopped_search_is_final(s: SearchView, r: Round)
    requires
        s.stop is Some,
    ensures
        search_next(s, r) == s,
{
}

/// What a backup directory holds: the content of each file, by its path.
pub type Store = Map<Seq<char>, Seq<u8>>;

/// The directory after a backup of `bytes` under `path`: a file that is
/// already there is left alone, else the bytes are written.
pub open spec fn store_after_backup(store: Store, path: Seq<char>, bytes: Seq<u8>) -> Store {
    if store.dom().contains(path) {
        store
    } else {
        store.insert(path, bytes)
    }
}

/// Whether a backup has to be written: only where none is there yet.
/// `present` says whether a file stands at the backup's path; a directory
/// that is written to as this says goes from `store` to
/// `store_after_backup(store, path, bytes)`.
pub fn backup_needed(present: bool) -> (write: bool)
    ensures
        write == !present,
{
    !present
}

/// The hash that is reported for a backup. `present` says whether the backup
/// was found in place, `written` whether it was then written. Without a
/// backup in place the reported hash is empty.
pub fn backup_outcome(hash: String, present: bool, written: bool) -> (reported: String)
    ensures
        present || written ==> reported == hash,
        !present && !written ==> reported@.len() == 0,
{
    if present || written {
        hash
    } else {
        String::new()
    }
}

/// Backing up is idempotent: a second backup of the same bytes under the
/// same path changes nothing. A backup adds at most the one file at its
/// path and touches no other file. The file at the path holds the bytes
/// afterwards, provided that whatever stood there before held them too.
pub proof fn lemma_backup_idempotent(store: Store, path: Seq<char>, bytes: Seq<u8>)
    ensures
        store_after_backup(store_after_backup(store, path, bytes), path, bytes)
            == store_after_backup(store, path, bytes),
        store_after_backup(store, path, bytes).dom() == store.dom().insert(path),
        (store.dom().contains(path) ==> store[path] == bytes) ==> store_after_backup(
            store,
            path,
            bytes,
        )[path] == bytes,
        forall|other: Seq<char>|
            other != path && store.dom().contains(other) ==> #[trigger] store_after_backup(
                store,
                path,
                bytes,
            )[other] == store[other],
{
    assert(store_after_backup(store, path, bytes).dom() =~= store.dom().insert(path));
}

/// Equal bytes are backed up under one path: the path is a function of the
/// directory and the content.
pub proof fn lemma_backup_path_by_content(dir: Seq<char>, a: Seq<u8>, b: Seq<u8>)
    requires
        a == b,
    ensures
        backup_path(dir, blake3_hex(a)) == backup_path(dir, blake3_hex(b)),
{
}

/// The directory after a restore from the backup at `from` over the file at
/// `to`: the file holds what the backup holds; without the backup nothing
/// changes.
pub open spec fn store_after_restore(store: Store, from: Seq<char>, to: Seq<char>) -> Store {
    if store.dom().contains(from) {
        store.insert(to, store[from])
    } else {
        store
    }
}

/// A file that was backed up, overwritten and restored holds its original
/// bytes again, byte for byte, and the backup still holds them; provided
/// that whatever stood at the backup's path before held them too.
pub proof fn lemma_restore_reproduces_original(
    store: Store,
    backup: Seq<char>,
    file: Seq<char>,
    original: Seq<u8>,
    optimized: Seq<u8>,
)
    requires
        backup != file,
        store.dom().contains(file),
        store[file] == original,
        store.dom().contains(backup) ==> store[backup] == original,
    ensures
        ({
            let kept = store_after_backup(store, backup, original);
            let written = kept.insert(file, optimized);
            let restored = store_after_restore(written, backup, file);
            &&& written[file] == optimized
            &&& restored[file] == original
            &&& restored[backup] == original
            &&& restored.dom() == store.dom().insert(backup)
        }),
{
    let kept = store_after_backup(store, backup, original);
    let written = kept.insert(file, optimized);
    let restored = store_after_restore(written, backup, file);
    assert(restored.dom() =~= store.dom().insert(backup));
}

/// A restore without a backup leaves every file as it is.
pub proof fn lemma_restore_without_backup(store: Store, from: Seq<char>, to: Seq<char>)
    requires
        !store.dom().contains(from),
    ensures
        store_after_restore(store, from, to) == store,
{
}

/// What a restore has to copy.
#[derive(Debug, Clone, PartialEq, Eq)]
pub struct RestorePlan {
    /// The backup to copy from.
    pub from: String,
    /// The file to copy over.
    pub to: String,
}

/// Plans the restore of `file` from the backup kept under `hash`. `present`
/// says whether that backup is in place; without it the restore fails with
/// `NotFound` and nothing is to be copied. A directory that is copied in as
/// the plan says goes from `store` to
/// `store_after_restore(store, plan.from, plan.to)`.
pub fn restore_file(cache: &CacheDir, hash: &str, file: &str, present: bool) -> (r: Result<
    RestorePlan,
    Error,
>)
    requires
        cache.is_set(),
    ensures
        present ==> r is Ok && r->Ok_0.from@ == backup_path(cache.text(), hash@) && r->Ok_0.to@
            == file@,
        !present ==> r is Err && r->Err_0 is NotFound && r->Err_0->hash@ == hash@,
{
    if present {
        Ok(RestorePlan { from: get_backup_file(cache, hash), to: file.to_owned() })
    } else {
        Err(Error::NotFound { hash: hash.to_owned() })
    }
}

/// For how long after its last access a backup is kept, in nanoseconds: 24
/// hours.
pub const BACKUP_TTL_NANOS: u128 = 86_400_000_000_000;

/// A file found in the backup directory. Times are nanoseconds since the
/// epoch; `accessed` is `None` where the file system does not tell.
#[derive(Debug, Clone, PartialEq, Eq)]
pub struct CacheEntry {
    pub path: String,
    pub accessed: Option<u128>,
}

/// Whether an entry is a backup that has expired at `now`: its extension is
/// `bak`, its access time is known, and that time lies more than 24 hours
/// back.
pub open spec fn expired(entry: CacheEntry, now: u128) -> bool {
    &&& text_or_empty(path_extension(entry.path@)) == "bak"@
    &&& entry.accessed is Some
    &&& entry.accessed->0 + BACKUP_TTL_NANOS < now
}

/// Whether the entry is an expired backup.
pub fn is_expired(entry: &CacheEntry, now: u128) -> (gone: bool)
    ensures
        gone == expired(*entry, now),
{
    let ext = crate::paths::extension_or_empty(entry.path.as_str());
    if !crate::text::str_eq(ext.as_str(), "bak") {
        return false;
    }
    match entry.accessed {
        Some(at) => now > at && now - at > BACKUP_TTL_NANOS,
        None => false,
    }
}

/// Whether `picked` lists, in rising order, exactly the positions in
/// `entries` of the backups that have expired at `now`.
pub open spec fn is_sweep(picked: Seq<usize>, entries: Seq<CacheEntry>, now: u128) -> bool {
    &&& forall|a: int, b: int| 0 <= a < b < picked.len() ==> picked[a] < picked[b]
    &&& forall|a: int|
        0 <= a < picked.len() ==> (#[trigger] picked[a]) < entries.len() && expired(
            entries[picked[a] as int],
            now,
        )
    &&& forall|i: int|
        0 <= i < entries.len() && expired(#[trigger] entries[i], now) ==> exists|a: int|
            0 <= a < picked.len() && #[trigger] picked[a] == i
}

/// The sweep of the backup directory: the positions in `entries` of the
/// files to remove. Only backups whose last access lies more than 24
/// hours back are removed, and all of them are.
pub fn clear_expired_backup_files(entries: &Vec<CacheEntry>, now: u128) -> (picked: Vec<usize>)
    ensures
        is_sweep(picked@, entries@, now),
{
    let mut picked: Vec<usize> = Vec::new();
    let mut i: usize = 0;
    while i < entries.len()
        invariant
            i <= entries.len(),
            forall|a: int, b: int| 0 <= a < b < picked@.len() ==> picked@[a] < picked@[b],
            forall|a: int|
                0 <= a < picked@.len() ==> (#[trigger] picked@[a]) < i && expired(
                    entries@[picked@[a] as int],
                    now,
                ),
            forall|k: int|
                0 <= k < i && expired(#[trigger] entries@[k], now) ==> exists|a: int|
                    0 <= a < picked@.len() && #[trigger] picked@[a] == k,
        decreases entries.len() - i,
    {
        let ghost before = picked@;
        if is_expired(&entries[i], now) {
            picked.push(i);
            proof {
                assert(picked@[before.len() as int] == i);
                assert forall|k: int| 0 <= k < i + 1 && expired(
                    #[trigger] entries@[k],
                    now,
                ) implies exists|a: int| 0 <= a < picked@.len() && #[trigger] picked@[a] == k by {
                    if k < i {
                        let a = choose|a: int| 0 <= a < before.len() && #[trigger] before[a] == k;
                        assert(picked@[a] == k);
                    } else {
                        assert(picked@[before.len() as int] == k);
                    }
                }
            }
        }
        i = i + 1;
    }
    picked
}

/// What a conversion does once the new encoding is known.
#[derive(Debug, Clone, PartialEq, Eq)]
pub enum ConvertStep {
    /// The file at the target is no larger than the new encoding: it stays,
    /// and this is the report.
    Keep(ImageOptimizeResult),
    /// The new encoding is to be written to the target.
    Write,
}

/// Whether a conversion leaves the target as it is: a file is there, and the
/// new encoding is not smaller.
pub open spec fn convert_keeps(encoded: usize, target: Option<usize>) -> bool {
    target is Some && encoded >= target->0
}

/// Decides a conversion. `encoded` is the length of the new encoding and
/// `target` the size of the file that already stands at the target, if one
/// does.
pub fn image_convert(encoded: usize, width: u32, height: u32, target: Option<usize>) -> (step:
    ConvertStep)
    ensures
        convert_keeps(encoded, target) ==> step is Keep && ({
            let r = step->Keep_0;
            &&& r.diff == 0
            &&& r.hash@.len() == 0
            &&& r.original_size == target->0
            &&& r.size == target->0
            &&& r.width == width
            &&& r.height == height
            &&& r.optim_count == 0
        }),
        !convert_keeps(encoded, target) ==> step is Write,
{
    match target {
        Some(len) => {
            if encoded >= len {
                return ConvertStep::Keep(
                    ImageOptimizeResult {
                        diff: 0,
                        hash: String::new(),
                        original_size: len,
                        size: len,
                        width,
                        height,
                        optim_count: 0,
                    },
                );
            }
        },
        None => {},
    }
    ConvertStep::Write
}

/// The report of a conversion that was written: the new encoding's length
/// and difference against the size of the source.
pub fn converted(encoded: usize, diff: i64, width: u32, height: u32, source_size: usize) -> (r:
    ImageOptimizeResult)
    ensures
        r.diff == diff,
        r.hash@.len() == 0,
        r.original_size == source_size,
        r.size == encoded,
        r.width == width,
        r.height == height,
        r.optim_count == 0,
{
    ImageOptimizeResult {
        diff,
        hash: String::new(),
        original_size: source_size,
        size: encoded,
        width,
        height,
        optim_count: 0,
    }
}

} // verus!
