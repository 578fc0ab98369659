//! The session: the settings, the batch in flight, and what the workers and
//! the observer do to it.

use crate::image_processing::ImageError;
use crate::paths::path_extension;
use crate::task::{
    byte_size_text, diff_text, format_of_name, hint_of, keeps_existing, no_gain, parity,
    saving_text, saving_value, settled_size, status_glyph,
};
use std::sync::Arc;
use vstd::prelude::*;

pub use crate::batch::{
    formats_usable, load_images, split_picked, tasks_match, texts, PickedPath, SourceFile,
};
pub use crate::task::{
    render_diff, render_saving, saving_of, Format, ImageFile, OptimParams, OptimRequest, Status,
    DIFF_SCALE,
};

verus! {

/// What can go wrong while a batch is built or run.
#[derive(Debug, Clone, PartialEq, Eq)]
pub enum Error {
    /// A folder could not be enumerated: the pattern was refused.
    Pattern { message: String },
    /// Reading or writing a file failed.
    Io { message: String },
    /// The session lock could not be taken.
    Lock { message: String },
    /// The session was used before it was created.
    Init,
    /// A codec step failed.
    ImageProcessing { source: ImageError },
}

impl Error {
    /// The human-readable text of the error.
    pub open spec fn text(&self) -> Seq<char> {
        match self {
            Error::Pattern { message } => "Glob: "@ + message@,
            Error::Io { message } => "Io: "@ + message@,
            Error::Lock { message } => "Lock fail: "@ + message@,
            Error::Init => "State is not initialized"@,
            Error::ImageProcessing { source } => "Image: "@ + source.text(),
        }
    }

    /// Renders the error as text.
    pub fn to_text(&self) -> (out: String)
        ensures
            out@ == self.text(),
    {
        match self {
            Error::Pattern { message } => {
                let mut out = "Glob: ".to_owned();
                out.append(message.as_str());
                out
            },
            Error::Io { message } => {
                let mut out = "Io: ".to_owned();
                out.append(message.as_str());
                out
            },
            Error::Lock { message } => {
                let mut out = "Lock fail: ".to_owned();
                out.append(message.as_str());
                out
            },
            Error::Init => "State is not initialized".to_owned(),
            Error::ImageProcessing { source } => {
                let mut out = "Image: ".to_owned();
                let inner = source.to_text();
                out.append(inner.as_str());
                out
            },
        }
    }
}

impl From<ImageError> for Error {
    fn from(value: ImageError) -> (e: Error) {
        Error::ImageProcessing { source: value }
    }
}

impl vstd::std_specs::convert::FromSpecImpl<ImageError> for Error {
    open spec fn obeys_from_spec() -> bool {
        true
    }

    open spec fn from_spec(value: ImageError) -> Error {
        Error::ImageProcessing { source: value }
    }
}

/// The extensions of the source files that a selection takes: `jpeg` and
/// `jpg` where JPEG is on, `png` where PNG is on, then each output format
/// that is on.
pub open spec fn enabled_extensions(jpeg: u8, png: u8, avif: u8, webp: u8) -> Seq<Seq<char>> {
    (if jpeg > 0 {
        seq!["jpeg"@, "jpg"@]
    } else {
        Seq::empty()
    }) + (if png > 0 {
        seq!["png"@]
    } else {
        Seq::empty()
    }) + enabled_formats(avif, webp)
}

/// The formats that every source is converted into: `avif` and `webp`, each
/// where its quality is above 0.
pub open spec fn enabled_formats(avif: u8, webp: u8) -> Seq<Seq<char>> {
    (if avif > 0 {
        seq!["avif"@]
    } else {
        Seq::empty()
    }) + (if webp > 0 {
        seq!["webp"@]
    } else {
        Seq::empty()
    })
}

/// The session: the settings, the batch in flight and whether one is.
#[derive(Debug, Clone, PartialEq, Eq)]
pub struct State {
    /// Whether a batch is in flight.
    pub processing: bool,
    pub png_quality: u8,
    pub jpeg_quality: u8,
    pub avif_quality: u8,
    pub webp_quality: u8,
    /// The tasks of the current batch, in creation order.
    pub image_files: Vec<ImageFile>,
    /// The source files of the current batch; each task points into them.
    pub sources: Vec<SourceFile>,
}

/// The quality that PNG, JPEG and WebP start with.
pub const DEFAULT_QUALITY: u8 = 80;

/// The quality that AVIF starts with.
pub const DEFAULT_AVIF_QUALITY: u8 = 70;

/// A new session: nothing in flight, no batch, default qualities.
pub fn must_new_state() -> (state: State)
    ensures
        !state.processing,
        state.png_quality == DEFAULT_QUALITY,
        state.jpeg_quality == DEFAULT_QUALITY,
        state.webp_quality == DEFAULT_QUALITY,
        state.avif_quality == DEFAULT_AVIF_QUALITY,
        state.image_files@.len() == 0,
        state.sources@.len() == 0,
        state.wf(),
{
    State {
        processing: false,
        png_quality: DEFAULT_QUALITY,
        jpeg_quality: DEFAULT_QUALITY,
        avif_quality: DEFAULT_AVIF_QUALITY,
        webp_quality: DEFAULT_QUALITY,
        image_files: Vec::new(),
        sources: Vec::new(),
    }
}

/// Access to the session: the session itself once it exists, the
/// not-initialized error before.
pub fn lock(session: &mut Option<State>) -> (r: Result<&mut State, Error>)
    ensures
        match *old(session) {
            Some(state) => r is Ok && *r->Ok_0 == state && *final(session) == Some(
                *final(r->Ok_0),
            ),
            None => r is Err && r->Err_0 == Error::Init && *final(session) == *old(session),
        },
{
    match session {
        Some(state) => Ok(state),
        None => Err(Error::Init),
    }
}

impl State {
    /// Every task points at a source of the batch.
    pub open spec fn wf(&self) -> bool {
        forall|k: int|
            0 <= k < self.image_files@.len() ==> (#[trigger] self.image_files@[k]).source
                < self.sources@.len()
    }

    /// The settings as the workers take them.
    pub open spec fn params_of(&self) -> OptimParams {
        OptimParams {
            avif: self.avif_quality,
            webp: self.webp_quality,
            png: self.png_quality,
            jpeg: self.jpeg_quality,
        }
    }

    /// The settings as the workers take them.
    pub fn params(&self) -> (p: OptimParams)
        ensures
            p == self.params_of(),
    {
        OptimParams {
            avif: self.avif_quality,
            webp: self.webp_quality,
            png: self.png_quality,
            jpeg: self.jpeg_quality,
        }
    }

    /// The headings of the table.
    pub fn get_columns() -> (columns: Vec<String>)
        ensures
            texts(columns@) == seq!["Device"@, "Mount Point"@, "Total"@, "Free"@],
    {
        let mut columns: Vec<String> = Vec::new();
        columns.push("Device".to_owned());
        columns.push("Mount Point".to_owned());
        columns.push("Total".to_owned());
        columns.push("Free".to_owned());
        assert(texts(columns@) =~= seq!["Device"@, "Mount Point"@, "Total"@, "Free"@]);
        columns
    }

    /// The number of tasks in the batch.
    pub fn count(&self) -> (n: usize)
        ensures
            n == self.image_files@.len(),
    {
        self.image_files.len()
    }

    /// The rows of the table: one per task, in creation order.
    pub fn get_values(&self) -> (rows: Vec<Vec<String>>)
        ensures
            rows@.len() == self.image_files@.len(),
            forall|i: int|
                0 <= i < rows@.len() ==> {
                    let row = #[trigger] rows@[i];
                    let task = self.image_files@[i];
                    &&& row@.len() == 6
                    &&& row@[0]@ == parity(i)
                    &&& row@[1]@ == status_glyph(task.status)
                    &&& row@[2]@ == task.name@
                    &&& row@[3]@ == byte_size_text(task.size)
                    &&& row@[4]@ == saving_text(task.status, task.saving)
                    &&& row@[5]@ == diff_text(task.diff)
                },
    {
        let mut rows: Vec<Vec<String>> = Vec::new();
        let mut i: usize = 0;
        while i < self.image_files.len()
            invariant
                i <= self.image_files.len(),
                rows@.len() == i,
                forall|k: int|
                    0 <= k < i ==> {
                        let row = #[trigger] rows@[k];
                        let task = self.image_files@[k];
                        &&& row@.len() == 6
                        &&& row@[0]@ == parity(k)
                        &&& row@[1]@ == status_glyph(task.status)
                        &&& row@[2]@ == task.name@
                        &&& row@[3]@ == byte_size_text(task.size)
                        &&& row@[4]@ == saving_text(task.status, task.saving)
                        &&& row@[5]@ == diff_text(task.diff)
                    },
            decreases self.image_files.len() - i,
        {
            rows.push(self.image_files[i].values(i));
            i = i + 1;
        }
        rows
    }

    /// The extensions of the source files that a selection takes.
    pub fn extension_filter(&self) -> (exts: Vec<String>)
        ensures
            texts(exts@) == enabled_extensions(
                self.jpeg_quality,
                self.png_quality,
                self.avif_quality,
                self.webp_quality,
            ),
    {
        let mut exts: Vec<String> = Vec::new();
        if self.jpeg_quality > 0 {
            exts.push("jpeg".to_owned());
            exts.push("jpg".to_owned());
        }
        if self.png_quality > 0 {
            exts.push("png".to_owned());
        }
        if self.avif_quality > 0 {
            exts.push("avif".to_owned());
        }
        if self.webp_quality > 0 {
            exts.push("webp".to_owned());
        }
        assert(texts(exts@) =~= enabled_extensions(
            self.jpeg_quality,
            self.png_quality,
            self.avif_quality,
            self.webp_quality,
        ));
        exts
    }

    /// The formats that every source of a new batch is converted into.
    pub fn output_formats(&self) -> (formats: Vec<String>)
        ensures
            texts(formats@) == enabled_formats(self.avif_quality, self.webp_quality),
            formats_usable(formats@),
    {
        let mut formats: Vec<String> = Vec::new();
        proof {
            reveal_strlit("avif");
            reveal_strlit("webp");
        }
        if self.avif_quality > 0 {
            formats.push("avif".to_owned());
        }
        if self.webp_quality > 0 {
            formats.push("webp".to_owned());
        }
        assert(texts(formats@) =~= enabled_formats(self.avif_quality, self.webp_quality));
        formats
    }

    /// Starts a batch. `picked` is what came of the selection: `None` where
    /// nothing was selected, else the source files as read, or the error that
    /// stopped the reading.
    ///
    /// While a batch is in flight, and where nothing was selected, the
    /// session stays as it is and the answer is `false`. An error is handed
    /// on, with nothing in flight and the batch as it was. Otherwise the new
    /// batch replaces the old one, it is in flight, and the answer is `true`.
    pub fn select_files(&mut self, picked: Option<Result<Vec<SourceFile>, Error>>) -> (r: Result<
        bool,
        Error,
    >)
        ensures
            old(self).processing || picked is None ==> r == Ok::<bool, Error>(false) && *final(self)
                == *old(self),
            !old(self).processing && picked is Some ==> match picked->0 {
                Err(e) => r == Err::<bool, Error>(e) && *final(self) == (State {
                    processing: false,
                    ..*old(self)
                }),
                Ok(sources) => {
                    &&& r == Ok::<bool, Error>(true)
                    &&& final(self).processing
                    &&& final(self).sources == sources
                    &&& tasks_match(
                        final(self).image_files@,
                        sources@,
                        enabled_formats(old(self).avif_quality, old(self).webp_quality),
                    )
                    &&& final(self).params_of() == old(self).params_of()
                    &&& final(self).wf()
                },
            },
    {
        if self.processing {
            return Ok(false);
        }
        match picked {
            None => Ok(false),
            Some(Err(e)) => {
                self.processing = false;
                Err(e)
            },
            Some(Ok(sources)) => {
                self.processing = true;
                let formats = self.output_formats();
                let tasks = load_images(&sources, &formats);
                proof {
                    let w: int = formats@.len() as int + 1;
                    assert forall|k: int| 0 <= k < tasks@.len() implies (#[trigger] tasks@[k]).source
                        < sources@.len() by {
                        assert(0 <= k / w < sources@.len()) by (nonlinear_arith)
                            requires
                                0 <= k < sources@.len() * w,
                                w > 0,
                        ;
                    }
                }
                self.image_files = tasks;
                self.sources = sources;
                Ok(true)
            },
        }
    }

    /// The progress value that announces a batch before any task has run.
    pub fn progress_start() -> (count: i64)
        ensures
            count == 0,
    {
        0
    }

    /// Takes note of a progress value. The batch is no longer in flight once
    /// the value equals the number of tasks; the answer says whether it does.
    pub fn on_progress(&mut self, count: i64) -> (finished: bool)
        ensures
            finished == (count == old(self).image_files@.len()),
            *final(self) == (State {
                processing: old(self).processing && !finished,
                ..*old(self)
            }),
    {
        if count >= 0 && count as u64 == self.image_files.len() as u64 {
            self.processing = false;
            true
        } else {
            false
        }
    }
}

/// The completion count that is published once the task at `index` is
/// through: the 1-based position of the task, as far as the channel's
/// number can say it.
pub open spec fn completion_count(index: int) -> int {
    if index + 1 <= i64::MAX {
        index + 1
    } else {
        i64::MAX as int
    }
}

/// Completion counts rise with the position of the task, and the count of
/// the last task of a batch is the size of the batch.
pub proof fn lemma_counts_rise(earlier: int, later: int, size: int)
    requires
        0 <= earlier < later < size <= i64::MAX,
    ensures
        completion_count(earlier) < completion_count(later),
        completion_count(size - 1) == size,
{
}

impl State {
    /// The bytes of source number `index`, shared, not copied.
    pub fn source_data(&self, index: usize) -> (data: &Arc<Vec<u8>>)
        requires
            index < self.sources@.len(),
        ensures
            *data == self.sources@[index as int].data,
    {
        &self.sources[index].data
    }

    /// Whether every task points at a source of the batch.
    pub fn is_wf(&self) -> (ok: bool)
        ensures
            ok == self.wf(),
    {
        let mut i: usize = 0;
        while i < self.image_files.len()
            invariant
                i <= self.image_files.len(),
                forall|k: int|
                    0 <= k < i ==> (#[trigger] self.image_files@[k]).source < self.sources@.len(),
            decreases self.image_files.len() - i,
        {
            if self.image_files[i].source >= self.sources.len() {
                return false;
            }
            i = i + 1;
        }
        true
    }

    /// A worker claims the task at `index` and learns what to ask of the
    /// codecs. `None`, with the session unchanged, where there is no such
    /// task or it is not pending.
    pub fn start_task(&mut self, index: usize) -> (req: Option<OptimRequest>)
        requires
            old(self).wf(),
        ensures
            final(self).wf(),
            req is Some <==> index < old(self).image_files@.len() && old(
                self,
            ).image_files@[index as int].status is Pending,
            req is None ==> *final(self) == *old(self),
            req is Some ==> {
                let task = old(self).image_files@[index as int];
                let r = req->0;
                &&& *final(self) == (State {
                    image_files: final(self).image_files,
                    ..*old(self)
                })
                &&& final(self).image_files@ == old(self).image_files@.update(
                    index as int,
                    ImageFile { status: Status::Processing, ..task },
                )
                &&& r.source == task.source
                &&& r.source < final(self).sources@.len()
                &&& r.hint@ == hint_of(path_extension(task.original@))
                &&& r.format == format_of_name(task.name@)
                &&& r.quality == old(self).params_of().quality_of(r.format)
                &&& r.speed == 1
            },
    {
        if index >= self.image_files.len() {
            return None;
        }
        match self.image_files[index].status {
            Status::Pending => {},
            _ => {
                return None;
            },
        }
        let params = self.params();
        let task = &mut self.image_files[index];
        let _ = task.claim();
        Some(task.plan(&params))
    }

    /// Records what the encoding of the task at `index` achieved; see
    /// `ImageFile::settle`. The answer says whether the new encoding is to be
    /// written to the task's destination.
    pub fn settle_task(&mut self, index: usize, encoded: u64, diff: i64, dest: Option<u64>) -> (write:
        bool)
        requires
            old(self).wf(),
            index < old(self).image_files@.len(),
            old(self).image_files@[index as int].size > 0,
        ensures
            final(self).wf(),
            *final(self) == (State { image_files: final(self).image_files, ..*old(self) }),
            final(self).image_files@.len() == old(self).image_files@.len(),
            forall|k: int|
                0 <= k < old(self).image_files@.len() && k != index ==> final(self).image_files@[k]
                    == old(self).image_files@[k],
            ({
                let before = old(self).image_files@[index as int];
                let after = final(self).image_files@[index as int];
                let idle = no_gain(after.saving as int, before.original@, before.file@);
                &&& after.status == before.status
                &&& after.name == before.name
                &&& after.source == before.source
                &&& after.original == before.original
                &&& after.file == before.file
                &&& after.hash == before.hash
                &&& after.size == settled_size(encoded, dest)
                &&& after.saving == saving_value(
                    settled_size(encoded, dest) as int,
                    before.size as int,
                )
                &&& after.diff == if idle {
                    0
                } else {
                    diff
                }
                &&& write == (!keeps_existing(encoded, dest) && !idle)
            }),
    {
        let task = &mut self.image_files[index];
        task.settle(encoded, diff, dest)
    }

    /// Whether the source of the task at `index` has to be backed up before
    /// the write that `settle_task` asked for: exactly where a write is due
    /// and it goes to the file that the task was read from.
    pub fn backup_due(&self, index: usize, write: bool) -> (due: bool)
        requires
            index < self.image_files@.len(),
        ensures
            due == (write && self.image_files@[index as int].original@
                == self.image_files@[index as int].file@),
    {
        self.image_files[index].backup_due(write)
    }

    /// Notes the hash under which the source of the task at `index` was
    /// backed up; an empty hash says that no backup is in place.
    pub fn record_backup(&mut self, index: usize, hash: String)
        requires
            old(self).wf(),
            index < old(self).image_files@.len(),
        ensures
            final(self).wf(),
            *final(self) == (State { image_files: final(self).image_files, ..*old(self) }),
            final(self).image_files@ == old(self).image_files@.update(
                index as int,
                ImageFile { hash, ..old(self).image_files@[index as int] },
            ),
    {
        let task = &mut self.image_files[index];
        task.record_backup(hash);
    }

    /// The worker is through with the task at `index`: a task in processing
    /// ends as `Done` where `ok` and as `Failed` otherwise, any other task
    /// stays as it is. The answer is the completion count to publish.
    pub fn finish_task(&mut self, index: usize, ok: bool) -> (count: i64)
        requires
            old(self).wf(),
            index < old(self).image_files@.len(),
        ensures
            final(self).wf(),
            count == completion_count(index as int),
            *final(self) == (State { image_files: final(self).image_files, ..*old(self) }),
            final(self).image_files@ == old(self).image_files@.update(
                index as int,
                ImageFile {
                    status: if old(self).image_files@[index as int].status is Processing {
                        if ok {
                            Status::Done
                        } else {
                            Status::Failed
                        }
                    } else {
                        old(self).image_files@[index as int].status
                    },
                    ..old(self).image_files@[index as int]
                },
            ),
    {
        let task = &mut self.image_files[index];
        let _ = task.complete(ok);
        if (index as u64) < i64::MAX as u64 {
            index as i64 + 1
        } else {
            i64::MAX
        }
    }
}

} // verus!
