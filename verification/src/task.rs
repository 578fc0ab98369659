//! One task: a source file and a format to turn it into, its lifecycle,
//! what a finished encoding does to it, and the row that shows it.

use crate::paths::{path_extension, text_or_empty};
use crate::text::{decimal, four_digits, is_infix, signed_decimal};
use vstd::prelude::*;

verus! {

/// The lifecycle of one task: `Pending`, then `Processing` once a worker has
/// claimed it, then `Done` or `Failed` for good.
#[derive(Clone, Copy, Debug, PartialEq, Eq, Structural)]
pub enum Status {
    Pending,
    Processing,
    Done,
    Failed,
}

impl Status {
    /// Whether the task has reached a state it never leaves.
    pub open spec fn terminal(self) -> bool {
        self is Done || self is Failed
    }

    /// The number under which the status is published.
    pub open spec fn code_of(self) -> int {
        match self {
            Status::Pending => 0,
            Status::Processing => 1,
            Status::Done => 2,
            Status::Failed => -1,
        }
    }

    /// Whether the task has reached a state it never leaves.
    pub fn is_terminal(&self) -> (r: bool)
        ensures
            r == self.terminal(),
    {
        match self {
            Status::Done | Status::Failed => true,
            _ => false,
        }
    }

    /// The number under which the status is published.
    pub fn code(&self) -> (c: i8)
        ensures
            c == self.code_of(),
    {
        match self {
            Status::Pending => 0,
            Status::Processing => 1,
            Status::Done => 2,
            Status::Failed => -1,
        }
    }
}

/// A format that a task can be encoded into.
#[derive(Clone, Copy, Debug, PartialEq, Eq, Structural)]
pub enum Format {
    Avif,
    Webp,
    Png,
    Jpeg,
}

impl Format {
    /// The file extension of the format.
    pub open spec fn ext(self) -> Seq<char> {
        match self {
            Format::Avif => "avif"@,
            Format::Webp => "webp"@,
            Format::Png => "png"@,
            Format::Jpeg => "jpeg"@,
        }
    }

    /// The format that goes by the name `name`, if one does; names are
    /// matched exactly.
    pub open spec fn named(name: Seq<char>) -> Option<Format> {
        if name == "avif"@ {
            Some(Format::Avif)
        } else if name == "webp"@ {
            Some(Format::Webp)
        } else if name == "png"@ {
            Some(Format::Png)
        } else if name == "jpeg"@ {
            Some(Format::Jpeg)
        } else {
            None
        }
    }

    /// The format that goes by the name `name`, if one does.
    pub fn from_name(name: &str) -> (f: Option<Format>)
        ensures
            f == Self::named(name@),
    {
        if crate::text::str_eq(name, "avif") {
            Some(Format::Avif)
        } else if crate::text::str_eq(name, "webp") {
            Some(Format::Webp)
        } else if crate::text::str_eq(name, "png") {
            Some(Format::Png)
        } else if crate::text::str_eq(name, "jpeg") {
            Some(Format::Jpeg)
        } else {
            None
        }
    }

    /// The file extension of the format.
    pub fn extension(&self) -> (e: &'static str)
        ensures
            e@ == self.ext(),
    {
        match self {
            Format::Avif => "avif",
            Format::Webp => "webp",
            Format::Png => "png",
            Format::Jpeg => "jpeg",
        }
    }
}

/// The format that a task of the given display name is encoded into: the
/// first of `.avif`, `.webp` and `.png` that occurs in the name, else JPEG.
pub open spec fn format_of_name(name: Seq<char>) -> Format {
    if is_infix(".avif"@, name) {
        Format::Avif
    } else if is_infix(".webp"@, name) {
        Format::Webp
    } else if is_infix(".png"@, name) {
        Format::Png
    } else {
        Format::Jpeg
    }
}

/// The decoder hint for a source whose path has the given extension: the
/// extension itself, or `jpeg` where the path has none.
pub open spec fn hint_of(ext: Option<Seq<char>>) -> Seq<char> {
    if text_or_empty(ext).len() == 0 {
        "jpeg"@
    } else {
        text_or_empty(ext)
    }
}

/// The quality setting of every output format; 0 switches a format off.
#[derive(Clone, Copy, Debug, PartialEq, Eq, Structural)]
pub struct OptimParams {
    pub avif: u8,
    pub webp: u8,
    pub png: u8,
    pub jpeg: u8,
}

impl OptimParams {
    /// The quality configured for `format`.
    pub open spec fn quality_of(self, format: Format) -> u8 {
        match format {
            Format::Avif => self.avif,
            Format::Webp => self.webp,
            Format::Png => self.png,
            Format::Jpeg => self.jpeg,
        }
    }

    /// The quality configured for `format`.
    pub fn quality(&self, format: Format) -> (q: u8)
        ensures
            q == self.quality_of(format),
    {
        match format {
            Format::Avif => self.avif,
            Format::Webp => self.webp,
            Format::Png => self.png,
            Format::Jpeg => self.jpeg,
        }
    }
}

/// What a worker asks of the codecs for one task.
#[derive(Debug, Clone, PartialEq, Eq)]
pub struct OptimRequest {
    /// Index of the source bytes to decode.
    pub source: usize,
    /// The decoder hint: the extension of the source file.
    pub hint: String,
    /// The format to encode into.
    pub format: Format,
    /// The quality to encode at.
    pub quality: u8,
    /// The encoder speed, where the format has one.
    pub speed: u8,
}

/// One unit of work: a source file and one format to turn it into.
#[derive(Debug, Clone, PartialEq, Eq)]
pub struct ImageFile {
    pub status: Status,
    /// The name shown to the user: the file name of `file`.
    pub name: String,
    /// Index, in the batch's sources, of the bytes read from `original`.
    pub source: usize,
    /// The file that was read.
    pub original: String,
    /// The file that will be written.
    pub file: String,
    /// The size in bytes of the best result so far; the size of the
    /// original until the task is done.
    pub size: u64,
    /// Percent saved; negative where the result is larger.
    pub saving: i8,
    /// The perceptual difference in ten-thousandths; negative while unknown.
    pub diff: i64,
    /// The content hash under which the source was backed up; empty until a
    /// backup is in place.
    pub hash: String,
}

/// How many ten-thousandths make a whole unit of difference.
pub const DIFF_SCALE: i64 = 10000;

/// Whether the file already at the destination is kept: it exists and the
/// new encoding is not smaller than it.
pub open spec fn keeps_existing(encoded: u64, dest: Option<u64>) -> bool {
    dest is Some && encoded >= dest->0
}

/// The size that the task reports: that of the kept file, or that of the new
/// encoding.
pub open spec fn settled_size(encoded: u64, dest: Option<u64>) -> u64 {
    if keeps_existing(encoded, dest) {
        dest->0
    } else {
        encoded
    }
}

/// The percentage by which `current` undercuts `size`, rounded down; the
/// negated percentage by which it exceeds it, where it does.
pub open spec fn saving_percent(current: int, size: int) -> int
    recommends
        size > 0,
{
    if current > size {
        -((current - size) * 100 / size)
    } else {
        100 - current * 100 / size
    }
}

/// The saving as a task holds it, in eight bits: the percentage, held at
/// -128 where the result is more than 128 percent larger.
pub open spec fn saving_value(current: int, size: int) -> int
    recommends
        size > 0,
{
    if saving_percent(current, size) < -128 {
        -128
    } else {
        saving_percent(current, size)
    }
}

/// Whether a settled task is left without a result to show: nothing was
/// saved and source and destination are one file.
pub open spec fn no_gain(saving: int, original: Seq<char>, file: Seq<char>) -> bool {
    saving == 0 && original == file
}

/// The saving of `current` against `size`, as a task holds it.
pub fn saving_of(current: u64, size: u64) -> (saving: i8)
    requires
        size > 0,
    ensures
        saving == saving_value(current as int, size as int),
        current > size ==> saving <= 0,
        current <= size ==> 0 <= saving <= 100,
{
    if current > size {
        let q: u128 = (current - size) as u128 * 100 / (size as u128);
        if q > 128 {
            -128
        } else {
            (-(q as i16)) as i8
        }
    } else {
        let q: u128 = current as u128 * 100 / (size as u128);
        assert(q <= 100) by (nonlinear_arith)
            requires
                q == (current * 100) / (size as int),
                current <= size,
                size > 0,
        ;
        (100 - q) as i8
    }
}

impl ImageFile {
    /// The request that a worker hands to the codecs on behalf of the task.
    pub fn plan(&self, params: &OptimParams) -> (req: OptimRequest)
        ensures
            req.source == self.source,
            req.hint@ == hint_of(path_extension(self.original@)),
            req.format == format_of_name(self.name@),
            req.quality == params.quality_of(req.format),
            req.speed == 1,
    {
        let mut hint = crate::paths::extension_or_empty(self.original.as_str());
        if hint.as_str().unicode_len() == 0 {
            hint = "jpeg".to_owned();
        }
        let format = if crate::text::contains(self.name.as_str(), ".avif") {
            Format::Avif
        } else if crate::text::contains(self.name.as_str(), ".webp") {
            Format::Webp
        } else if crate::text::contains(self.name.as_str(), ".png") {
            Format::Png
        } else {
            Format::Jpeg
        };
        OptimRequest {
            source: self.source,
            hint,
            format,
            quality: params.quality(format),
            speed: 1,
        }
    }

    /// Records what one encoding achieved. `encoded` is the length of the new
    /// encoding, `diff` its perceptual difference in ten-thousandths, and
    /// `dest` the size of the file that already stands at the destination,
    /// if one does. The result says whether the new encoding is to be
    /// written there.
    pub fn settle(&mut self, encoded: u64, diff: i64, dest: Option<u64>) -> (write: bool)
        requires
            old(self).size > 0,
        ensures
            final(self).status == old(self).status,
            final(self).name == old(self).name,
            final(self).source == old(self).source,
            final(self).original == old(self).original,
            final(self).file == old(self).file,
            final(self).hash == old(self).hash,
            final(self).size == settled_size(encoded, dest),
            final(self).saving == saving_value(
                settled_size(encoded, dest) as int,
                old(self).size as int,
            ),
            final(self).diff == if no_gain(
                final(self).saving as int,
                old(self).original@,
                old(self).file@,
            ) {
                0
            } else {
                diff
            },
            write == (!keeps_existing(encoded, dest) && !no_gain(
                final(self).saving as int,
                old(self).original@,
                old(self).file@,
            )),
    {
        let mut current = encoded;
        let mut kept = false;
        match dest {
            Some(len) => {
                if current >= len {
                    kept = true;
                    current = len;
                }
            },
            None => {},
        }
        let saving = saving_of(current, self.size);
        self.size = current;
        self.saving = saving;
        if saving == 0 && crate::text::str_eq(self.original.as_str(), self.file.as_str()) {
            self.diff = 0;
            return false;
        }
        self.diff = diff;
        !kept
    }
}

/// What the size formatter of the `bytesize` crate prints for `size`.
pub uninterp spec fn byte_size_text(size: u64) -> Seq<char>;

/// Formats `size` for people by the `Display` of `bytesize::ByteSize`, which
/// picks a binary unit and prints one decimal. The text depends on `size`
/// alone; `byte_size_text` is the name for it.
#[verifier::external_body]
pub(crate) fn size_text(size: u64) -> (s: String)
    ensures
        s@ == byte_size_text(size),
{
    bytesize::ByteSize(size).to_string()
}

/// The marker of a row by its position: rows alternate, starting with `even`.
pub open spec fn parity(index: int) -> Seq<char> {
    if index % 2 == 0 {
        "even"@
    } else {
        "odd"@
    }
}

/// The glyph that shows a status.
pub open spec fn status_glyph(status: Status) -> Seq<char> {
    match status {
        Status::Pending => ""@,
        Status::Processing => "..."@,
        Status::Failed => "\u{2717}"@,
        Status::Done => "\u{2713}"@,
    }
}

/// The saving column: the percentage of a finished task, blank otherwise.
pub open spec fn saving_text(status: Status, saving: i8) -> Seq<char> {
    if status is Done {
        signed_decimal(saving as int) + "%"@
    } else {
        Seq::empty()
    }
}

/// The difference column: blank while the difference is unknown, else the
/// difference with five decimals.
pub open spec fn diff_text(diff: i64) -> Seq<char> {
    if diff < 0 {
        Seq::empty()
    } else {
        decimal((diff / DIFF_SCALE) as nat) + "."@ + four_digits((diff % DIFF_SCALE) as nat) + "0"@
    }
}

/// Renders the saving column.
pub fn render_saving(status: Status, saving: i8) -> (out: String)
    ensures
        out@ == saving_text(status, saving),
{
    let mut out = String::new();
    match status {
        Status::Done => {
            if saving < 0 {
                out.append("-");
                proof {
                    reveal_strlit("-");
                }
                crate::text::push_decimal(&mut out, (-(saving as i16)) as u64);
            } else {
                crate::text::push_decimal(&mut out, saving as u64);
            }
            out.append("%");
            assert(out@ =~= saving_text(status, saving));
        },
        _ => {},
    }
    out
}

/// Renders the difference column.
pub fn render_diff(diff: i64) -> (out: String)
    ensures
        out@ == diff_text(diff),
{
    let mut out = String::new();
    if diff >= 0 {
        crate::text::push_decimal(&mut out, (diff / DIFF_SCALE) as u64);
        out.append(".");
        crate::text::push_four_digits(&mut out, (diff % DIFF_SCALE) as u64);
        out.append("0");
        assert(out@ =~= diff_text(diff));
    }
    out
}

impl ImageFile {
    /// The six columns of the task's row: parity marker, status glyph, name,
    /// size, saving and difference.
    pub fn values(&self, index: usize) -> (row: Vec<String>)
        ensures
            row@.len() == 6,
            row@[0]@ == parity(index as int),
            row@[1]@ == status_glyph(self.status),
            row@[2]@ == self.name@,
            row@[3]@ == byte_size_text(self.size),
            row@[4]@ == saving_text(self.status, self.saving),
            row@[5]@ == diff_text(self.diff),
    {
        let status_str = match self.status {
            Status::Pending => "",
            Status::Processing => "...",
            Status::Failed => "\u{2717}",
            Status::Done => "\u{2713}",
        };
        let index_str = if index % 2 == 0 {
            "even"
        } else {
            "odd"
        };
        let mut row: Vec<String> = Vec::new();
        row.push(index_str.to_owned());
        row.push(status_str.to_owned());
        row.push(self.name.clone());
        row.push(size_text(self.size));
        row.push(render_saving(self.status, self.saving));
        row.push(render_diff(self.diff));
        row
    }

    /// Whether the source has to be backed up before the write that
    /// `settle` asked for: exactly where a write is due and it goes to the
    /// file that the task was read from.
    pub fn backup_due(&self, write: bool) -> (due: bool)
        ensures
            due == (write && self.original@ == self.file@),
    {
        write && crate::text::str_eq(self.original.as_str(), self.file.as_str())
    }

    /// Notes the hash under which the source was backed up; an empty hash
    /// says that no backup is in place.
    pub fn record_backup(&mut self, hash: String)
        ensures
            *final(self) == (ImageFile { hash, ..*old(self) }),
    {
        self.hash = hash;
    }

    /// A worker claims the task: a pending task starts processing. Any other
    /// task is left as it is, and the answer is `false`.
    pub fn claim(&mut self) -> (claimed: bool)
        ensures
            claimed == (old(self).status is Pending),
            claimed ==> *final(self) == (ImageFile { status: Status::Processing, ..*old(self) }),
            !claimed ==> *final(self) == *old(self),
    {
        match self.status {
            Status::Pending => {
                self.status = Status::Processing;
                true
            },
            _ => false,
        }
    }

    /// The worker is through with the task: a task in processing ends as
    /// `Done` where `ok`, as `Failed` otherwise. Any other task is left as it
    /// is, and the answer is `false`.
    pub fn complete(&mut self, ok: bool) -> (ended: bool)
        ensures
            ended == (old(self).status is Processing),
            ended ==> *final(self) == (ImageFile {
                status: if ok {
                    Status::Done
                } else {
                    Status::Failed
                },
                ..*old(self)
            }),
            !ended ==> *final(self) == *old(self),
    {
        match self.status {
            Status::Processing => {
                self.status = if ok {
                    Status::Done
                } else {
                    Status::Failed
                };
                true
            },
            _ => false,
        }
    }
}

} // verus!
