//! Building a batch: which of the picked paths are taken, and the tasks
//! that come of the files that were read.

use crate::paths::{
    path_extension, path_file_name, path_with_extension, separator_free, text_or_empty,
};
use crate::task::{ImageFile, Status};
use crate::text::list_has;
use std::sync::Arc;
use vstd::arithmetic::div_mod::lemma_fundamental_div_mod_converse;
use vstd::prelude::*;

verus! {

/// A path that the user picked, with what the file system says of it.
#[derive(Debug, Clone, PartialEq, Eq)]
pub struct PickedPath {
    pub path: String,
    pub is_dir: bool,
}

/// A source file as it was read: its path, the size that the file system
/// reports for it, and its bytes. The bytes are read once and shared by
/// every task that is derived from the file.
#[derive(Debug, Clone, PartialEq, Eq)]
pub struct SourceFile {
    pub path: String,
    pub len: u64,
    pub data: Arc<Vec<u8>>,
}

/// The texts of a list of strings.
pub open spec fn texts(list: Seq<String>) -> Seq<Seq<char>> {
    list.map_values(|s: String| s@)
}

/// The picked directories, in the order in which they were picked.
pub open spec fn picked_dirs(picked: Seq<PickedPath>) -> Seq<Seq<char>>
    decreases picked.len(),
{
    if picked.len() == 0 {
        Seq::empty()
    } else if picked.last().is_dir {
        picked_dirs(picked.drop_last()).push(picked.last().path@)
    } else {
        picked_dirs(picked.drop_last())
    }
}

/// Whether a picked path is a file whose extension is in the allow-list;
/// the match is exact and case-sensitive.
pub open spec fn wanted(p: PickedPath, exts: Seq<String>) -> bool {
    !p.is_dir && list_has(exts, text_or_empty(path_extension(p.path@)))
}

/// The picked files that pass the allow-list, in the order in which they
/// were picked.
pub open spec fn picked_files(picked: Seq<PickedPath>, exts: Seq<String>) -> Seq<Seq<char>>
    decreases picked.len(),
{
    if picked.len() == 0 {
        Seq::empty()
    } else if wanted(picked.last(), exts) {
        picked_files(picked.drop_last(), exts).push(picked.last().path@)
    } else {
        picked_files(picked.drop_last(), exts)
    }
}

/// Sorts what the user picked into the directories to search and the files
/// to take as they are.
pub fn split_picked(picked: &Vec<PickedPath>, ext_list: &Vec<String>) -> (out: (
    Vec<String>,
    Vec<String>,
))
    ensures
        texts(out.0@) == picked_dirs(picked@),
        texts(out.1@) == picked_files(picked@, ext_list@),
{
    let mut dirs: Vec<String> = Vec::new();
    let mut files: Vec<String> = Vec::new();
    let mut i: usize = 0;
    assert(texts(dirs@) =~= picked_dirs(picked@.take(0)));
    assert(texts(files@) =~= picked_files(picked@.take(0), ext_list@));
    while i < picked.len()
        invariant
            i <= picked.len(),
            texts(dirs@) == picked_dirs(picked@.take(i as int)),
            texts(files@) == picked_files(picked@.take(i as int), ext_list@),
        decreases picked.len() - i,
    {
        let p = &picked[i];
        proof {
            assert(picked@.take(i + 1).drop_last() =~= picked@.take(i as int));
            assert(picked@.take(i + 1).last() == picked@[i as int]);
        }
        let ghost old_dirs = dirs@;
        let ghost old_files = files@;
        if p.is_dir {
            dirs.push(p.path.clone());
            assert(texts(dirs@) =~= texts(old_dirs).push(p.path@));
        } else {
            let ext = crate::paths::extension_or_empty(p.path.as_str());
            if crate::text::list_contains(ext_list, ext.as_str()) {
                files.push(p.path.clone());
                assert(texts(files@) =~= texts(old_files).push(p.path@));
            }
        }
        i = i + 1;
    }
    assert(picked@.take(picked@.len() as int) =~= picked@);
    (dirs, files)
}

/// Whether `t` is the fresh task that turns source number `index` into
/// `format`, or, without a format, re-optimizes it in place.
pub open spec fn task_matches(
    t: ImageFile,
    index: int,
    src: SourceFile,
    format: Option<Seq<char>>,
) -> bool {
    &&& t.status is Pending
    &&& t.source == index
    &&& t.original@ == src.path@
    &&& t.size == src.len
    &&& t.saving == 0
    &&& t.diff == -1
    &&& t.hash@.len() == 0
    &&& t.name@ == text_or_empty(path_file_name(t.file@))
    &&& t.file@ == match format {
        Some(f) => path_with_extension(src.path@, f),
        None => src.path@,
    }
}

/// The format of the task at position `slot` among the tasks of one source:
/// the output formats in order, then none for the source itself.
pub open spec fn slot_format(formats: Seq<Seq<char>>, slot: int) -> Option<Seq<char>> {
    if 0 <= slot < formats.len() {
        Some(formats[slot])
    } else {
        None
    }
}

/// Whether `tasks` is the batch built from `sources`: for every source, in
/// order, one task per output format and then one for the source itself.
pub open spec fn tasks_match(
    tasks: Seq<ImageFile>,
    sources: Seq<SourceFile>,
    formats: Seq<Seq<char>>,
) -> bool {
    let w: int = formats.len() as int + 1;
    &&& tasks.len() == sources.len() * w
    &&& forall|k: int|
        0 <= k < tasks.len() ==> task_matches(
            #[trigger] tasks[k],
            k / w,
            sources[k / w],
            slot_format(formats, k % w),
        )
}

/// Whether every format can stand as a file extension.
pub open spec fn formats_usable(formats: Seq<String>) -> bool {
    forall|j: int| 0 <= j < formats.len() ==> separator_free(#[trigger] formats[j]@)
}

/// Builds the batch from the sources that were read: for every source one
/// task per output format, then one task for the source itself.
pub fn load_images(sources: &Vec<SourceFile>, formats: &Vec<String>) -> (tasks: Vec<ImageFile>)
    requires
        formats_usable(formats@),
    ensures
        tasks_match(tasks@, sources@, texts(formats@)),
{
    let mut tasks: Vec<ImageFile> = Vec::new();
    let ghost fs = texts(formats@);
    let ghost w: int = formats@.len() as int + 1;
    let mut i: usize = 0;
    while i < sources.len()
        invariant
            formats_usable(formats@),
            fs == texts(formats@),
            w == formats@.len() + 1,
            i <= sources.len(),
            tasks@.len() == i * w,
            forall|k: int|
                0 <= k < tasks@.len() ==> task_matches(
                    #[trigger] tasks@[k],
                    k / w,
                    sources@[k / w],
                    slot_format(fs, k % w),
                ),
        decreases sources.len() - i,
    {
        let src = &sources[i];
        let mut j: usize = 0;
        while j < formats.len()
            invariant
                formats_usable(formats@),
                fs == texts(formats@),
                w == formats@.len() + 1,
                i < sources.len(),
                src == sources@[i as int],
                j <= formats.len(),
                tasks@.len() == i * w + j,
                forall|k: int|
                    0 <= k < tasks@.len() ==> task_matches(
                        #[trigger] tasks@[k],
                        k / w,
                        sources@[k / w],
                        slot_format(fs, k % w),
                    ),
            decreases formats.len() - j,
        {
            let file = crate::paths::with_extension(src.path.as_str(), formats[j].as_str());
            let name = crate::paths::file_name_or_empty(file.as_str());
            proof {
                lemma_fundamental_div_mod_converse(i * w + j, w, i as int, j as int);
            }
            tasks.push(
                ImageFile {
                    status: Status::Pending,
                    name,
                    source: i,
                    original: src.path.clone(),
                    file,
                    size: src.len,
                    saving: 0,
                    diff: -1,
                    hash: String::new(),
                },
            );
            j = j + 1;
        }
        let name = crate::paths::file_name_or_empty(src.path.as_str());
        proof {
            lemma_fundamental_div_mod_converse(i * w + j, w, i as int, j as int);
            assert((i + 1) * w == i * w + w) by (nonlinear_arith);
        }
        tasks.push(
            ImageFile {
                status: Status::Pending,
                name,
                source: i,
                original: src.path.clone(),
                file: src.path.clone(),
                size: src.len,
                saving: 0,
                diff: -1,
                hash: String::new(),
            },
        );
        i = i + 1;
    }
    tasks
}

} // verus!
