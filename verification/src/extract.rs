//! Planning an extraction: what is to be written where, and the label that
//! the extraction reports.
//!
//! Nothing here touches the file system. A plan lists the steps in archive
//! order; the caller performs them and stops at the first that fails.
//! Entry paths are joined to the destination as they are: a path that starts
//! at the root or climbs with `..` is not held back.

use vstd::prelude::*;
use crate::entry::{entry_models, entry_paths, ArchiveEntry, EntryKind, EntryModel};
use crate::error::{ErrorModel, ExtractError};
use crate::format::ArchiveFormat;
use crate::paths::{join, lemma_separator_from, separator_from, spec_first_component, spec_join};
use crate::platform::Platform;
use crate::roots::{collect_roots, lemma_single_root_is_label, spec_root_label, spec_roots};
use crate::text::texts;
use crate::tararchive::{read_tar_paths, spec_tar_paths};
use crate::ziparchive::{read_zip_entries, spec_zip_entries};

verus! {

/// One step of an extraction.
#[derive(Clone, Debug, PartialEq, Eq)]
pub enum ExtractStep {
    /// Create the directory at `path`, with every missing parent.
    CreateDir { path: String },
    /// Create every missing parent of `path`, then the file at `path` with
    /// exactly these bytes.
    WriteFile { path: String, content: Vec<u8> },
    /// Unpack the whole TAR stream into the destination directory, through
    /// gzip where `gzip` is set, by the rules of the TAR reader itself.
    UnpackTar { gzip: bool },
}

/// A step as mathematics sees it.
pub enum StepModel {
    CreateDir { path: Seq<char> },
    WriteFile { path: Seq<char>, content: Seq<u8> },
    UnpackTar { gzip: bool },
}

impl View for ExtractStep {
    type V = StepModel;

    open spec fn view(&self) -> StepModel {
        match self {
            ExtractStep::CreateDir { path } => StepModel::CreateDir { path: path@ },
            ExtractStep::WriteFile { path, content } => StepModel::WriteFile {
                path: path@,
                content: content@,
            },
            ExtractStep::UnpackTar { gzip } => StepModel::UnpackTar { gzip: *gzip },
        }
    }
}

/// The steps of an extraction, in the order in which they are to be
/// performed, and the label to report once all of them went through.
#[derive(Clone, Debug, PartialEq, Eq)]
pub struct ExtractionPlan {
    pub steps: Vec<ExtractStep>,
    pub root_label: String,
}

/// A plan as mathematics sees it.
pub struct PlanModel {
    pub steps: Seq<StepModel>,
    pub root_label: Seq<char>,
}

impl View for ExtractionPlan {
    type V = PlanModel;

    open spec fn view(&self) -> PlanModel {
        PlanModel {
            steps: Seq::new(self.steps@.len(), |i: int| self.steps@[i]@),
            root_label: self.root_label@,
        }
    }
}

/// The step for one entry: its path joined to the destination, a directory
/// to create or a file to write with the entry's bytes.
pub open spec fn spec_step(p: Platform, dest_dir: Seq<char>, entry: EntryModel) -> StepModel {
    match entry.kind {
        EntryKind::Directory => StepModel::CreateDir { path: spec_join(p, dest_dir, entry.path) },
        EntryKind::File => StepModel::WriteFile {
            path: spec_join(p, dest_dir, entry.path),
            content: entry.content,
        },
    }
}

/// The plan for a list of entries: one step for each entry, in order, and
/// the label that the entries' first components decide.
pub open spec fn spec_plan(
    p: Platform,
    dest_dir: Seq<char>,
    entries: Seq<EntryModel>,
) -> PlanModel {
    PlanModel {
        steps: Seq::new(entries.len(), |i: int| spec_step(p, dest_dir, entries[i])),
        root_label: spec_root_label(spec_roots(p, entry_paths(entries)), dest_dir),
    }
}

/// The plan for a TAR stream with these entry paths: the stream is unpacked
/// as a whole, and the label is decided as for any other archive.
pub open spec fn spec_tar_plan(
    p: Platform,
    dest_dir: Seq<char>,
    gzip: bool,
    paths: Seq<Seq<char>>,
) -> PlanModel {
    PlanModel {
        steps: seq![StepModel::UnpackTar { gzip }],
        root_label: spec_root_label(spec_roots(p, paths), dest_dir),
    }
}

/// The plan for the archive in `bytes`, read as `format`: there only where
/// every entry of the archive can be read.
pub open spec fn spec_extraction(
    p: Platform,
    format: ArchiveFormat,
    bytes: Seq<u8>,
    dest_dir: Seq<char>,
) -> Option<PlanModel> {
    match format {
        ArchiveFormat::Zip => match spec_zip_entries(bytes) {
            Some(entries) => Some(spec_plan(p, dest_dir, entries)),
            None => None,
        },
        ArchiveFormat::Tar => match spec_tar_paths(bytes, false) {
            Some(paths) => Some(spec_tar_plan(p, dest_dir, false, paths)),
            None => None,
        },
        ArchiveFormat::TarGzip => match spec_tar_paths(bytes, true) {
            Some(paths) => Some(spec_tar_plan(p, dest_dir, true, paths)),
            None => None,
        },
    }
}

/// Plans the extraction of `entries` into `dest_dir`: for every entry, in
/// order and none skipped, a directory to create or a file to write at the
/// entry's path below `dest_dir`; and as label the single first component of
/// the entries' paths where there is exactly one, else `dest_dir` itself.
pub fn plan_entries(p: Platform, entries: Vec<ArchiveEntry>, dest_dir: &str) -> (plan:
    ExtractionPlan)
    ensures
        plan@ == spec_plan(p, dest_dir@, entry_models(entries@)),
{
    let ghost models = entry_models(entries@);
    let mut steps: Vec<ExtractStep> = Vec::new();
    let mut names: Vec<String> = Vec::new();
    for entry in it: entries
        invariant
            it.seq() == entries@,
            models == entry_models(entries@),
            steps.len() == it.index(),
            names.len() == it.index(),
            forall|i: int|
                0 <= i < it.index() ==> #[trigger] steps@[i]@ == spec_step(
                    p,
                    dest_dir@,
                    models[i],
                ),
            forall|i: int| 0 <= i < it.index() ==> #[trigger] names@[i]@ == models[i].path,
    {
        let ArchiveEntry { path, kind, content } = entry;
        let target = join(p, dest_dir, path.as_str());
        let step = match kind {
            EntryKind::Directory => ExtractStep::CreateDir { path: target },
            EntryKind::File => ExtractStep::WriteFile { path: target, content },
        };
        steps.push(step);
        names.push(path);
    }
    assert(texts(names@) =~= entry_paths(models));
    let roots = collect_roots(p, &names);
    let plan = ExtractionPlan { steps, root_label: roots.label(dest_dir) };
    assert(plan@.steps =~= spec_plan(p, dest_dir@, models).steps);
    plan
}

/// Plans the extraction of the archive in `bytes`, read as `format`, into
/// `dest_dir`. A ZIP archive gives one step for each of its entries; a TAR
/// stream gives the single step that unpacks it. The label is decided the
/// same way for both. An archive of which any entry cannot be read gives no
/// plan at all.
pub fn plan_extraction(p: Platform, format: ArchiveFormat, bytes: Vec<u8>, dest_dir: &str) -> (r:
    Result<ExtractionPlan, ExtractError>)
    ensures
        match r {
            Ok(plan) => spec_extraction(p, format, bytes@, dest_dir@) == Some(plan@),
            Err(e) => spec_extraction(p, format, bytes@, dest_dir@) is None && e@
                == ErrorModel::Malformed,
        },
{
    match format {
        ArchiveFormat::Zip => {
            match read_zip_entries(bytes) {
                Ok(entries) => Ok(plan_entries(p, entries, dest_dir)),
                Err(e) => Err(e),
            }
        },
        ArchiveFormat::Tar => plan_tar(p, bytes, false, dest_dir),
        ArchiveFormat::TarGzip => plan_tar(p, bytes, true, dest_dir),
    }
}

/// Plans the unpacking of the TAR stream in `bytes`.
fn plan_tar(p: Platform, bytes: Vec<u8>, gzip: bool, dest_dir: &str) -> (r: Result<
    ExtractionPlan,
    ExtractError,
>)
    ensures
        match r {
            Ok(plan) => spec_tar_paths(bytes@, gzip) matches Some(paths) && plan@ == spec_tar_plan(
                p,
                dest_dir@,
                gzip,
                paths,
            ),
            Err(e) => spec_tar_paths(bytes@, gzip) is None && e@ == ErrorModel::Malformed,
        },
{
    match read_tar_paths(bytes, gzip) {
        Ok(paths) => {
            let roots = collect_roots(p, &paths);
            let mut steps: Vec<ExtractStep> = Vec::new();
            steps.push(ExtractStep::UnpackTar { gzip });
            let plan = ExtractionPlan { steps, root_label: roots.label(dest_dir) };
            assert(plan@.steps =~= seq![StepModel::UnpackTar { gzip }]);
            Ok(plan)
        },
        Err(e) => Err(e),
    }
}

/// The paths of the entries of the archive in `bytes`, where it can be read.
pub open spec fn spec_archive_paths(format: ArchiveFormat, bytes: Seq<u8>) -> Option<
    Seq<Seq<char>>,
> {
    match format {
        ArchiveFormat::Zip => match spec_zip_entries(bytes) {
            Some(entries) => Some(entry_paths(entries)),
            None => None,
        },
        ArchiveFormat::Tar => spec_tar_paths(bytes, false),
        ArchiveFormat::TarGzip => spec_tar_paths(bytes, true),
    }
}

/// The path that a step writes to, where it names one.
pub open spec fn step_path(step: StepModel) -> Option<Seq<char>> {
    match step {
        StepModel::CreateDir { path } => Some(path),
        StepModel::WriteFile { path, .. } => Some(path),
        StepModel::UnpackTar { .. } => None,
    }
}

/// An archive is planned exactly where its entries can be listed, and its
/// label is decided by the first components of their paths alone.
pub proof fn lemma_label_follows_paths(
    p: Platform,
    format: ArchiveFormat,
    bytes: Seq<u8>,
    dest_dir: Seq<char>,
)
    ensures
        spec_extraction(p, format, bytes, dest_dir) is Some <==> spec_archive_paths(format, bytes)
            is Some,
        spec_archive_paths(format, bytes) matches Some(paths) ==> spec_extraction(
            p,
            format,
            bytes,
            dest_dir,
        )->0.root_label == spec_root_label(spec_roots(p, paths), dest_dir),
{
}

/// For every ZIP or TAR archive whose entries have exactly one first
/// component, the extraction is labelled with that component.
pub proof fn lemma_single_root_labels_archive(
    p: Platform,
    format: ArchiveFormat,
    bytes: Seq<u8>,
    dest_dir: Seq<char>,
    root: Seq<char>,
)
    requires
        spec_archive_paths(format, bytes) matches Some(paths) && spec_roots(p, paths) == set![root],
    ensures
        spec_extraction(p, format, bytes, dest_dir) matches Some(plan) && plan.root_label == root,
{
    lemma_label_follows_paths(p, format, bytes, dest_dir);
    lemma_single_root_is_label(p, spec_archive_paths(format, bytes)->0, dest_dir, root);
}

/// For every ZIP or TAR archive whose entries have no first component or
/// more than one, the extraction is labelled with the destination directory,
/// unchanged.
pub proof fn lemma_other_roots_label_destination(
    p: Platform,
    format: ArchiveFormat,
    bytes: Seq<u8>,
    dest_dir: Seq<char>,
)
    requires
        spec_archive_paths(format, bytes) matches Some(paths) && spec_roots(p, paths).len() != 1,
    ensures
        spec_extraction(p, format, bytes, dest_dir) matches Some(plan) && plan.root_label
            == dest_dir,
{
    lemma_label_follows_paths(p, format, bytes, dest_dir);
}

/// Where the entries of an archive have exactly one first component, and it
/// is not the root directory, every entry with a path is planned below that
/// component inside the destination: its target is the component joined to
/// the destination, followed by the rest of the entry's path as it stands in
/// the archive.
pub proof fn lemma_single_root_tree(
    p: Platform,
    dest_dir: Seq<char>,
    entries: Seq<EntryModel>,
    root: Seq<char>,
    i: int,
)
    requires
        spec_roots(p, entry_paths(entries)) == set![root],
        root != p.spec_main_separator(),
        0 <= i < entries.len(),
        entries[i].path.len() > 0,
    ensures
        spec_plan(p, dest_dir, entries).root_label == root,
        root.len() <= entries[i].path.len(),
        entries[i].path.subrange(0, root.len() as int) == root,
        root.len() < entries[i].path.len() ==> p.separates(entries[i].path[root.len() as int]),
        step_path(spec_plan(p, dest_dir, entries).steps[i]) == Some(
            spec_join(p, dest_dir, root) + entries[i].path.skip(root.len() as int),
        ),
{
    let paths = entry_paths(entries);
    let path = entries[i].path;
    lemma_single_root_is_label(p, paths, dest_dir, root);
    assert(paths[i] == path);
    let first = spec_first_component(p, paths[i]);
    assert(spec_roots(p, paths).contains(first->0));
    assert(first == Some(root));
    lemma_separator_from(p, path, 0);
    let cut = separator_from(p, path, 0);
    assert(root == path.subrange(0, cut));
    assert(root[0] == path[0]);
    assert(spec_join(p, dest_dir, path) =~= spec_join(p, dest_dir, root) + path.skip(cut));
}

} // verus!
