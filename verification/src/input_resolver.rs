//! Input resolution: which raw input paths become conversion inputs,
//! which are archives to extract or directories to scan, and what is
//! tracked for cleanup.
//!
//! The caller probes the file system, extracts archives and lists
//! directories; this module decides what each finding means.

use vstd::prelude::*;
use crate::filesystem::{FsUtils, filename_or_unknown};
use crate::models::{ConversionInput, FileType, classify_path, listing_view};

verus! {

/// What the file system holds at an input path.
#[derive(Debug, Clone, Copy, PartialEq, Eq, Structural)]
pub enum PathKind {
    /// Nothing.
    Missing,
    /// A regular file.
    File,
    /// A directory.
    Directory,
    /// Something that exists but is neither.
    Other,
}

/// What to do with one raw input.
#[derive(Debug)]
pub enum InputAction {
    /// Skip it: the path does not exist.
    Skip,
    /// Nothing to convert, though the path exists.
    Nothing,
    /// Convert this file as it is.
    Single(ConversionInput),
    /// Extract this archive into the job directory, then scan what came out.
    ExtractArchive(String),
    /// Scan this directory for supported files.
    ScanDirectory(String),
}

/// The file type detected for a path, `Unknown` when none is.
pub open spec fn detected_type(path: Seq<char>, listing: Option<Seq<Seq<char>>>) -> FileType {
    match classify_path(path, listing) {
        Some(t) => t,
        None => FileType::Unknown,
    }
}

/// The inputs that exist, in input order: those whose kind is not `Missing`.
pub open spec fn existing_inputs(inputs: Seq<Seq<char>>, kinds: Seq<PathKind>) -> Seq<Seq<char>>
    decreases inputs.len(),
{
    if inputs.len() == 0 || kinds.len() < inputs.len() {
        Seq::empty()
    } else {
        let n = inputs.len() - 1;
        let before = existing_inputs(inputs.drop_last(), kinds);
        if kinds[n] == PathKind::Missing {
            before
        } else {
            before.push(inputs[n])
        }
    }
}

/// Whether `a` is what `classify_input` decides for `input` of kind `kind`.
pub open spec fn input_action_of(a: InputAction, input: Seq<char>, kind: PathKind) -> bool {
    match kind {
        PathKind::Missing => a is Skip,
        PathKind::Other => a is Nothing,
        PathKind::Directory => a matches InputAction::ScanDirectory(d) && d@ == input,
        PathKind::File => {
            let t = detected_type(input, None);
            if t == FileType::Zip {
                a matches InputAction::ExtractArchive(x) && x@ == input
            } else {
                a matches InputAction::Single(i) && i.path@ == input
                    && i.original_name@ == filename_or_unknown(input) && i.file_type == t
            }
        },
    }
}

/// Resolves raw input paths into typed conversion inputs.
#[derive(Debug)]
pub struct InputResolver {
    /// Working directory for ZIP extraction.
    job_dir: String,
    /// Whether to scan subdirectories recursively.
    scan_deeper: bool,
    /// Tracked source paths for cleanup.
    source_cleanup_list: Vec<String>,
    /// Tracked extraction directories for cleanup.
    extraction_dirs: Vec<String>,
}

impl InputResolver {
    /// The job directory archives are extracted into.
    pub closed spec fn job_dir_view(&self) -> Seq<char> {
        self.job_dir@
    }

    /// Whether directories are scanned recursively.
    pub closed spec fn scan_deeper_view(&self) -> bool {
        self.scan_deeper
    }

    /// The source paths tracked for cleanup, in the order they were seen.
    pub closed spec fn sources(&self) -> Seq<Seq<char>> {
        self.source_cleanup_list.deep_view()
    }

    /// The extraction directories tracked for cleanup.
    pub closed spec fn extractions(&self) -> Seq<Seq<char>> {
        self.extraction_dirs.deep_view()
    }

    /// A resolver that tracks nothing yet.
    pub fn new(job_dir: String, scan_deeper: bool) -> (r: Self)
        ensures
            r.job_dir_view() == job_dir@,
            r.scan_deeper_view() == scan_deeper,
            r.sources() == Seq::<Seq<char>>::empty(),
            r.extractions() == Seq::<Seq<char>>::empty(),
    {
        let r = InputResolver {
            job_dir,
            scan_deeper,
            source_cleanup_list: Vec::new(),
            extraction_dirs: Vec::new(),
        };
        assert(r.sources() =~= Seq::<Seq<char>>::empty());
        assert(r.extractions() =~= Seq::<Seq<char>>::empty());
        r
    }

    /// The job directory.
    pub fn job_dir(&self) -> (r: &str)
        ensures
            r@ == self.job_dir_view(),
    {
        self.job_dir.as_str()
    }

    /// Whether directories are scanned recursively.
    pub fn scan_deeper(&self) -> (r: bool)
        ensures
            r == self.scan_deeper_view(),
    {
        self.scan_deeper
    }

    /// Decides what to do with one raw input found to be of kind `kind`: a
    /// missing path is skipped; any other is tracked for cleanup; a file is
    /// converted as it is unless it is an archive, which is extracted; a
    /// directory is scanned.
    pub fn classify_input(&mut self, input: String, kind: PathKind) -> (r: InputAction)
        ensures
            final(self).job_dir_view() == old(self).job_dir_view(),
            final(self).scan_deeper_view() == old(self).scan_deeper_view(),
            final(self).extractions() == old(self).extractions(),
            kind == PathKind::Missing ==> r is Skip && final(self).sources() == old(self).sources(),
            kind != PathKind::Missing ==> final(self).sources() == old(self).sources().push(input@),
            kind == PathKind::Other ==> r is Nothing,
            kind == PathKind::Directory ==> (r matches InputAction::ScanDirectory(d) && d@ == input@),
            kind == PathKind::File ==> {
                let t = detected_type(input@, None);
                if t == FileType::Zip {
                    r matches InputAction::ExtractArchive(a) && a@ == input@
                } else {
                    r matches InputAction::Single(i) && i.path@ == input@
                        && i.original_name@ == filename_or_unknown(input@) && i.file_type == t
                }
            },
    {
        if kind == PathKind::Missing {
            return InputAction::Skip;
        }
        let ghost before = self.source_cleanup_list.deep_view();
        self.source_cleanup_list.push(input.clone());
        assert(self.source_cleanup_list.deep_view() =~= before.push(input@));
        match kind {
            PathKind::File => {
                let t = match FileType::from_path_ref(input.as_str(), None) {
                    Some(t) => t,
                    None => FileType::Unknown,
                };
                if t.is_archive_format() {
                    InputAction::ExtractArchive(input)
                } else {
                    let name = FsUtils::extract_filename_str(input.as_str());
                    InputAction::Single(ConversionInput { path: input, original_name: name, file_type: t })
                }
            },
            PathKind::Directory => InputAction::ScanDirectory(input),
            _ => InputAction::Nothing,
        }
    }

    /// Decides what to do with each raw input, in order, `kinds[k]` being
    /// what the file system holds at `inputs[k]`; every input that exists is
    /// tracked for cleanup, in input order, and nothing else is.
    pub fn classify_inputs(&mut self, inputs: Vec<String>, kinds: &Vec<PathKind>) -> (r: Vec<InputAction>)
        requires
            kinds@.len() == inputs@.len(),
        ensures
            final(self).job_dir_view() == old(self).job_dir_view(),
            final(self).scan_deeper_view() == old(self).scan_deeper_view(),
            final(self).extractions() == old(self).extractions(),
            final(self).sources() == old(self).sources() + existing_inputs(inputs.deep_view(), kinds@),
            r@.len() == inputs@.len(),
            forall|k: int| 0 <= k < inputs@.len() ==> input_action_of(#[trigger] r@[k], inputs@[k]@, kinds@[k]),
    {
        let ghost orig = inputs.deep_view();
        let ghost start = self.sources();
        let mut rest = inputs;
        let mut actions: Vec<InputAction> = Vec::new();
        let mut i: usize = 0;
        let n: usize = kinds.len();
        while i < n
            invariant
                n == kinds@.len(),
                orig.len() == n,
                i <= n,
                rest.deep_view() == orig.subrange(i as int, n as int),
                rest@.len() == n - i,
                actions@.len() == i,
                forall|k: int| 0 <= k < i ==> input_action_of(#[trigger] actions@[k], orig[k], kinds@[k]),
                self.sources() == start + existing_inputs(orig.take(i as int), kinds@),
                self.job_dir_view() == old(self).job_dir_view(),
                self.scan_deeper_view() == old(self).scan_deeper_view(),
                self.extractions() == old(self).extractions(),
            decreases n - i,
        {
            let ghost before_rest = rest@;
            let ghost before_deep = rest.deep_view();
            assert(before_deep[0] == orig[i as int]);
            let input = rest.remove(0);
            proof {
                assert(before_deep[0] == before_rest[0]@);
                assert(input == before_rest[0]);
                assert forall|k: int| 0 <= k < rest@.len() implies #[trigger] rest.deep_view()[k] == orig[i + 1 + k] by {
                    assert(rest@[k] == before_rest[k + 1]);
                    assert(before_deep[k + 1] == before_rest[k + 1]@);
                }
                assert(rest.deep_view() =~= orig.subrange(i as int + 1, n as int));
                assert(input@ == orig[i as int]);
                let taken = orig.take(i as int + 1);
                assert(taken.drop_last() =~= orig.take(i as int));
                assert(taken[i as int] == input@);
            }
            let kind = kinds[i];
            let ghost before = self.sources();
            let a = self.classify_input(input, kind);
            proof {
                if kind != PathKind::Missing {
                    assert(self.sources() =~= start + existing_inputs(orig.take(i as int + 1), kinds@));
                }
            }
            actions.push(a);
            i = i + 1;
        }
        proof {
            assert(orig.take(n as int) =~= orig);
        }
        actions
    }

    /// Tracks a directory an archive was extracted into.
    pub fn record_extraction(&mut self, dir: String)
        ensures
            final(self).extractions() == old(self).extractions().push(dir@),
            final(self).sources() == old(self).sources(),
            final(self).job_dir_view() == old(self).job_dir_view(),
            final(self).scan_deeper_view() == old(self).scan_deeper_view(),
    {
        let ghost before = self.extraction_dirs.deep_view();
        self.extraction_dirs.push(dir);
        assert(self.extraction_dirs.deep_view() =~= before.push(dir@));
    }

    /// The input for one path found by a directory scan; `listing` holds the
    /// entry names when the path is itself a directory.
    pub fn scanned_input(path: String, listing: Option<&Vec<String>>) -> (r: ConversionInput)
        ensures
            r.path@ == path@,
            r.original_name@ == filename_or_unknown(path@),
            r.file_type == detected_type(path@, listing_view(listing)),
    {
        let name = FsUtils::extract_filename_str(path.as_str());
        let t = match FileType::from_path_ref(path.as_str(), listing) {
            Some(t) => t,
            None => FileType::Unknown,
        };
        ConversionInput { path, original_name: name, file_type: t }
    }

    /// The tracked source paths.
    pub fn source_cleanup_list(&self) -> (r: &Vec<String>)
        ensures
            r.deep_view() == self.sources(),
    {
        &self.source_cleanup_list
    }

    /// The tracked extraction directories.
    pub fn extraction_dirs(&self) -> (r: &Vec<String>)
        ensures
            r.deep_view() == self.extractions(),
    {
        &self.extraction_dirs
    }
}

} // verus!
