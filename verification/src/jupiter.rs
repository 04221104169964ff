//! Jupiter-Web installation discovery and validation.
//!
//! The filesystem, the registry and the environment are read by the caller;
//! the functions here decide, from what was read, which installation is used.

use vstd::prelude::*;
use crate::paths::{
    join, parent, path_join, path_parent, last_index_of, find_last, slice_vec, extension, path_extension,
    windows_parent, windows_path_parent,
};
use crate::text::{chars_of, string_from_chars, concat2, ascii_lower, to_ascii_lowercase, str_eq};

verus! {

/// Inno Setup GUID of the Jupiter-Web installer.
pub const JUPITER_INNO_SETUP_GUID: &'static str = "{700798F8-7038-4887-BCC5-37278433D213}";

/// The batch file name that launches Jupiter-Web.
pub const JUPITER_LAUNCHER: &'static str = "Start_It.bat";

/// The standard installation directory, tried last.
pub const FALLBACK_INSTALL_DIR: &'static str = "C:/Program Files/TechnoStar/Jupiter-Web_5.0";

/// The candidates below one Program Files directory, if it is known.
pub open spec fn program_files_candidates(pf: Option<&str>) -> Seq<Seq<char>> {
    match pf {
        Some(p) => seq![join(p@, "TechnoStar"@), join(join(p@, "TechnoStar"@), "Jupiter-Web_5.0"@)],
        None => Seq::empty(),
    }
}

/// Errors from Jupiter discovery.
#[derive(Debug)]
pub enum DiscoveryError {
    /// Jupiter-Web installation was not found anywhere.
    NotFound {
        /// The GUID that was searched for.
        guid: String,
    },
    /// Registry access failed (Windows only).
    RegistryError {
        /// Description of the failure.
        reason: String,
    },
    /// The installation directory was found but the launcher is missing.
    LauncherMissing {
        /// The installation directory that was found.
        install_dir: String,
        /// The expected launcher file name.
        launcher: String,
    },
}

/// How the Jupiter installation was discovered.
#[derive(Debug, Clone, Copy, PartialEq, Eq, Structural)]
pub enum DiscoveryMethod {
    /// Found via Windows registry Inno Setup GUID.
    WindowsRegistry,
    /// Found in a common installation directory.
    CommonPath,
    /// Found via the system PATH environment variable.
    SystemPath,
    /// Explicitly configured by the user.
    ExplicitConfig,
}

/// Information about a discovered Jupiter-Web installation.
#[derive(Debug)]
pub struct JupiterInstallation {
    /// Full path to the launcher batch file (Start_It.bat).
    pub launcher_path: String,
    /// Installation directory.
    pub install_dir: String,
    /// Display name from the registry (e.g., "Jupiter-Web 5.0").
    pub display_name: Option<String>,
    /// Version from the registry.
    pub display_version: Option<String>,
    /// Publisher from the registry.
    pub publisher: Option<String>,
    /// How the installation was discovered.
    pub discovery_method: DiscoveryMethod,
}

/// An independent copy of an optional string.
pub fn copy_opt_string(s: &Option<String>) -> (r: Option<String>)
    ensures
        r == *s,
{
    match s {
        Some(v) => Some(v.clone()),
        None => None,
    }
}

impl JupiterInstallation {
    /// An equal, independent copy.
    pub fn duplicate(&self) -> (r: Self)
        ensures
            r == *self,
    {
        JupiterInstallation {
            launcher_path: self.launcher_path.clone(),
            install_dir: self.install_dir.clone(),
            display_name: copy_opt_string(&self.display_name),
            display_version: copy_opt_string(&self.display_version),
            publisher: copy_opt_string(&self.publisher),
            discovery_method: self.discovery_method,
        }
    }
}

/// One directory met while looking for the launcher: its path, how deep it
/// lies below the directory searched (0 for that directory), and whether the
/// launcher file exists in it.
#[derive(Debug)]
pub struct LauncherProbe {
    /// Directory path
    pub dir: String,
    /// Depth below the searched directory
    pub depth: usize,
    /// Whether `dir/Start_It.bat` exists
    pub has_launcher: bool,
}

/// What the filesystem says about a configured path: whether it exists, is
/// a file, is a directory, and, for a directory, the directories below it in
/// depth-first order (itself first) down to depth 1.
#[derive(Debug)]
pub struct PathProbe {
    /// The path exists
    pub exists: bool,
    /// The path is a file
    pub is_file: bool,
    /// The path is a directory
    pub is_dir: bool,
    /// Directories below the path, depth-first, itself first
    pub listing: Vec<LauncherProbe>,
}

/// What the filesystem says about the launcher of an installation.
#[derive(Debug)]
pub enum LauncherState {
    /// The launcher does not exist.
    Missing,
    /// The launcher exists but its metadata could not be read.
    Unreadable {
        /// The error text
        reason: String,
    },
    /// The launcher exists and has this size in bytes.
    Present {
        /// Size in bytes
        size: u64,
    },
}

/// Index of the first directory of `listing` within `max_depth` that holds
/// the launcher, or -1.
pub open spec fn first_launcher_index(listing: Seq<LauncherProbe>, max_depth: usize) -> int
    decreases listing.len(),
{
    if listing.len() == 0 {
        -1
    } else if listing[0].depth <= max_depth && listing[0].has_launcher {
        0
    } else {
        let rest = first_launcher_index(listing.drop_first(), max_depth);
        if rest < 0 {
            -1
        } else {
            rest + 1
        }
    }
}

/// The launcher found in `listing` within `max_depth`, if any: in the first
/// directory, in depth-first order, that holds one.
pub open spec fn found_launcher(listing: Seq<LauncherProbe>, max_depth: usize) -> Option<Seq<char>> {
    let i = first_launcher_index(listing, max_depth);
    if i < 0 {
        None
    } else {
        Some(join(listing[i].dir@, JUPITER_LAUNCHER@))
    }
}

proof fn lemma_first_launcher_is(listing: Seq<LauncherProbe>, max_depth: usize, k: int)
    requires
        0 <= k < listing.len(),
        listing[k].depth <= max_depth && listing[k].has_launcher,
        forall|j: int| 0 <= j < k ==> !(#[trigger] listing[j].depth <= max_depth && listing[j].has_launcher),
    ensures
        first_launcher_index(listing, max_depth) == k,
    decreases listing.len(),
{
    if k > 0 {
        assert(!(listing[0].depth <= max_depth && listing[0].has_launcher));
        let rest = listing.drop_first();
        assert forall|j: int| 0 <= j < k - 1 implies !(#[trigger] rest[j].depth <= max_depth
            && rest[j].has_launcher) by {
            assert(rest[j] == listing[j + 1]);
        }
        lemma_first_launcher_is(rest, max_depth, k - 1);
    }
}

proof fn lemma_no_launcher(listing: Seq<LauncherProbe>, max_depth: usize)
    requires
        forall|j: int| 0 <= j < listing.len() ==> !(#[trigger] listing[j].depth <= max_depth
            && listing[j].has_launcher),
    ensures
        first_launcher_index(listing, max_depth) == -1,
    decreases listing.len(),
{
    if listing.len() > 0 {
        assert(!(listing[0].depth <= max_depth && listing[0].has_launcher));
        let rest = listing.drop_first();
        assert forall|j: int| 0 <= j < rest.len() implies !(#[trigger] rest[j].depth <= max_depth
            && rest[j].has_launcher) by {
            assert(rest[j] == listing[j + 1]);
        }
        lemma_no_launcher(rest, max_depth);
    }
}

/// Spec view of an optional string.
pub open spec fn opt_view(o: Option<String>) -> Option<Seq<char>> {
    match o {
        Some(s) => Some(s@),
        None => None,
    }
}

/// An installation found without registry metadata.
pub open spec fn plain_installation(
    i: JupiterInstallation,
    launcher: Seq<char>,
    dir: Seq<char>,
    method: DiscoveryMethod,
) -> bool {
    &&& i.launcher_path@ == launcher
    &&& i.install_dir@ == dir
    &&& i.display_name is None
    &&& i.display_version is None
    &&& i.publisher is None
    &&& i.discovery_method == method
}

/// The directory holding a found launcher, or `fallback` when it has no parent.
pub open spec fn dir_of(found: Seq<char>, fallback: Seq<char>) -> Seq<char> {
    match parent(found) {
        Some(d) => d,
        None => fallback,
    }
}

fn copy_opt(o: &Option<String>) -> (r: Option<String>)
    ensures
        opt_view(r) == opt_view(*o),
{
    match o {
        Some(s) => Some(s.clone()),
        None => None,
    }
}

fn not_found() -> (r: DiscoveryError)
    ensures
        r matches DiscoveryError::NotFound { guid } && guid@ == JUPITER_INNO_SETUP_GUID@,
{
    DiscoveryError::NotFound { guid: JUPITER_INNO_SETUP_GUID.to_owned() }
}

/// Jupiter-Web installation discovery engine.
pub struct JupiterDiscovery;

impl JupiterDiscovery {
    /// Common installation directories, in search order: below each given
    /// Program Files directory, `TechnoStar` and its versioned folder, then
    /// the standard location.
    pub fn common_install_paths(program_files: Option<&str>, program_files_x86: Option<&str>) -> (r: Vec<String>)
        ensures
            r.deep_view() == program_files_candidates(program_files) + program_files_candidates(program_files_x86)
                + seq![FALLBACK_INSTALL_DIR@],
            r@.len() > 0,
    {
        let mut r: Vec<String> = Vec::new();
        let ghost a = program_files_candidates(program_files);
        let ghost b = program_files_candidates(program_files_x86);
        match program_files {
            Some(pf) => {
                let base = path_join(pf, "TechnoStar");
                let versioned = path_join(base.as_str(), "Jupiter-Web_5.0");
                r.push(base);
                r.push(versioned);
            },
            None => {},
        }
        assert(r.deep_view() =~= a);
        match program_files_x86 {
            Some(pf) => {
                let base = path_join(pf, "TechnoStar");
                let versioned = path_join(base.as_str(), "Jupiter-Web_5.0");
                let ghost before = r.deep_view();
                r.push(base);
                r.push(versioned);
                assert(r.deep_view() =~= before + b);
            },
            None => {
                assert(r.deep_view() =~= a + b);
            },
        }
        let ghost before = r.deep_view();
        r.push(crate::mapping::owned(FALLBACK_INSTALL_DIR));
        assert(r.deep_view() =~= before + seq![FALLBACK_INSTALL_DIR@]);
        r
    }

    /// Get the Inno Setup GUID used for discovery.
    pub fn inno_setup_guid() -> (r: &'static str)
        ensures
            r@ == JUPITER_INNO_SETUP_GUID@,
    {
        JUPITER_INNO_SETUP_GUID
    }

    /// Get the expected launcher filename.
    pub fn launcher_filename() -> (r: &'static str)
        ensures
            r@ == JUPITER_LAUNCHER@,
    {
        JUPITER_LAUNCHER
    }

    /// Search a depth-first listing for the launcher, descending at most
    /// `max_depth` levels.
    pub fn find_launcher_recursive(listing: &Vec<LauncherProbe>, max_depth: usize) -> (r: Option<String>)
        ensures
            match r {
                Some(p) => found_launcher(listing@, max_depth) == Some(p@),
                None => found_launcher(listing@, max_depth) is None,
            },
    {
        let mut i: usize = 0;
        while i < listing.len()
            invariant
                i <= listing@.len(),
                forall|j: int| 0 <= j < i ==> !(#[trigger] listing@[j].depth <= max_depth
                    && listing@[j].has_launcher),
            decreases listing@.len() - i,
        {
            if listing[i].depth <= max_depth && listing[i].has_launcher {
                proof {
                    lemma_first_launcher_is(listing@, max_depth, i as int);
                }
                return Some(path_join(listing[i].dir.as_str(), JUPITER_LAUNCHER));
            }
            i = i + 1;
        }
        proof {
            lemma_no_launcher(listing@, max_depth);
        }
        None
    }
}

} // verus!

verus! {

/// Whether the launcher lies directly in the probed directory.
pub open spec fn launcher_at_top(listing: Seq<LauncherProbe>) -> bool {
    exists|j: int| 0 <= j < listing.len() && #[trigger] listing[j].depth == 0 && listing[j].has_launcher
}

fn has_launcher_at_top(listing: &Vec<LauncherProbe>) -> (r: bool)
    ensures
        r == launcher_at_top(listing@),
{
    let mut i: usize = 0;
    while i < listing.len()
        invariant
            i <= listing@.len(),
            forall|j: int| 0 <= j < i ==> !(#[trigger] listing@[j].depth == 0 && listing@[j].has_launcher),
        decreases listing@.len() - i,
    {
        if listing[i].depth == 0 && listing[i].has_launcher {
            return true;
        }
        i = i + 1;
    }
    false
}

/// The outcome `from_explicit_path` owes for a configured path and what the
/// filesystem says about it.
pub open spec fn explicit_outcome_ok(
    path: Seq<char>,
    probe: PathProbe,
    r: Result<JupiterInstallation, DiscoveryError>,
) -> bool {
    if !probe.exists {
        r matches Err(DiscoveryError::NotFound { guid }) && guid@ == JUPITER_INNO_SETUP_GUID@
    } else if probe.is_file {
        r matches Ok(i) && plain_installation(i, path, dir_of(path, path), DiscoveryMethod::ExplicitConfig)
    } else if probe.is_dir {
        if launcher_at_top(probe.listing@) {
            r matches Ok(i) && plain_installation(
                i,
                join(path, JUPITER_LAUNCHER@),
                path,
                DiscoveryMethod::ExplicitConfig,
            )
        } else {
            match found_launcher(probe.listing@, 1) {
                Some(f) => r matches Ok(i) && plain_installation(
                    i,
                    f,
                    dir_of(f, path),
                    DiscoveryMethod::ExplicitConfig,
                ),
                None => r matches Err(DiscoveryError::LauncherMissing { install_dir, launcher })
                    && install_dir@ == path && launcher@ == JUPITER_LAUNCHER@,
            }
        }
    } else {
        r matches Err(DiscoveryError::NotFound { guid }) && guid@ == JUPITER_INNO_SETUP_GUID@
    }
}

fn plain(launcher: String, dir: String, method: DiscoveryMethod) -> (r: JupiterInstallation)
    ensures
        plain_installation(r, launcher@, dir@, method),
{
    JupiterInstallation {
        launcher_path: launcher,
        install_dir: dir,
        display_name: None,
        display_version: None,
        publisher: None,
        discovery_method: method,
    }
}

fn parent_or(found: &str, fallback: &str) -> (r: String)
    ensures
        r@ == dir_of(found@, fallback@),
{
    match path_parent(found) {
        Some(d) => d,
        None => fallback.to_owned(),
    }
}

/// A path, split at each occurrence of `sep` (one piece more than there are
/// separators).
pub open spec fn split_on(s: Seq<char>, sep: char) -> Seq<Seq<char>>
    decreases s.len(),
{
    let k = last_index_of(s, sep);
    if k < 0 || k >= s.len() {
        seq![s]
    } else {
        split_on(s.subrange(0, k), sep).push(s.subrange(k + 1, s.len() as int))
    }
}

proof fn lemma_last_index_bounds(s: Seq<char>, c: char)
    ensures
        -1 <= last_index_of(s, c) < s.len(),
    decreases s.len(),
{
    if s.len() > 0 && s.last() != c {
        lemma_last_index_bounds(s.drop_last(), c);
    }
}

fn split_vec(v: &[char], sep: char) -> (r: Vec<String>)
    ensures
        r.deep_view() == split_on(v@, sep),
    decreases v@.len(),
{
    proof {
        lemma_last_index_bounds(v@, sep);
    }
    match find_last(v, sep) {
        Some(k) => {
            let head = slice_vec(v, 0, k);
            let vl = v.len();
            assert(k < vl);
            let tail = slice_vec(v, k + 1, vl);
            let mut r = split_vec(head.as_slice(), sep);
            let t = string_from_chars(tail.as_slice());
            let ghost before = r.deep_view();
            r.push(t);
            assert(r.deep_view() =~= before.push(tail@));
            r
        },
        None => {
            let s = string_from_chars(v);
            let r = vec![s];
            assert(r.deep_view() =~= seq![v@]);
            r
        },
    }
}

impl JupiterDiscovery {
    /// Create a `JupiterInstallation` from an explicitly configured path and
    /// what the filesystem says about it: a file is taken as the launcher;
    /// a directory must hold the launcher itself or one level down.
    pub fn from_explicit_path(path: &str, probe: &PathProbe) -> (r: Result<JupiterInstallation, DiscoveryError>)
        ensures
            explicit_outcome_ok(path@, *probe, r),
    {
        if !probe.exists {
            return Err(not_found());
        }
        if probe.is_file {
            return Ok(plain(path.to_owned(), parent_or(path, path), DiscoveryMethod::ExplicitConfig));
        }
        if probe.is_dir {
            if has_launcher_at_top(&probe.listing) {
                return Ok(
                    plain(
                        path_join(path, JUPITER_LAUNCHER),
                        path.to_owned(),
                        DiscoveryMethod::ExplicitConfig,
                    ),
                );
            }
            return match Self::find_launcher_recursive(&probe.listing, 1) {
                Some(found) => {
                    let dir = parent_or(found.as_str(), path);
                    Ok(plain(found, dir, DiscoveryMethod::ExplicitConfig))
                },
                None => Err(
                    DiscoveryError::LauncherMissing {
                        install_dir: path.to_owned(),
                        launcher: JUPITER_LAUNCHER.to_owned(),
                    },
                ),
            };
        }
        Err(not_found())
    }

    /// The first successful discovery among `attempts`, tried in order
    /// (registry, common paths, system PATH), or `NotFound`.
    pub fn discover(attempts: Vec<Result<JupiterInstallation, DiscoveryError>>) -> (r: Result<
        JupiterInstallation,
        DiscoveryError,
    >)
        ensures
            (exists|k: int| 0 <= k < attempts@.len() && #[trigger] attempts@[k] is Ok) ==> exists|k: int|
                0 <= k < attempts@.len() && #[trigger] attempts@[k] is Ok && (forall|j: int|
                    0 <= j < k ==> #[trigger] attempts@[j] is Err) && r == attempts@[k],
            (forall|k: int| 0 <= k < attempts@.len() ==> #[trigger] attempts@[k] is Err) ==> (r matches Err(
                DiscoveryError::NotFound { guid },
            ) && guid@ == JUPITER_INNO_SETUP_GUID@),
    {
        let ghost all = attempts@;
        let mut rest = attempts;
        let mut i: usize = 0;
        let n = rest.len();
        while rest.len() > 0
            invariant
                i + rest@.len() == n == all.len(),
                all == attempts@,
                rest@ == all.subrange(i as int, n as int),
                forall|j: int| 0 <= j < i ==> #[trigger] all[j] is Err,
            decreases rest@.len(),
        {
            let a = rest.remove(0);
            assert(a == all[i as int]);
            match a {
                Ok(inst) => {
                    assert(attempts@[i as int] is Ok);
                    assert(attempts@[i as int] == Ok::<JupiterInstallation, DiscoveryError>(inst));
                    return Ok(inst);
                },
                Err(_) => {},
            }
            i = i + 1;
        }
        Err(not_found())
    }

    /// Look for the launcher in the common installation directories: the
    /// first existing directory that holds it directly or one level down.
    /// Each candidate comes with whether it is a directory and its listing.
    pub fn discover_from_common_paths(candidates: &Vec<(String, bool, Vec<LauncherProbe>)>) -> (r: Result<
        JupiterInstallation,
        DiscoveryError,
    >)
        ensures
            match r {
                Ok(inst) => exists|k: int| {
                    &&& 0 <= k < candidates@.len()
                    &&& #[trigger] candidates@[k].1
                    &&& (launcher_at_top(candidates@[k].2@) ==> plain_installation(
                        inst,
                        join(candidates@[k].0@, JUPITER_LAUNCHER@),
                        candidates@[k].0@,
                        DiscoveryMethod::CommonPath,
                    ))
                    &&& (!launcher_at_top(candidates@[k].2@) ==> found_launcher(candidates@[k].2@, 1) is Some
                        && plain_installation(
                        inst,
                        found_launcher(candidates@[k].2@, 1)->0,
                        dir_of(found_launcher(candidates@[k].2@, 1)->0, candidates@[k].0@),
                        DiscoveryMethod::CommonPath,
                    ))
                    &&& forall|j: int| 0 <= j < k ==> !(#[trigger] candidates@[j].1 && (launcher_at_top(
                        candidates@[j].2@,
                    ) || found_launcher(candidates@[j].2@, 1) is Some))
                },
                Err(e) => (e matches DiscoveryError::NotFound { guid } && guid@ == JUPITER_INNO_SETUP_GUID@)
                    && forall|j: int| 0 <= j < candidates@.len() ==> !(#[trigger] candidates@[j].1 && (
                    launcher_at_top(candidates@[j].2@) || found_launcher(candidates@[j].2@, 1) is Some)),
            },
    {
        let mut i: usize = 0;
        while i < candidates.len()
            invariant
                i <= candidates@.len(),
                forall|j: int| 0 <= j < i ==> !(#[trigger] candidates@[j].1 && (launcher_at_top(
                    candidates@[j].2@,
                ) || found_launcher(candidates@[j].2@, 1) is Some)),
            decreases candidates@.len() - i,
        {
            let c = &candidates[i];
            if c.1 {
                if has_launcher_at_top(&c.2) {
                    let inst = plain(
                        path_join(c.0.as_str(), JUPITER_LAUNCHER),
                        c.0.clone(),
                        DiscoveryMethod::CommonPath,
                    );
                    assert(candidates@[i as int] == *c);
                    return Ok(inst);
                }
                match Self::find_launcher_recursive(&c.2, 1) {
                    Some(found) => {
                        let dir = parent_or(found.as_str(), c.0.as_str());
                        let inst = plain(found, dir, DiscoveryMethod::CommonPath);
                        assert(candidates@[i as int] == *c);
                        return Ok(inst);
                    },
                    None => {},
                }
            }
            i = i + 1;
        }
        Err(not_found())
    }

    /// The directories named by a PATH-style variable, split at `separator`.
    pub fn search_path_dirs(path_var: &str, separator: char) -> (r: Vec<String>)
        ensures
            r.deep_view() == split_on(path_var@, separator),
    {
        let v = chars_of(path_var);
        split_vec(v.as_slice(), separator)
    }

    /// Look for the launcher in the directories of the system PATH: the first
    /// directory (with whether the launcher exists in it) that holds it.
    pub fn discover_from_path(dirs: &Vec<(String, bool)>) -> (r: Result<JupiterInstallation, DiscoveryError>)
        ensures
            match r {
                Ok(inst) => exists|k: int| {
                    &&& 0 <= k < dirs@.len()
                    &&& #[trigger] dirs@[k].1
                    &&& plain_installation(
                        inst,
                        join(dirs@[k].0@, JUPITER_LAUNCHER@),
                        dirs@[k].0@,
                        DiscoveryMethod::SystemPath,
                    )
                    &&& forall|j: int| 0 <= j < k ==> !(#[trigger] dirs@[j].1)
                },
                Err(e) => (e matches DiscoveryError::NotFound { guid } && guid@ == JUPITER_INNO_SETUP_GUID@)
                    && forall|j: int| 0 <= j < dirs@.len() ==> !(#[trigger] dirs@[j].1),
            },
    {
        let mut i: usize = 0;
        while i < dirs.len()
            invariant
                i <= dirs@.len(),
                forall|j: int| 0 <= j < i ==> !(#[trigger] dirs@[j].1),
            decreases dirs@.len() - i,
        {
            if dirs[i].1 {
                let inst = plain(
                    path_join(dirs[i].0.as_str(), JUPITER_LAUNCHER),
                    dirs[i].0.clone(),
                    DiscoveryMethod::SystemPath,
                );
                return Ok(inst);
            }
            i = i + 1;
        }
        Err(not_found())
    }

    /// Validate that a Jupiter installation is functional, from what the
    /// filesystem says of its launcher: it must exist, be readable and not be
    /// empty, and on Windows (`on_windows`) it must have the `.bat`
    /// extension, in any ASCII case.
    pub fn validate(installation: &JupiterInstallation, launcher: &LauncherState, on_windows: bool) -> (r: Result<(), DiscoveryError>)
        ensures
            match *launcher {
                LauncherState::Missing => r matches Err(DiscoveryError::LauncherMissing { install_dir, launcher })
                    && install_dir@ == installation.install_dir@ && launcher@ == JUPITER_LAUNCHER@,
                LauncherState::Unreadable { reason } => r matches Err(DiscoveryError::RegistryError { reason: m })
                    && m@ == "Cannot read launcher metadata: "@ + reason@,
                LauncherState::Present { size } => if size == 0 {
                    r matches Err(DiscoveryError::LauncherMissing { install_dir, launcher })
                        && install_dir@ == installation.install_dir@ && launcher@
                        == "Start_It.bat (file is empty)"@
                } else if on_windows && !has_bat_extension(installation.launcher_path@) {
                    r matches Err(DiscoveryError::LauncherMissing { install_dir, launcher })
                        && install_dir@ == installation.install_dir@ && launcher@
                        == "Start_It.bat (not a .bat file)"@
                } else {
                    r is Ok
                },
            },
    {
        match launcher {
            LauncherState::Missing => Err(
                DiscoveryError::LauncherMissing {
                    install_dir: installation.install_dir.clone(),
                    launcher: JUPITER_LAUNCHER.to_owned(),
                },
            ),
            LauncherState::Unreadable { reason } => Err(
                DiscoveryError::RegistryError {
                    reason: concat2("Cannot read launcher metadata: ", reason.as_str()),
                },
            ),
            LauncherState::Present { size } => {
                if *size == 0 {
                    Err(
                        DiscoveryError::LauncherMissing {
                            install_dir: installation.install_dir.clone(),
                            launcher: "Start_It.bat (file is empty)".to_owned(),
                        },
                    )
                } else if on_windows && !is_bat_path(installation.launcher_path.as_str()) {
                    Err(
                        DiscoveryError::LauncherMissing {
                            install_dir: installation.install_dir.clone(),
                            launcher: "Start_It.bat (not a .bat file)".to_owned(),
                        },
                    )
                } else {
                    Ok(())
                }
            },
        }
    }
}

/// Whether a path's file name has the extension `bat`, in any ASCII case.
pub open spec fn has_bat_extension(p: Seq<char>) -> bool {
    match extension(p) {
        Some(e) => ascii_lower(e) == "bat"@,
        None => false,
    }
}

/// Whether a path's file name has the extension `bat`, in any ASCII case.
pub fn is_bat_path(p: &str) -> (r: bool)
    ensures
        r == has_bat_extension(p@),
{
    match path_extension(p) {
        Some(e) => {
            let lower = to_ascii_lowercase(e.as_str());
            str_eq(lower.as_str(), "bat")
        },
        None => false,
    }
}

} // verus!

verus! {

/// The directory a registry value names: for `UninstallString` (the Windows
/// path of the uninstaller) its parent directory, or the value itself when it
/// has none; for the other values the value itself.
pub open spec fn registry_value_dir(value_name: Seq<char>, value: Seq<char>) -> Seq<char> {
    if value_name == "UninstallString"@ {
        match windows_parent(value) {
            Some(d) => d,
            None => value,
        }
    } else {
        value
    }
}

/// A registry installation with its metadata.
pub open spec fn registry_installation_ok(
    i: JupiterInstallation,
    launcher: Seq<char>,
    dir: Seq<char>,
    name: Option<Seq<char>>,
    version: Option<Seq<char>>,
    publisher: Option<Seq<char>>,
) -> bool {
    &&& i.launcher_path@ == launcher
    &&& i.install_dir@ == dir
    &&& opt_view(i.display_name) == name
    &&& opt_view(i.display_version) == version
    &&& opt_view(i.publisher) == publisher
    &&& i.discovery_method == DiscoveryMethod::WindowsRegistry
}

impl JupiterDiscovery {
    /// The registry value names that may hold the install path, in the order
    /// they are tried.
    pub fn registry_value_names() -> (r: Vec<&'static str>)
        ensures
            r@.len() == 3,
            r@[0]@ == "Inno Setup: App Path"@,
            r@[1]@ == "InstallLocation"@,
            r@[2]@ == "UninstallString"@,
    {
        vec!["Inno Setup: App Path", "InstallLocation", "UninstallString"]
    }

    /// The directory a registry value names.
    pub fn registry_candidate_dir(value_name: &str, value: &str) -> (r: String)
        ensures
            r@ == registry_value_dir(value_name@, value@),
    {
        if crate::text::str_eq(value_name, "UninstallString") {
            match windows_path_parent(value) {
                Some(d) => d,
                None => value.to_owned(),
            }
        } else {
            value.to_owned()
        }
    }

    /// The first candidate directory that exists as a directory, or the
    /// registry error that says none was valid.
    pub fn pick_install_dir(candidates: &Vec<(String, bool)>) -> (r: Result<String, DiscoveryError>)
        ensures
            match r {
                Ok(d) => exists|k: int| {
                    &&& 0 <= k < candidates@.len()
                    &&& #[trigger] candidates@[k].1
                    &&& d@ == candidates@[k].0@
                    &&& forall|j: int| 0 <= j < k ==> !(#[trigger] candidates@[j].1)
                },
                Err(e) => (e matches DiscoveryError::RegistryError { reason }
                    && reason@ == "No valid install path found in registry values"@)
                    && forall|j: int| 0 <= j < candidates@.len() ==> !(#[trigger] candidates@[j].1),
            },
    {
        let mut i: usize = 0;
        while i < candidates.len()
            invariant
                i <= candidates@.len(),
                forall|j: int| 0 <= j < i ==> !(#[trigger] candidates@[j].1),
            decreases candidates@.len() - i,
        {
            if candidates[i].1 {
                return Ok(candidates[i].0.clone());
            }
            i = i + 1;
        }
        Err(
            DiscoveryError::RegistryError {
                reason: "No valid install path found in registry values".to_owned(),
            },
        )
    }

    /// The installation a registry entry describes, from its install
    /// directory, its metadata, and the directories below it (down to depth 2)
    /// with whether each holds the launcher.
    pub fn registry_installation(
        install_dir: &str,
        display_name: &Option<String>,
        display_version: &Option<String>,
        publisher: &Option<String>,
        listing: &Vec<LauncherProbe>,
    ) -> (r: Result<JupiterInstallation, DiscoveryError>)
        ensures
            launcher_at_top(listing@) ==> (r matches Ok(i) && registry_installation_ok(
                i,
                join(install_dir@, JUPITER_LAUNCHER@),
                install_dir@,
                opt_view(*display_name),
                opt_view(*display_version),
                opt_view(*publisher),
            )),
            !launcher_at_top(listing@) ==> match found_launcher(listing@, 2) {
                Some(f) => r matches Ok(i) && registry_installation_ok(
                    i,
                    f,
                    install_dir@,
                    opt_view(*display_name),
                    opt_view(*display_version),
                    opt_view(*publisher),
                ),
                None => r matches Err(DiscoveryError::LauncherMissing { install_dir: d, launcher })
                    && d@ == install_dir@ && launcher@ == JUPITER_LAUNCHER@,
            },
    {
        let launcher = if has_launcher_at_top(listing) {
            Some(path_join(install_dir, JUPITER_LAUNCHER))
        } else {
            Self::find_launcher_recursive(listing, 2)
        };
        match launcher {
            Some(l) => Ok(
                JupiterInstallation {
                    launcher_path: l,
                    install_dir: install_dir.to_owned(),
                    display_name: copy_opt(display_name),
                    display_version: copy_opt(display_version),
                    publisher: copy_opt(publisher),
                    discovery_method: DiscoveryMethod::WindowsRegistry,
                },
            ),
            None => Err(
                DiscoveryError::LauncherMissing {
                    install_dir: install_dir.to_owned(),
                    launcher: JUPITER_LAUNCHER.to_owned(),
                },
            ),
        }
    }

    /// The error for a registry that has no Jupiter-Web entry.
    pub fn registry_entry_missing() -> (r: DiscoveryError)
        ensures
            r matches DiscoveryError::RegistryError { reason } && reason@ == "GUID "@
                + JUPITER_INNO_SETUP_GUID@ + " not found in HKLM or HKCU uninstall registry"@,
    {
        DiscoveryError::RegistryError {
            reason: crate::text::concat3(
                "GUID ",
                JUPITER_INNO_SETUP_GUID,
                " not found in HKLM or HKCU uninstall registry",
            ),
        }
    }
}

} // verus!
