//! Paths and what is found at them: where the configuration and the
//! profiles live, how a template profile is chosen, which entries a
//! profile copy takes, and which directories may be deleted.
use vstd::prelude::*;

use crate::model::{ConfigError, texts_view};
use crate::text::text_equals;

verus! {

/// What a path names on disk, as the metadata of the path reports it.
#[derive(Clone, Copy, Debug, PartialEq, Eq, Structural)]
pub enum PathKind {
    Missing,
    File,
    Directory,
    Other,
}

/// A path and what it names.
#[derive(Debug)]
pub struct ProbedPath {
    pub path: String,
    pub kind: PathKind,
}

/// A relative path whose join onto a base only appends it: not empty, not
/// starting with a separator, and without `:` (no drive prefix).
pub open spec fn is_plain_relative(child: Seq<char>) -> bool {
    &&& child.len() > 0
    &&& child[0] != '/' && child[0] != '\\'
    &&& forall|i: int| 0 <= i < child.len() ==> child[i] != ':'
}

/// `base` starts with the Windows verbatim prefix `\\?\`.
pub open spec fn has_verbatim_prefix(base: Seq<char>) -> bool {
    base.len() >= 4 && base[0] == '\\' && base[1] == '\\' && base[2] == '?' && base[3] == '\\'
}

/// `base` is a bare drive such as `C:` (a prefix with nothing after it on
/// Windows).
pub open spec fn is_bare_drive(base: Seq<char>) -> bool {
    &&& base.len() == 2
    &&& ('a' <= base[0] <= 'z' || 'A' <= base[0] <= 'Z')
    &&& base[1] == ':'
}

/// `r` is `child` joined onto `base`: directly after a base that is empty
/// or ends in `/` (a separator everywhere); directly or after `/` when the
/// base ends in `\` or is a bare drive (a separator and a drive on Windows,
/// ordinary characters elsewhere); and after exactly one separator, `/` or
/// `\` as the platform has it, otherwise.
pub open spec fn is_joined(base: Seq<char>, child: Seq<char>, r: Seq<char>) -> bool {
    if base.len() == 0 || base.last() == '/' {
        r == base + child
    } else if base.last() == '\\' || is_bare_drive(base) {
        r == base + child || r == base + seq!['/'] + child
    } else {
        r == base + seq!['/'] + child || r == base + seq!['\\'] + child
    }
}

/// `Path::join` of a plain relative path onto `base`, as text (the inputs
/// are UTF-8, so `to_string_lossy` loses nothing). `PathBuf::push` appends a
/// relative path that has no prefix, putting the platform's separator
/// (`MAIN_SEPARATOR`) in between unless `base` is empty, already ends in a
/// separator (`/` anywhere, also `\` on Windows), or on Windows is only a
/// drive prefix. Which separator the platform uses is not stated. A
/// verbatim base (`\\?\...`) is rebuilt from its components, so nothing is
/// stated for one.
#[verifier::external_body]
pub(crate) fn join_path(base: &str, child: &str) -> (r: String)
    requires
        is_plain_relative(child@),
    ensures
        !has_verbatim_prefix(base@) ==> is_joined(base@, child@, r@),
{
    std::path::Path::new(base).join(child).to_string_lossy().to_string()
}

/// The data directory used when the platform gives none: `data` inside
/// the working directory.
pub fn fallback_data_dir(current_dir: &str) -> (r: String)
    ensures
        !has_verbatim_prefix(current_dir@) ==> is_joined(current_dir@, "data"@, r@),
{
    proof {
        reveal_strlit("data");
    }
    join_path(current_dir, "data")
}

/// The settings file inside the application data directory.
pub fn config_path(data_dir: &str) -> (r: String)
    ensures
        !has_verbatim_prefix(data_dir@) ==> is_joined(data_dir@, "config.json"@, r@),
{
    proof {
        reveal_strlit("config.json");
    }
    join_path(data_dir, "config.json")
}

/// The default root of new profiles inside the application data directory.
pub fn default_profiles_dir(data_dir: &str) -> (r: String)
    ensures
        !has_verbatim_prefix(data_dir@) ==> is_joined(data_dir@, "profiles"@, r@),
{
    proof {
        reveal_strlit("profiles");
    }
    join_path(data_dir, "profiles")
}

/// The `Default` profile inside a `User Data` directory.
pub fn default_profile_child(dir: &str) -> (r: String)
    ensures
        !has_verbatim_prefix(dir@) ==> is_joined(dir@, "Default"@, r@),
{
    proof {
        reveal_strlit("Default");
    }
    join_path(dir, "Default")
}

/// The profile that Chrome uses for an environment: `Default` inside the
/// environment's `User Data` directory.
pub fn environment_default_profile_dir(environment: &crate::model::Environment) -> (r: String)
    ensures
        !has_verbatim_prefix(environment.profile_path@) ==> is_joined(
            environment.profile_path@,
            "Default"@,
            r@,
        ),
{
    default_profile_child(environment.profile_path.as_str())
}

/// The three entries whose presence marks a directory as a Chrome profile.
#[derive(Debug)]
pub struct ProfileMarkers {
    /// What `Preferences` is.
    pub preferences: PathKind,
    /// What `Secure Preferences` is.
    pub secure_preferences: PathKind,
    /// What `Extensions` is.
    pub extensions: PathKind,
}

/// The paths of the marker entries of `dir`: `Preferences`,
/// `Secure Preferences` and `Extensions`.
pub fn profile_marker_paths(dir: &str) -> (r: (String, String, String))
    ensures
        !has_verbatim_prefix(dir@) ==> {
            &&& is_joined(dir@, "Preferences"@, r.0@)
            &&& is_joined(dir@, "Secure Preferences"@, r.1@)
            &&& is_joined(dir@, "Extensions"@, r.2@)
        },
{
    proof {
        reveal_strlit("Preferences");
        reveal_strlit("Secure Preferences");
        reveal_strlit("Extensions");
    }
    (
        join_path(dir, "Preferences"),
        join_path(dir, "Secure Preferences"),
        join_path(dir, "Extensions"),
    )
}

pub open spec fn looks_like_profile(m: ProfileMarkers) -> bool {
    m.preferences == PathKind::File || m.secure_preferences == PathKind::File || m.extensions
        == PathKind::Directory
}

/// A directory is a Chrome profile when it holds a `Preferences` or a
/// `Secure Preferences` file or an `Extensions` directory.
pub fn is_chrome_profile_dir(markers: &ProfileMarkers) -> (r: bool)
    ensures
        r == looks_like_profile(*markers),
{
    markers.preferences == PathKind::File || markers.secure_preferences == PathKind::File
        || markers.extensions == PathKind::Directory
}

/// The directory a template copy is taken from. The template must be a
/// directory. A profile directory (`Default`, `Profile 3`, ...) is taken
/// as it is; a `User Data` directory chosen by mistake gives its
/// `Default` profile when it has one; anything else is taken as it is.
/// `default_child` is the `Default` entry of the template
/// (`default_profile_child`).
pub fn resolve_master_profile_source(
    master_profile_path: &str,
    master_kind: PathKind,
    markers: &ProfileMarkers,
    default_child: &ProbedPath,
) -> (r: Result<String, ConfigError>)
    ensures
        master_kind != PathKind::Directory ==> r == Err::<String, ConfigError>(
            ConfigError::MasterProfileMissing,
        ),
        master_kind == PathKind::Directory && looks_like_profile(*markers) ==> (r matches Ok(p)
            && p@ == master_profile_path@),
        master_kind == PathKind::Directory && !looks_like_profile(*markers) && default_child.kind
            == PathKind::Directory ==> (r matches Ok(p) && p@ == default_child.path@),
        master_kind == PathKind::Directory && !looks_like_profile(*markers) && default_child.kind
            != PathKind::Directory ==> (r matches Ok(p) && p@ == master_profile_path@),
{
    if master_kind != PathKind::Directory {
        return Err(ConfigError::MasterProfileMissing);
    }
    if is_chrome_profile_dir(markers) {
        return Ok(String::from_str(master_profile_path));
    }
    if default_child.kind == PathKind::Directory {
        return Ok(default_child.path.clone());
    }
    Ok(String::from_str(master_profile_path))
}

/// Where Chrome is installed below a program directory.
pub open spec fn chrome_exe_relative() -> Seq<char> {
    "Google\\Chrome\\Application\\chrome.exe"@
}

/// Where Chrome keeps its `User Data` below the local application data
/// directory.
pub open spec fn user_data_relative() -> Seq<char> {
    "Google\\Chrome\\User Data"@
}

/// The directories that are set, in order.
pub open spec fn set_dirs(
    program_files: Option<String>,
    program_files_x86: Option<String>,
    local_app_data: Option<String>,
) -> Seq<Seq<char>> {
    let one = |o: Option<String>|
        match o {
            Some(d) => seq![d@],
            None => Seq::<Seq<char>>::empty(),
        };
    one(program_files) + one(program_files_x86) + one(local_app_data)
}

/// 1 when the directory is set, else 0.
pub open spec fn set_count(dir: Option<String>) -> int {
    if dir is Some {
        1
    } else {
        0
    }
}

/// Each candidate is the executable's place below the directory at the
/// same position.
pub open spec fn are_chrome_candidates(dirs: Seq<Seq<char>>, r: Seq<Seq<char>>) -> bool {
    &&& r.len() == dirs.len()
    &&& forall|i: int|
        0 <= i < r.len() ==> (!has_verbatim_prefix(dirs[i]) ==> is_joined(
            dirs[i],
            chrome_exe_relative(),
            #[trigger] r[i],
        ))
}

fn push_candidate(out: &mut Vec<String>, dir: &Option<String>, Ghost(dirs): Ghost<Seq<Seq<char>>>)
    requires
        are_chrome_candidates(dirs, texts_view(old(out)@)),
    ensures
        are_chrome_candidates(
            dirs + match dir {
                Some(d) => seq![d@],
                None => Seq::<Seq<char>>::empty(),
            },
            texts_view(final(out)@),
        ),
{
    proof {
        reveal_strlit("Google\\Chrome\\Application\\chrome.exe");
    }
    match dir {
        Some(d) => {
            let p = join_path(d.as_str(), "Google\\Chrome\\Application\\chrome.exe");
            let ghost before = texts_view(out@);
            out.push(p);
            assert(texts_view(out@) =~= before.push(p@));
            assert(dirs + seq![d@] =~= dirs.push(d@));
        },
        None => {
            assert(dirs + Seq::<Seq<char>>::empty() =~= dirs);
        },
    }
}

/// The places Chrome is looked for, in order: below `ProgramFiles`,
/// `ProgramFiles(x86)` and `LOCALAPPDATA`, for those that are set.
pub fn chrome_path_candidates(
    program_files: Option<String>,
    program_files_x86: Option<String>,
    local_app_data: Option<String>,
) -> (r: Vec<String>)
    ensures
        are_chrome_candidates(
            set_dirs(program_files, program_files_x86, local_app_data),
            texts_view(r@),
        ),
        r@.len() == set_count(program_files) + set_count(program_files_x86) + set_count(
            local_app_data,
        ),
        program_files matches Some(d) ==> (!has_verbatim_prefix(d@) ==> is_joined(
            d@,
            chrome_exe_relative(),
            r@[0]@,
        )),
        program_files_x86 matches Some(d) ==> (!has_verbatim_prefix(d@) ==> is_joined(
            d@,
            chrome_exe_relative(),
            r@[set_count(program_files)]@,
        )),
        local_app_data matches Some(d) ==> (!has_verbatim_prefix(d@) ==> is_joined(
            d@,
            chrome_exe_relative(),
            r@[set_count(program_files) + set_count(program_files_x86)]@,
        )),
{
    let mut r: Vec<String> = Vec::new();
    let ghost d0 = Seq::<Seq<char>>::empty();
    assert(texts_view(r@) =~= Seq::<Seq<char>>::empty());
    push_candidate(&mut r, &program_files, Ghost(d0));
    let ghost d1 = d0 + match program_files {
        Some(d) => seq![d@],
        None => Seq::<Seq<char>>::empty(),
    };
    push_candidate(&mut r, &program_files_x86, Ghost(d1));
    let ghost d2 = d1 + match program_files_x86 {
        Some(d) => seq![d@],
        None => Seq::<Seq<char>>::empty(),
    };
    push_candidate(&mut r, &local_app_data, Ghost(d2));
    proof {
        let dirs = set_dirs(program_files, program_files_x86, local_app_data);
        let tv = texts_view(r@);
        let a = set_count(program_files);
        let b = set_count(program_files_x86);
        if program_files is Some {
            assert(dirs[0] == program_files->0@);
            assert(tv[0] == r@[0]@);
        }
        if program_files_x86 is Some {
            assert(dirs[a] == program_files_x86->0@);
            assert(tv[a] == r@[a]@);
        }
        if local_app_data is Some {
            assert(dirs[a + b] == local_app_data->0@);
            assert(tv[a + b] == r@[a + b]@);
        }
    }
    r
}

/// The first candidate that is a file, or the empty text when none is.
pub fn pick_chrome_path(candidates: &Vec<ProbedPath>) -> (r: String)
    ensures
        (exists|i: int| 0 <= i < candidates.len() && #[trigger] candidates@[i].kind == PathKind::File)
            ==> exists|i: int|
            {
                &&& 0 <= i < candidates.len()
                &&& candidates@[i].kind == PathKind::File
                &&& r@ == candidates@[i].path@
                &&& forall|j: int| 0 <= j < i ==> #[trigger] candidates@[j].kind != PathKind::File
            },
        (forall|i: int| 0 <= i < candidates.len() ==> #[trigger] candidates@[i].kind != PathKind::File)
            ==> r@.len() == 0,
{
    let n = candidates.len();
    let mut i: usize = 0;
    while i < n
        invariant
            i <= n == candidates.len(),
            forall|j: int| 0 <= j < i ==> #[trigger] candidates@[j].kind != PathKind::File,
        decreases n - i,
    {
        if candidates[i].kind == PathKind::File {
            return candidates[i].path.clone();
        }
        i = i + 1;
    }
    String::new()
}

/// The `User Data` directory of the current user's Chrome.
pub fn chrome_user_data_dir(local_app_data: &str) -> (r: String)
    ensures
        !has_verbatim_prefix(local_app_data@) ==> is_joined(
            local_app_data@,
            user_data_relative(),
            r@,
        ),
{
    proof {
        reveal_strlit("Google\\Chrome\\User Data");
    }
    join_path(local_app_data, "Google\\Chrome\\User Data")
}

/// The template profile proposed on first start: the `Default` profile
/// when it is a directory, else the `User Data` directory when it is one,
/// else the empty text.
pub fn pick_default_profile_path(user_data: &ProbedPath, default_profile: &ProbedPath) -> (r:
    String)
    ensures
        default_profile.kind == PathKind::Directory ==> r@ == default_profile.path@,
        default_profile.kind != PathKind::Directory && user_data.kind == PathKind::Directory ==> r@
            == user_data.path@,
        default_profile.kind != PathKind::Directory && user_data.kind != PathKind::Directory ==> r@.len()
            == 0,
{
    if default_profile.kind == PathKind::Directory {
        default_profile.path.clone()
    } else if user_data.kind == PathKind::Directory {
        user_data.path.clone()
    } else {
        String::new()
    }
}

/// The lock files that a running Chrome keeps in a profile.
pub open spec fn is_runtime_file_name(name: Seq<char>) -> bool {
    ||| name == "SingletonCookie"@
    ||| name == "SingletonLock"@
    ||| name == "SingletonSocket"@
    ||| name == "Lockfile"@
}

/// The entry is one of Chrome's runtime lock files.
pub fn is_profile_runtime_file(name: &str) -> (r: bool)
    ensures
        r == is_runtime_file_name(name@),
        r <==> (name@ == "SingletonCookie"@ || name@ == "SingletonLock"@ || name@
            == "SingletonSocket"@ || name@ == "Lockfile"@),
{
    text_equals(name, "SingletonCookie") || text_equals(name, "SingletonLock") || text_equals(
        name,
        "SingletonSocket",
    ) || text_equals(name, "Lockfile")
}

/// What a profile copy does with one directory entry.
#[derive(Clone, Copy, Debug, PartialEq, Eq, Structural)]
pub enum CopyAction {
    /// Leave the entry out.
    Skip,
    /// Copy the directory's entries into a directory of the same name.
    Descend,
    /// Copy the file.
    CopyFile,
}

/// The step a profile copy takes for one entry, given its name and its
/// type (the entry's own type: a symbolic link is `Other`). Lock files
/// are left out, directories are copied entry by entry, files are copied,
/// and anything else is left out.
pub fn copy_action(file_name: &str, kind: PathKind) -> (r: CopyAction)
    ensures
        is_runtime_file_name(file_name@) ==> r == CopyAction::Skip,
        !(file_name@ == "SingletonCookie"@ || file_name@ == "SingletonLock"@ || file_name@
            == "SingletonSocket"@ || file_name@ == "Lockfile"@) ==> (kind == PathKind::File ==> r
            == CopyAction::CopyFile) && (kind == PathKind::Directory ==> r == CopyAction::Descend),
        !is_runtime_file_name(file_name@) ==> r == match kind {
            PathKind::Directory => CopyAction::Descend,
            PathKind::File => CopyAction::CopyFile,
            _ => CopyAction::Skip,
        },
{
    if is_profile_runtime_file(file_name) {
        CopyAction::Skip
    } else {
        match kind {
            PathKind::Directory => CopyAction::Descend,
            PathKind::File => CopyAction::CopyFile,
            _ => CopyAction::Skip,
        }
    }
}

/// What resolving a path to its canonical form gave.
#[derive(Debug)]
pub enum PathProbe {
    /// The path does not exist.
    Missing,
    /// Resolution failed; the text says why.
    Unreadable(String),
    /// The canonical path, component by component, each as the bytes of
    /// its platform encoding.
    Resolved(Vec<Vec<u8>>),
}

/// A managed profile root, as given and as resolved.
#[derive(Debug)]
pub struct ProbedRoot {
    pub path: String,
    pub probe: PathProbe,
}

/// `path` lies strictly inside `root`: its first components are those of
/// `root` and it has at least one more.
pub open spec fn is_strictly_inside(root: Seq<Seq<u8>>, path: Seq<Seq<u8>>) -> bool {
    root.len() < path.len() && forall|i: int| 0 <= i < root.len() ==> root[i] == path[i]
}

/// Components as byte sequences.
pub open spec fn bytes_view(v: Seq<Vec<u8>>) -> Seq<Seq<u8>> {
    v.map_values(|b: Vec<u8>| b@)
}

/// The resolved target lies strictly inside the root.
pub open spec fn root_contains(root: ProbedRoot, target: Seq<Seq<u8>>) -> bool {
    root.probe matches PathProbe::Resolved(c) && is_strictly_inside(bytes_view(c@), target)
}

/// The root settles the check: it contains the target, or it cannot be
/// resolved.
pub open spec fn root_decides(root: ProbedRoot, target: Seq<Seq<u8>>) -> bool {
    root_contains(root, target) || root.probe is Unreadable
}

/// Two byte strings are equal.
pub fn bytes_equal(a: &Vec<u8>, b: &Vec<u8>) -> (r: bool)
    ensures
        r == (a@ == b@),
{
    if a.len() != b.len() {
        return false;
    }
    let n = a.len();
    let mut i: usize = 0;
    while i < n
        invariant
            i <= n == a.len() == b.len(),
            forall|j: int| 0 <= j < i ==> a@[j] == b@[j],
        decreases n - i,
    {
        if a[i] != b[i] {
            return false;
        }
        i = i + 1;
    }
    assert(a@ =~= b@);
    true
}

/// `path` lies strictly inside `prefix` (see `is_strictly_inside`).
pub fn strictly_inside(prefix: &Vec<Vec<u8>>, path: &Vec<Vec<u8>>) -> (r: bool)
    ensures
        r == is_strictly_inside(bytes_view(prefix@), bytes_view(path@)),
{
    if prefix.len() >= path.len() {
        return false;
    }
    let n = prefix.len();
    let mut i: usize = 0;
    while i < n
        invariant
            i <= n == prefix.len() < path.len(),
            forall|j: int| 0 <= j < i ==> prefix@[j]@ == path@[j]@,
        decreases n - i,
    {
        if !bytes_equal(&prefix[i], &path[i]) {
            assert(bytes_view(prefix@)[i as int] != bytes_view(path@)[i as int]);
            return false;
        }
        i = i + 1;
    }
    true
}

/// The roots a profile may be deleted from: the default root, and the
/// configured root unless it is the same path.
pub fn managed_roots(default_root: String, configured_root: String, same_path: bool) -> (r: Vec<
    String,
>)
    ensures
        same_path ==> r@ == seq![default_root],
        !same_path ==> r@ == seq![default_root, configured_root],
{
    let mut r: Vec<String> = Vec::new();
    r.push(default_root);
    if !same_path {
        r.push(configured_root);
    }
    r
}

/// The safety check before a profile directory is deleted. A target that
/// does not exist passes. Otherwise the roots are tried in order: a
/// missing root is passed over, a root that cannot be resolved stops the
/// check with an error, and a root that the target lies strictly inside
/// lets the deletion go ahead. When no root contains the target it is
/// refused; so is a root itself.
#[verifier::loop_isolation(false)]
pub fn check_managed_profile_path(
    target_path: &str,
    target: &PathProbe,
    roots: &Vec<ProbedRoot>,
) -> (r: Result<(), ConfigError>)
    ensures
        target is Missing ==> r is Ok,
        target matches PathProbe::Unreadable(d) ==> (r matches Err(
            ConfigError::ProfileTargetUnreadable { path, detail },
        ) && path@ == target_path@ && detail@ == d@),
        target matches PathProbe::Resolved(t) ==> {
            let tv = bytes_view(t@);
            &&& (forall|i: int| 0 <= i < roots.len() ==> !root_decides(#[trigger] roots@[i], tv))
                ==> r == Err::<(), ConfigError>(ConfigError::UnmanagedProfilePath)
            &&& forall|i: int|
                0 <= i < roots.len() && root_decides(#[trigger] roots@[i], tv) && (forall|j: int|
                    0 <= j < i ==> !root_decides(#[trigger] roots@[j], tv)) ==> {
                    &&& roots@[i].probe matches PathProbe::Unreadable(d) ==> (r matches Err(
                        ConfigError::ProfileRootUnreadable { path, detail },
                    ) && path@ == roots@[i].path@ && detail@ == d@)
                    &&& roots@[i].probe is Resolved ==> r is Ok
                }
        },
        r is Ok ==> target is Missing || (target matches PathProbe::Resolved(t) && exists|i: int|
            0 <= i < roots.len() && root_contains(#[trigger] roots@[i], bytes_view(t@))),
{
    match target {
        PathProbe::Missing => Ok(()),
        PathProbe::Unreadable(d) => Err(
            ConfigError::ProfileTargetUnreadable {
                path: String::from_str(target_path),
                detail: d.clone(),
            },
        ),
        PathProbe::Resolved(t) => {
            let ghost tv = bytes_view(t@);
            let n = roots.len();
            let mut i: usize = 0;
            while i < n
                invariant
                    i <= n == roots.len(),
                    tv == bytes_view(t@),
                    forall|j: int| 0 <= j < i ==> !root_decides(#[trigger] roots@[j], tv),
                decreases n - i,
            {
                match &roots[i].probe {
                    PathProbe::Missing => {},
                    PathProbe::Unreadable(d) => {
                        return Err(
                            ConfigError::ProfileRootUnreadable {
                                path: roots[i].path.clone(),
                                detail: d.clone(),
                            },
                        );
                    },
                    PathProbe::Resolved(c) => {
                        if strictly_inside(c, t) {
                            return Ok(());
                        }
                    },
                }
                i = i + 1;
            }
            Err(ConfigError::UnmanagedProfilePath)
        },
    }
}

} // verus!
