//! Server configuration, and where the Godot executable is looked for.
use vstd::prelude::*;
use crate::text::{
    chars_of, contains, ends_with, has_infix, has_prefix, has_suffix, lemma_lex_lt_asymmetric,
    lemma_lex_lt_irreflexive, lemma_lex_not_lt_transitive, lex_less, lex_lt, lowercase_of,
    starts_with, to_lowercase,
};
use crate::cli_runner::string_views;

verus! {

/// The port of the editor bridge when none is configured.
pub const DEFAULT_DEBUG_PORT: u16 = 9333;

/// The server's settings (from the command line, the environment or a `.env` file).
#[derive(Debug, Clone)]
pub struct Config {
    /// Path to the primary Godot executable.
    pub godot_path: Option<String>,
    /// Path to the Godot console wrapper executable (Windows); not used yet.
    pub godot_console_path: Option<String>,
    /// Port of the Godot editor bridge.
    pub debug_port: u16,
    /// Remote MCP URL for an HTTP/SSE transport; not used yet.
    pub mcp_url: Option<String>,
}

/// The operating system the server runs on, with what only the host can find out.
pub enum HostPlatform {
    /// Windows, with the executable that a scan of the usual install folders found
    /// (listing folders is done by the host; see `windows_dir_step`).
    Windows { installed: Option<String> },
    MacOs,
    Linux,
    Other,
}

/// Where a Godot executable is commonly installed on a platform, in the order of preference.
pub open spec fn install_locations(platform: HostPlatform) -> Seq<Seq<char>> {
    match platform {
        HostPlatform::MacOs => seq![
            "/Applications/Godot.app/Contents/MacOS/Godot"@,
            "/Applications/Godot_mono.app/Contents/MacOS/Godot"@,
        ],
        HostPlatform::Linux => seq![
            "/usr/bin/godot"@,
            "/usr/local/bin/godot"@,
            "/var/lib/flatpak/exports/bin/org.godotengine.Godot"@,
        ],
        _ => seq![],
    }
}

/// The name looked up on `PATH` when no executable was found.
pub open spec fn fallback_binary() -> Seq<char> {
    "godot"@
}

/// The executable to use: the configured one if it exists, else the one a scan found,
/// else `godot` on `PATH`.
pub open spec fn chosen_godot_path(
    configured: Option<Seq<char>>,
    configured_exists: bool,
    scanned: Option<Seq<char>>,
) -> Seq<char> {
    if configured is Some && configured_exists {
        configured->0
    } else if scanned is Some {
        scanned->0
    } else {
        fallback_binary()
    }
}

/// The view of an optional string.
pub open spec fn opt_view(s: Option<String>) -> Option<Seq<char>> {
    match s {
        Some(v) => Some(v@),
        None => None,
    }
}

/// `Path::exists`: whether something is at the path now. What it returns depends on the
/// file system, so nothing is stated of it.
#[verifier::external_body]
fn path_exists(path: &str) -> bool {
    std::path::Path::new(path).exists()
}

/// A lower-case file name of a Godot executable on Windows: it starts with `godot`, ends
/// with `.exe` and does not contain `console`.
pub open spec fn is_godot_exe_lower(lower: Seq<char>) -> bool {
    has_prefix(lower, "godot"@) && has_suffix(lower, ".exe"@) && !has_infix(lower, "console"@)
}

/// A file name that looks like a Godot executable on Windows: its lower-case form does.
pub open spec fn is_godot_exe_name(name: Seq<char>) -> bool {
    is_godot_exe_lower(lowercase_of(name))
}

/// The first candidate, from position `i` on, whose presence answer is `true`; answers
/// are given for a prefix of the candidates, and candidates without one are not taken.
pub open spec fn first_present_from(candidates: Seq<Seq<char>>, present: Seq<bool>, i: int) -> Option<
    Seq<char>,
>
    decreases candidates.len() - i,
{
    if i < 0 || i >= candidates.len() || i >= present.len() {
        None
    } else if present[i] {
        Some(candidates[i])
    } else {
        first_present_from(candidates, present, i + 1)
    }
}

/// The first candidate whose presence answer is `true`.
pub open spec fn first_present_of(candidates: Seq<Seq<char>>, present: Seq<bool>) -> Option<Seq<char>> {
    first_present_from(candidates, present, 0)
}

/// What the scan of a platform finds, given the existence answers for its fixed install
/// locations: on Windows, the executable the host's folder scan found; on macOS and Linux,
/// the first location answered present; elsewhere nothing.
pub open spec fn scan_result(platform: HostPlatform, present: Seq<bool>) -> Option<Seq<char>> {
    match platform {
        HostPlatform::Windows { installed } => opt_view(installed),
        HostPlatform::Other => None,
        _ => first_present_of(install_locations(platform), present),
    }
}

/// How deep the Windows scan looks below each root folder: one level of sub-folders.
pub const WINDOWS_SCAN_DEPTH: u8 = 1;

/// A Windows scan folder: its path and the depth still allowed below it.
pub open spec fn folder_view(f: (String, u8)) -> (Seq<char>, u8) {
    (f.0@, f.1)
}

/// Folders to visit, in the order they are taken from the end of a stack: `dirs` in order,
/// each with depth `depth`, laid out so that the first is on top.
pub open spec fn stacked(dirs: Seq<String>, depth: u8) -> Seq<(Seq<char>, u8)> {
    Seq::new(dirs.len(), |k: int| (dirs[dirs.len() - 1 - k]@, depth))
}

/// A candidate found by its presence answer is one of the candidates.
pub proof fn lemma_first_present_member(candidates: Seq<Seq<char>>, present: Seq<bool>, i: int)
    requires
        first_present_from(candidates, present, i) is Some,
    ensures
        candidates.contains(first_present_from(candidates, present, i)->0),
    decreases candidates.len() - i,
{
    if 0 <= i < candidates.len() && i < present.len() && !present[i] {
        lemma_first_present_member(candidates, present, i + 1);
    }
}

/// What to do with one folder of the Windows scan.
pub enum DirStep {
    /// Use this file of the folder.
    Found(String),
    /// Look in these sub-folders, in order, with the remaining depth.
    Descend { subdirs: Vec<String>, depth: u8 },
    /// Give up on this folder.
    NotFound,
}

impl Config {
    /// The fixed install locations of a platform.
    pub fn install_candidates(platform: &HostPlatform) -> (v: Vec<String>)
        ensures
            string_views(v@) == install_locations(*platform),
    {
        let mut v: Vec<String> = Vec::new();
        match platform {
            HostPlatform::MacOs => {
                v.push(String::from_str("/Applications/Godot.app/Contents/MacOS/Godot"));
                v.push(String::from_str("/Applications/Godot_mono.app/Contents/MacOS/Godot"));
            },
            HostPlatform::Linux => {
                v.push(String::from_str("/usr/bin/godot"));
                v.push(String::from_str("/usr/local/bin/godot"));
                v.push(String::from_str("/var/lib/flatpak/exports/bin/org.godotengine.Godot"));
            },
            _ => {},
        }
        assert(string_views(v@) =~= install_locations(*platform));
        v
    }

    /// The first of `candidates` whose presence answer is `true`, given answers for a
    /// prefix of them.
    pub fn first_present(candidates: &Vec<String>, present: &Vec<bool>) -> (r: Option<String>)
        ensures
            opt_view(r) == first_present_of(string_views(candidates@), present@),
    {
        let ghost names = string_views(candidates@);
        let mut i: usize = 0;
        while i < candidates.len() && i < present.len()
            invariant
                i <= candidates@.len(),
                names == string_views(candidates@),
                first_present_of(names, present@) == first_present_from(names, present@, i as int),
            decreases candidates@.len() - i,
        {
            if present[i] {
                let c = candidates[i].clone();
                assert(names[i as int] == c@);
                return Some(c);
            }
            i += 1;
        }
        None
    }

    /// The first of `candidates` that exists on disk, probing them in order and stopping
    /// at the first that exists.
    pub fn first_existing(candidates: &Vec<String>) -> (r: Option<String>)
        ensures
            exists|present: Seq<bool>|
                present.len() <= candidates@.len() && opt_view(r) == first_present_of(
                    string_views(candidates@),
                    present,
                ),
            r matches Some(c) ==> string_views(candidates@).contains(c@),
    {
        let mut present: Vec<bool> = Vec::new();
        let mut found = false;
        while !found && present.len() < candidates.len()
            invariant
                present@.len() <= candidates@.len(),
                found ==> present@.len() > 0,
            decreases candidates@.len() - present@.len(),
        {
            let i = present.len();
            let e = path_exists(candidates[i].as_str());
            present.push(e);
            found = e;
        }
        let r = Self::first_present(candidates, &present);
        proof {
            if r is Some {
                lemma_first_present_member(string_views(candidates@), present@, 0);
            }
        }
        r
    }

    /// The executable to use, given whether the configured path exists and what a scan
    /// found.
    pub fn choose_godot_path(&self, configured_exists: bool, scanned: Option<String>) -> (p:
        String)
        ensures
            p@ == chosen_godot_path(opt_view(self.godot_path), configured_exists, opt_view(scanned)),
    {
        match &self.godot_path {
            Some(path) if configured_exists => path.clone(),
            _ => match scanned {
                Some(found) => found,
                None => String::from_str("godot"),
            },
        }
    }

    /// Scans the usual install locations of the platform for a Godot executable: on
    /// Windows, what the host's folder scan found; on macOS and Linux, the first fixed
    /// location that exists, in order; elsewhere, nothing.
    pub fn scan_for_godot_binary(platform: &HostPlatform) -> (r: Option<String>)
        ensures
            exists|present: Seq<bool>|
                present.len() <= install_locations(*platform).len() && opt_view(r)
                    == scan_result(*platform, present),
            match platform {
                HostPlatform::Windows { installed } => opt_view(r) == opt_view(*installed),
                HostPlatform::Other => r is None,
                _ => r matches Some(c) ==> install_locations(*platform).contains(c@),
            },
    {
        match platform {
            HostPlatform::Windows { installed } => {
                let r = installed.clone();
                assert(opt_view(r) == scan_result(*platform, seq![]));
                r
            },
            _ => {
                let candidates = Self::install_candidates(platform);
                let r = Self::first_existing(&candidates);
                proof {
                    let present = choose|present: Seq<bool>|
                        present.len() <= candidates@.len() && opt_view(r) == first_present_of(
                            string_views(candidates@),
                            present,
                        );
                    assert(candidates@.len() == install_locations(*platform).len());
                    if platform is Other {
                        assert(string_views(candidates@).len() == 0);
                    }
                    assert(opt_view(r) == scan_result(*platform, present));
                }
                r
            },
        }
    }

    /// The Godot executable to run: the configured path if it exists, else what the scan
    /// of the platform found (see `scan_result`), else `godot` (looked up on `PATH`).
    pub fn resolve_godot_path(&self, platform: &HostPlatform) -> (p: String)
        ensures
            exists|configured_exists: bool, present: Seq<bool>|
                {
                    &&& present.len() <= install_locations(*platform).len()
                    &&& p@ == chosen_godot_path(
                        opt_view(self.godot_path),
                        configured_exists,
                        scan_result(*platform, present),
                    )
                },
    {
        let configured_exists = match &self.godot_path {
            Some(path) => path_exists(path.as_str()),
            None => false,
        };
        if configured_exists {
            let p = self.choose_godot_path(true, None);
            assert(p@ == chosen_godot_path(opt_view(self.godot_path), true, scan_result(*platform, seq![])));
            return p;
        }
        let scanned = Self::scan_for_godot_binary(platform);
        let ghost scanned_view = opt_view(scanned);
        let p = self.choose_godot_path(false, scanned);
        assert(p@ == chosen_godot_path(opt_view(self.godot_path), false, scanned_view));
        p
    }

    /// The folders a Windows scan starts from: `%ProgramFiles%`, `%ProgramFiles(x86)%`,
    /// and `%LOCALAPPDATA%\Programs`, each where the variable is set.
    pub fn windows_scan_roots(
        program_files: Option<String>,
        program_files_x86: Option<String>,
        local_app_data: Option<String>,
    ) -> (roots: Vec<String>)
        ensures
            string_views(roots@) == (match program_files {
                Some(p) => seq![p@],
                None => seq![],
            }) + (match program_files_x86 {
                Some(p) => seq![p@],
                None => seq![],
            }) + (match local_app_data {
                Some(p) => seq![p@ + "\\Programs"@],
                None => seq![],
            }),
    {
        let mut roots: Vec<String> = Vec::new();
        if let Some(p) = program_files {
            roots.push(p);
        }
        if let Some(p) = program_files_x86 {
            roots.push(p);
        }
        if let Some(p) = local_app_data {
            let mut q = p;
            q.append("\\Programs");
            roots.push(q);
        }
        assert(string_views(roots@) =~= (match program_files {
            Some(p) => seq![p@],
            None => seq![],
        }) + (match program_files_x86 {
            Some(p) => seq![p@],
            None => seq![],
        }) + (match local_app_data {
            Some(p) => seq![p@ + "\\Programs"@],
            None => seq![],
        }));
        roots
    }

    /// Whether a lower-case file name is that of a Godot executable on Windows.
    pub fn lower_name_matches(lower: &str) -> (b: bool)
        ensures
            b == is_godot_exe_lower(lower@),
    {
        let cs = chars_of(lower);
        let godot = chars_of("godot");
        let exe = chars_of(".exe");
        let console = chars_of("console");
        starts_with(cs.as_slice(), godot.as_slice()) && ends_with(cs.as_slice(), exe.as_slice())
            && !contains(cs.as_slice(), console.as_slice())
    }

    /// Whether a file name looks like a Godot executable on Windows.
    pub fn godot_exe_name(name: &str) -> (b: bool)
        ensures
            b == is_godot_exe_name(name@),
    {
        let lower = to_lowercase(name);
        Self::lower_name_matches(lower.as_str())
    }

    /// The Godot executable among the files of a folder: of the names that look like one,
    /// the greatest in lexicographic order (with version-named files, usually the newest).
    pub fn pick_godot_exe(names: &Vec<String>) -> (r: Option<usize>)
        ensures
            match r {
                Some(i) => {
                    &&& i < names@.len()
                    &&& is_godot_exe_name(names@[i as int]@)
                    &&& forall|j: int|
                        0 <= j < names@.len() && is_godot_exe_name(#[trigger] names@[j]@)
                            ==> !lex_lt(names@[i as int]@, names@[j]@)
                },
                None => forall|j: int|
                    0 <= j < names@.len() ==> !is_godot_exe_name(#[trigger] names@[j]@),
            },
    {
        let mut best: Option<usize> = None;
        let mut best_chars: Vec<char> = Vec::new();
        let mut i: usize = 0;
        while i < names.len()
            invariant
                i <= names@.len(),
                match best {
                    Some(b) => {
                        &&& b < i
                        &&& is_godot_exe_name(names@[b as int]@)
                        &&& best_chars@ == names@[b as int]@
                        &&& forall|j: int|
                            0 <= j < i && is_godot_exe_name(#[trigger] names@[j]@) ==> !lex_lt(
                                names@[b as int]@,
                                names@[j]@,
                            )
                    },
                    None => forall|j: int|
                        0 <= j < i ==> !is_godot_exe_name(#[trigger] names@[j]@),
                },
            decreases names@.len() - i,
        {
            if Self::godot_exe_name(names[i].as_str()) {
                let cs = chars_of(names[i].as_str());
                let better = match best {
                    None => true,
                    Some(_) => !lex_less(cs.as_slice(), best_chars.as_slice()),
                };
                if better {
                    proof {
                        assert forall|j: int|
                            0 <= j < i + 1 && is_godot_exe_name(#[trigger] names@[j]@) implies !lex_lt(
                            names@[i as int]@,
                            names@[j]@,
                        ) by {
                            if j < i {
                                let b = best->0;
                                lemma_lex_not_lt_transitive(
                                    names@[i as int]@,
                                    names@[b as int]@,
                                    names@[j]@,
                                );
                            } else {
                                lemma_lex_lt_irreflexive(names@[i as int]@);
                            }
                        }
                    }
                    best = Some(i);
                    best_chars = cs;
                } else {
                    proof {
                        let b = best->0;
                        lemma_lex_lt_asymmetric(names@[i as int]@, names@[b as int]@);
                    }
                }
            }
            i += 1;
        }
        best
    }

    /// One folder of the Windows scan, given the names of its files and the paths of its
    /// sub-folders: use the executable among the files if there is one, else look one
    /// level deeper while depth remains.
    pub fn windows_dir_step(file_names: &Vec<String>, subdirs: Vec<String>, depth: u8) -> (step:
        DirStep)
        ensures
            (exists|j: int| 0 <= j < file_names@.len() && is_godot_exe_name(#[trigger] file_names@[j]@))
                ==> (step matches DirStep::Found(f) && is_godot_exe_name(f@) && string_views(
                file_names@,
            ).contains(f@) && forall|j: int|
                0 <= j < file_names@.len() && is_godot_exe_name(#[trigger] file_names@[j]@)
                    ==> !lex_lt(f@, file_names@[j]@)),
            !(exists|j: int| 0 <= j < file_names@.len() && is_godot_exe_name(#[trigger] file_names@[j]@))
                ==> if depth == 0 {
                step is NotFound
            } else {
                step == (DirStep::Descend { subdirs, depth: (depth - 1) as u8 })
            },
    {
        match Self::pick_godot_exe(file_names) {
            Some(i) => {
                let f = file_names[i].clone();
                assert(string_views(file_names@)[i as int] == f@);
                DirStep::Found(f)
            },
            None => {
                if depth == 0 {
                    DirStep::NotFound
                } else {
                    DirStep::Descend { subdirs, depth: depth - 1 }
                }
            },
        }
    }
}

/// The views of a stack of scan folders.
pub open spec fn folder_views(v: Seq<(String, u8)>) -> Seq<(Seq<char>, u8)> {
    v.map_values(|f: (String, u8)| folder_view(f))
}

/// Pushes `dirs` onto a stack of scan folders so that the first of them is taken first.
fn push_stacked(pending: &mut Vec<(String, u8)>, dirs: Vec<String>, depth: u8)
    ensures
        folder_views(final(pending)@) == folder_views(old(pending)@) + stacked(dirs@, depth),
{
    let ghost all = dirs@;
    let ghost start = folder_views(pending@);
    let mut rest = dirs;
    while rest.len() > 0
        invariant
            rest@ == all.take(rest@.len() as int),
            rest@.len() <= all.len(),
            folder_views(pending@) == start + Seq::new(
                (all.len() - rest@.len()) as nat,
                |k: int| (all[all.len() - 1 - k]@, depth),
            ),
        decreases rest@.len(),
    {
        let ghost before = folder_views(pending@);
        let d = rest.pop().unwrap();
        let ghost m = rest@.len();
        let ghost dv = d@;
        assert(d == all[m as int]);
        pending.push((d, depth));
        assert(folder_views(pending@) =~= before.push((dv, depth)));
        assert(rest@ =~= all.take(rest@.len() as int));
        assert(folder_views(pending@) =~= start + Seq::new(
            (all.len() - rest@.len()) as nat,
            |k: int| (all[all.len() - 1 - k]@, depth),
        ));
    }
    assert(folder_views(pending@) =~= start + stacked(all, depth));
}

/// A Windows scan in progress: the folders still to look in, taken from the end. Folders
/// are visited depth first, each root and each folder's sub-folders in order, and the
/// first executable found ends the scan.
pub struct WindowsScan {
    pending: Vec<(String, u8)>,
}

impl WindowsScan {
    /// The folders still to look in, with the depth allowed below each; the last is next.
    pub closed spec fn spec_pending(&self) -> Seq<(Seq<char>, u8)> {
        folder_views(self.pending@)
    }

    /// A scan of `roots`, in order, each searched to `WINDOWS_SCAN_DEPTH` levels below.
    pub fn new(roots: Vec<String>) -> (s: Self)
        ensures
            s.spec_pending() == stacked(roots@, WINDOWS_SCAN_DEPTH),
    {
        let mut pending: Vec<(String, u8)> = Vec::new();
        push_stacked(&mut pending, roots, WINDOWS_SCAN_DEPTH);
        assert(folder_views(pending@) =~= stacked(roots@, WINDOWS_SCAN_DEPTH));
        WindowsScan { pending }
    }

    /// The next folder to look in, with the depth allowed below it; nothing when the scan
    /// has no folder left.
    pub fn next_folder(&mut self) -> (r: Option<(String, u8)>)
        ensures
            old(self).spec_pending().len() == 0 ==> r is None && final(self).spec_pending()
                == old(self).spec_pending(),
            old(self).spec_pending().len() > 0 ==> (r matches Some(f) && folder_view(f) == old(
                self,
            ).spec_pending().last() && final(self).spec_pending() == old(
                self,
            ).spec_pending().drop_last()),
    {
        let ghost before = self.pending@;
        let r = self.pending.pop();
        proof {
            if before.len() > 0 {
                assert(folder_views(self.pending@) =~= folder_views(before).drop_last());
            }
        }
        r
    }

    /// Looks at one folder, given the names of its files and the paths of its sub-folders,
    /// and the depth allowed below it: the executable among the files, if any, ends the
    /// scan; else, while depth remains, its sub-folders are looked in next, in order.
    pub fn visit(&mut self, file_names: &Vec<String>, subdirs: Vec<String>, depth: u8) -> (r:
        Option<String>)
        ensures
            (exists|j: int| 0 <= j < file_names@.len() && is_godot_exe_name(#[trigger] file_names@[j]@))
                ==> (r matches Some(f) && is_godot_exe_name(f@) && string_views(
                file_names@,
            ).contains(f@) && forall|j: int|
                0 <= j < file_names@.len() && is_godot_exe_name(#[trigger] file_names@[j]@)
                    ==> !lex_lt(f@, file_names@[j]@)),
            !(exists|j: int| 0 <= j < file_names@.len() && is_godot_exe_name(#[trigger] file_names@[j]@))
                ==> r is None,
            r is Some || depth == 0 ==> final(self).spec_pending() == old(self).spec_pending(),
            r is None && depth > 0 ==> final(self).spec_pending() == old(self).spec_pending()
                + stacked(subdirs@, (depth - 1) as u8),
    {
        match Config::windows_dir_step(file_names, subdirs, depth) {
            DirStep::Found(f) => Some(f),
            DirStep::Descend { subdirs, depth } => {
                push_stacked(&mut self.pending, subdirs, depth);
                None
            },
            DirStep::NotFound => None,
        }
    }
}

} // verus!
