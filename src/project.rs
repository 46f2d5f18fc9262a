//! The description of a crate and its dependencies for the semantic engine,
//! built from what the extraction step recorded about a build.

use vstd::prelude::*;
use std::collections::HashMap;
use std::path::PathBuf;
use vstd::std_specs::hash::obeys_key_model;

verus! {

#[verifier::external_type_specification]
#[verifier::external_body]
pub struct ExPathBuf(PathBuf);

/// The path that `PathBuf::from` makes of a string.
pub uninterp spec fn path_of(s: Seq<char>) -> PathBuf;

/// Relies on `PathBuf::from`: the path made of `s`.
#[verifier::external_body]
fn path_from(s: &str) -> (r: PathBuf)
    ensures
        r == path_of(s@),
{
    PathBuf::from(s)
}

/// Relies on `Path::parent` and `Path::to_path_buf`: the parent of `p`, if
/// it has one.
#[verifier::external_body]
fn path_parent(p: &PathBuf) -> (r: Option<PathBuf>)
{
    p.parent().map(|q| q.to_path_buf())
}

/// Relies on `PathBuf`'s `Clone`: an equal path.
#[verifier::external_body]
fn clone_path(p: &PathBuf) -> (r: PathBuf)
    ensures
        r == *p,
{
    p.clone()
}

/// What the extraction step records about one crate of a build.
#[derive(Debug)]
pub struct ExtractionInfo {
    /// The arguments of the compilation action, where known. Always `None`
    /// for dependencies.
    pub arguments: Option<Vec<String>>,
    /// Configuration flags for the compiler.
    pub cfg: Vec<String>,
    /// The type of crate.
    pub crate_type: String,
    /// Direct dependencies.
    pub deps: Vec<ExtractionInfo>,
    /// The language edition.
    pub edition: String,
    /// The crate's name.
    pub name: String,
    /// The value of `OUT_DIR`, if any.
    pub out_dir_path: Option<String>,
    /// The output of the action, where known. Always `None` for
    /// dependencies.
    pub output: Option<String>,
    /// Files under the root module, sources and others needed to compile.
    pub relevant_srcs: Vec<PathBuf>,
    /// The root file of the crate.
    pub root: PathBuf,
    /// The target architecture.
    pub target: String,
}

/// A dependency of a crate in a project.
#[derive(Debug, PartialEq)]
pub struct RustProjectCrateDep {
    /// The position of the crate in the project's list of crates.
    pub krate: usize,
    /// The name the crate is imported as.
    pub name: String,
}

/// Where a crate's source files are.
#[derive(Debug, PartialEq)]
pub struct RustProjectCrateSource {
    /// Directories included, recursively.
    pub include_dirs: Vec<PathBuf>,
    /// Directories excluded, recursively.
    pub exclude_dirs: Vec<PathBuf>,
}

/// A crate in a project.
#[derive(Debug, PartialEq)]
pub struct RustProjectCrate {
    pub display_name: String,
    pub root_module: PathBuf,
    pub edition: String,
    pub deps: Vec<RustProjectCrateDep>,
    /// Whether the crate belongs to the workspace being indexed.
    pub is_workspace_member: bool,
    pub source: Option<RustProjectCrateSource>,
    pub cfg: Vec<String>,
    pub target: String,
    pub env: Option<HashMap<String, String>>,
    pub is_proc_macro: bool,
    pub proc_macro_dylib_path: Option<String>,
}

/// A project: its crates, dependencies first.
#[derive(Debug, PartialEq)]
pub struct RustProject {
    pub sysroot_src: Option<String>,
    pub crates: Vec<RustProjectCrate>,
}

pub open spec fn texts(v: Seq<String>) -> Seq<Seq<char>> {
    v.map_values(|s: String| s@)
}

/// `c` describes the crate of `info`, apart from its dependencies and
/// workspace membership. With an `OUT_DIR`, its environment maps `OUT_DIR`
/// to it (stated where `String` keys obey vstd's hash-map key model, the
/// only case in which vstd describes `HashMap::insert`).
pub open spec fn crate_of(info: &ExtractionInfo, c: &RustProjectCrate) -> bool {
    &&& c.display_name@ == info.name@
    &&& c.root_module == info.root
    &&& c.edition@ == info.edition@
    &&& texts(c.cfg@) == texts(info.cfg@)
    &&& c.target@ == info.target@
    &&& c.is_proc_macro == (info.crate_type@ == "proc-macro"@)
    &&& c.proc_macro_dylib_path is None
    &&& match info.out_dir_path {
        Some(o) => {
            &&& c.source matches Some(src) && src.include_dirs@.len() == 2 && src.include_dirs@[1]
                == path_of(o@) && src.exclude_dirs@.len() == 0
            &&& c.env is Some
            &&& c.env matches Some(m) ==> (obeys_key_model::<String>() ==> exists|k: String, v: String|
                k@ == "OUT_DIR"@ && v@ == o@ && m@ == Map::<String, String>::empty().insert(k, v))
        },
        None => c.source is None && c.env is None,
    }
}

fn clone_strings(v: &Vec<String>) -> (r: Vec<String>)
    ensures
        texts(r@) == texts(v@),
{
    let mut out: Vec<String> = Vec::new();
    for i in 0..v.len()
        invariant
            out@.len() == i,
            forall|k: int| 0 <= k < i ==> (#[trigger] out@[k])@ == v@[k]@,
    {
        out.push(v[i].clone());
    }
    assert(texts(out@) =~= texts(v@));
    out
}

impl RustProjectCrate {
    /// The crate that `info` describes, with no dependencies and outside
    /// the workspace. With an `OUT_DIR`, the root file's directory (or `/`)
    /// and `OUT_DIR` are its source directories and `OUT_DIR` is set in its
    /// environment.
    pub fn from_info(info: &ExtractionInfo) -> (r: RustProjectCrate)
        ensures
            crate_of(info, &r),
            r.deps@.len() == 0,
            !r.is_workspace_member,
    {
        let (source, env) = match &info.out_dir_path {
            Some(out_dir_path) => {
                let root_parent = match path_parent(&info.root) {
                    Some(p) => p,
                    None => path_from("/"),
                };
                let include_dirs = vec![root_parent, path_from(out_dir_path.as_str())];
                let mut env: HashMap<String, String> = HashMap::new();
                let key = String::from_str("OUT_DIR");
                let value = out_dir_path.clone();
                let ghost gk = key;
                let ghost gv = value;
                env.insert(key, value);
                proof {
                    broadcast use vstd::std_specs::hash::axiom_random_state_builds_valid_hashers;
                    if obeys_key_model::<String>() {
                        assert(env@ == Map::<String, String>::empty().insert(gk, gv));
                    }
                }
                (Some(RustProjectCrateSource { include_dirs, exclude_dirs: Vec::new() }), Some(env))
            },
            None => (None, None),
        };
        let is_proc_macro = info.crate_type == String::from_str("proc-macro");
        RustProjectCrate {
            display_name: info.name.clone(),
            root_module: clone_path(&info.root),
            edition: info.edition.clone(),
            deps: Vec::new(),
            is_workspace_member: false,
            source,
            cfg: clone_strings(&info.cfg),
            target: info.target.clone(),
            env,
            is_proc_macro,
            proc_macro_dylib_path: None,
        }
    }
}

impl RustProject {
    /// The project of `info`: a crate for each direct dependency, in order,
    /// then the crate of `info` itself, a workspace member that depends on
    /// each of them by position and name.
    pub fn from_info(info: &ExtractionInfo) -> (r: RustProject)
        ensures
            r.sysroot_src is None,
            r.crates@.len() == info.deps@.len() + 1,
            forall|k: int| 0 <= k < info.deps@.len() ==> crate_of(&info.deps@[k], #[trigger] &r.crates@[k])
                && r.crates@[k].deps@.len() == 0 && !r.crates@[k].is_workspace_member,
            crate_of(info, &r.crates@[info.deps@.len() as int]),
            r.crates@[info.deps@.len() as int].is_workspace_member,
            r.crates@[info.deps@.len() as int].deps@.len() == info.deps@.len(),
            forall|k: int| 0 <= k < info.deps@.len() ==> (#[trigger] r.crates@[info.deps@.len() as int].deps@[k]).krate == k
                && r.crates@[info.deps@.len() as int].deps@[k].name@ == info.deps@[k].name@,
    {
        let mut deps: Vec<RustProjectCrateDep> = Vec::new();
        let mut crates: Vec<RustProjectCrate> = Vec::new();
        for i in 0..info.deps.len()
            invariant
                deps@.len() == i,
                crates@.len() == i,
                forall|k: int| 0 <= k < i ==> crate_of(&info.deps@[k], #[trigger] &crates@[k])
                    && crates@[k].deps@.len() == 0 && !crates@[k].is_workspace_member,
                forall|k: int| 0 <= k < i ==> (#[trigger] deps@[k]).krate == k && deps@[k].name@ == info.deps@[k].name@,
        {
            deps.push(RustProjectCrateDep { krate: deps.len(), name: info.deps[i].name.clone() });
            crates.push(RustProjectCrate::from_info(&info.deps[i]));
        }
        let mut main_crate = RustProjectCrate::from_info(info);
        main_crate.deps = deps;
        main_crate.is_workspace_member = true;
        crates.push(main_crate);
        RustProject { sysroot_src: None, crates }
    }
}

impl From<&ExtractionInfo> for RustProjectCrate {
    /// See [`RustProjectCrate::from_info`].
    fn from(info: &ExtractionInfo) -> Self {
        RustProjectCrate::from_info(info)
    }
}

impl vstd::std_specs::convert::FromSpecImpl<&ExtractionInfo> for RustProjectCrate {
    open spec fn obeys_from_spec() -> bool {
        false
    }

    open spec fn from_spec(v: &ExtractionInfo) -> Self {
        arbitrary()
    }
}

impl From<&ExtractionInfo> for RustProject {
    /// See [`RustProject::from_info`].
    fn from(info: &ExtractionInfo) -> Self {
        RustProject::from_info(info)
    }
}

impl vstd::std_specs::convert::FromSpecImpl<&ExtractionInfo> for RustProject {
    open spec fn obeys_from_spec() -> bool {
        false
    }

    open spec fn from_spec(v: &ExtractionInfo) -> Self {
        arbitrary()
    }
}

} // verus!
