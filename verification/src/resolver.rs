use vstd::prelude::*;
use vstd::string::StringExecFns;
use crate::state::{Dep, LibInfo, State, SystemDeps};
use crate::strutil::{contains_str, seq_views, spec_starts_with, starts_with};

verus! {

/// May this resolution state link anything statically at all?
pub open spec fn allows_static(state: State) -> bool {
    state is Static
}

/// May static archives found in system-wide directories satisfy resolution?
pub open spec fn allows_system_static(state: State) -> bool {
    state == State::Static(SystemDeps::SystemStatic)
}

/// Is `dir` a system-wide installation directory?
pub open spec fn is_system_dir(dir: Seq<char>) -> bool {
    spec_starts_with(dir, "/usr"@)
}

/// The path of `file` inside directory `dir`.
pub open spec fn joined_path(dir: Seq<char>, file: Seq<char>) -> Seq<char> {
    dir + "/"@ + file
}

/// The static-archive file names that may provide library `name`: the Unix
/// `lib<name>.a` form and the Windows-style `<name>.lib` and `lib<name>.lib`
/// forms. All three are checked whatever the host, since the metadata tool
/// may report libraries for either convention.
pub open spec fn static_archive_names(name: Seq<char>) -> Seq<Seq<char>> {
    seq!["lib"@ + name + ".a"@, name + ".lib"@, "lib"@ + name + ".lib"@]
}

/// Does directory `dir` hold a static archive for `name`, in a filesystem
/// whose existing files are `fs`?
pub open spec fn dir_provides_archive(fs: Seq<Seq<char>>, dir: Seq<char>, name: Seq<char>) -> bool {
    exists|k: int|
        0 <= k < static_archive_names(name).len() && fs.contains(
            joined_path(dir, static_archive_names(name)[k]),
        )
}

/// Is library `name` statically resolvable: the state permits static linking
/// and some candidate directory, usable under the system-directory policy,
/// holds a static archive for it.
pub open spec fn statically_resolvable(
    name: Seq<char>,
    state: State,
    dirs: Seq<Seq<char>>,
    fs: Seq<Seq<char>>,
) -> bool {
    allows_static(state) && exists|d: int|
        0 <= d < dirs.len() && (allows_system_static(state) || !is_system_dir(dirs[d]))
            && dir_provides_archive(fs, dirs[d], name)
}

/// The file name `lib<name>.a`.
fn lib_a_name(name: &str) -> (r: String)
    ensures
        r@ == "lib"@ + name@ + ".a"@,
{
    String::from_str("lib").concat(name).concat(".a")
}

/// The file name `<name>.lib`.
fn name_lib_name(name: &str) -> (r: String)
    ensures
        r@ == name@ + ".lib"@,
{
    String::from_str(name).concat(".lib")
}

/// The file name `lib<name>.lib`.
fn lib_lib_name(name: &str) -> (r: String)
    ensures
        r@ == "lib"@ + name@ + ".lib"@,
{
    String::from_str("lib").concat(name).concat(".lib")
}

/// The path of `file` inside `dir`.
fn join_path(dir: &str, file: &str) -> (r: String)
    ensures
        r@ == joined_path(dir@, file@),
{
    String::from_str(dir).concat("/").concat(file)
}

/// Does `dir` hold a static archive for `name`, by pure membership in the
/// given list of existing files?
fn dir_has_archive(fs: &Vec<String>, dir: &str, name: &str) -> (r: bool)
    ensures
        r == dir_provides_archive(seq_views(fs@), dir@, name@),
{
    let a0 = join_path(dir, lib_a_name(name).as_str());
    if contains_str(fs, a0.as_str()) {
        assert(seq_views(fs@).contains(joined_path(dir@, static_archive_names(name@)[0])));
        return true;
    }
    let a1 = join_path(dir, name_lib_name(name).as_str());
    if contains_str(fs, a1.as_str()) {
        assert(seq_views(fs@).contains(joined_path(dir@, static_archive_names(name@)[1])));
        return true;
    }
    let a2 = join_path(dir, lib_lib_name(name).as_str());
    if contains_str(fs, a2.as_str()) {
        assert(seq_views(fs@).contains(joined_path(dir@, static_archive_names(name@)[2])));
        return true;
    }
    proof {
        assert(!seq_views(fs@).contains(joined_path(dir@, static_archive_names(name@)[0])));
        assert(!seq_views(fs@).contains(joined_path(dir@, static_archive_names(name@)[1])));
        assert(!seq_views(fs@).contains(joined_path(dir@, static_archive_names(name@)[2])));
    }
    false
}

/// Is library `name` statically resolvable against the candidate directories
/// `dirs`, where `fs` lists the files that exist?
pub fn has_static_archive(name: &str, state: State, dirs: &Vec<String>, fs: &Vec<String>) -> (r:
    bool)
    ensures
        r == statically_resolvable(name@, state, seq_views(dirs@), seq_views(fs@)),
{
    let allow: (bool, bool) = match state {
        State::Dynamic => (false, false),
        State::Static(SystemDeps::SystemDynamic) => (true, false),
        State::Static(SystemDeps::SystemStatic) => (true, true),
    };
    if !allow.0 {
        return false;
    }
    let mut d: usize = 0;
    while d < dirs.len()
        invariant
            d <= dirs@.len(),
            allows_static(state),
            allow.1 == allows_system_static(state),
            forall|j: int|
                0 <= j < d ==> !((allows_system_static(state) || !is_system_dir(
                    seq_views(dirs@)[j],
                )) && dir_provides_archive(seq_views(fs@), seq_views(dirs@)[j], name@)),
        decreases dirs@.len() - d,
    {
        let usable = allow.1 || !starts_with(dirs[d].as_str(), "/usr");
        if usable {
            if dir_has_archive(fs, dirs[d].as_str(), name) {
                assert(seq_views(dirs@)[d as int] == dirs@[d as int]@);
                return true;
            }
        }
        assert(seq_views(dirs@)[d as int] == dirs@[d as int]@);
        d += 1;
    }
    false
}

/// Copies the build tool's native directories and the reported locations into
/// one candidate list, in that order, duplicates retained.
pub fn candidate_dirs(cargo_dirs: &Vec<String>, locs: &Vec<String>) -> (r: Vec<String>)
    ensures
        seq_views(r@) == seq_views(cargo_dirs@) + seq_views(locs@),
{
    let mut r: Vec<String> = Vec::new();
    let mut i: usize = 0;
    while i < cargo_dirs.len()
        invariant
            i <= cargo_dirs@.len(),
            r@.len() == i,
            forall|k: int| 0 <= k < i ==> r@[k]@ == cargo_dirs@[k]@,
        decreases cargo_dirs@.len() - i,
    {
        r.push(cargo_dirs[i].clone());
        i += 1;
    }
    let mut j: usize = 0;
    while j < locs.len()
        invariant
            j <= locs@.len(),
            r@.len() == cargo_dirs@.len() + j,
            forall|k: int| 0 <= k < cargo_dirs@.len() ==> r@[k]@ == cargo_dirs@[k]@,
            forall|k: int| 0 <= k < j ==> r@[cargo_dirs@.len() + k]@ == locs@[k]@,
        decreases locs@.len() - j,
    {
        r.push(locs[j].clone());
        j += 1;
    }
    proof {
        assert(seq_views(r@) =~= seq_views(cargo_dirs@) + seq_views(locs@));
    }
    r
}

/// Classifies each reported library, in the reported order: its name is kept
/// unchanged and it is marked static exactly when a usable candidate
/// directory holds a static archive for it.
pub fn classify_libraries(libs: &Vec<String>, state: State, dirs: &Vec<String>, fs: &Vec<String>)
    -> (deps: Vec<Dep>)
    ensures
        deps@.len() == libs@.len(),
        forall|i: int| 0 <= i < libs@.len() ==> (#[trigger] deps@[i]).name@ == libs@[i]@,
        forall|i: int|
            0 <= i < libs@.len() ==> (#[trigger] deps@[i]).statik == statically_resolvable(
                libs@[i]@,
                state,
                seq_views(dirs@),
                seq_views(fs@),
            ),
{
    let mut deps: Vec<Dep> = Vec::new();
    let mut i: usize = 0;
    while i < libs.len()
        invariant
            i <= libs@.len(),
            deps@.len() == i,
            forall|k: int| 0 <= k < i ==> (#[trigger] deps@[k]).name@ == libs@[k]@,
            forall|k: int|
                0 <= k < i ==> (#[trigger] deps@[k]).statik == statically_resolvable(
                    libs@[k]@,
                    state,
                    seq_views(dirs@),
                    seq_views(fs@),
                ),
        decreases libs@.len() - i,
    {
        let statik = has_static_archive(libs[i].as_str(), state, dirs, fs);
        deps.push(Dep { name: libs[i].clone(), statik });
        i += 1;
    }
    deps
}

/// Builds one flavor's library description: the package name, the state the
/// query ran under, the reported libraries classified in reported order, and
/// the reported locations unchanged. The candidate search set is the build
/// tool's native directories followed by the reported locations.
pub fn resolve_lib_info(
    pkg: &str,
    state: State,
    libs: &Vec<String>,
    locs: Vec<String>,
    cargo_dirs: &Vec<String>,
    fs: &Vec<String>,
) -> (info: LibInfo)
    ensures
        info.lib@ == pkg@,
        info.state == state,
        info.locs == locs,
        info.deps@.len() == libs@.len(),
        forall|i: int| 0 <= i < libs@.len() ==> (#[trigger] info.deps@[i]).name@ == libs@[i]@,
        forall|i: int|
            0 <= i < libs@.len() ==> (#[trigger] info.deps@[i]).statik == statically_resolvable(
                libs@[i]@,
                state,
                seq_views(cargo_dirs@) + seq_views(locs@),
                seq_views(fs@),
            ),
{
    let dirs = candidate_dirs(cargo_dirs, &locs);
    let deps = classify_libraries(libs, state, &dirs, fs);
    LibInfo { lib: pkg.to_owned(), state, deps, locs }
}

/// Law: an archive `lib<name>.a` in a candidate directory that is not a
/// system directory makes the library statically resolvable under either
/// system-directory policy.
pub proof fn lemma_archive_in_plain_dir_resolves(
    name: Seq<char>,
    dir: Seq<char>,
    dirs: Seq<Seq<char>>,
    fs: Seq<Seq<char>>,
)
    requires
        dirs.contains(dir),
        fs.contains(joined_path(dir, "lib"@ + name + ".a"@)),
        !is_system_dir(dir),
    ensures
        statically_resolvable(name, State::Static(SystemDeps::SystemDynamic), dirs, fs),
        statically_resolvable(name, State::Static(SystemDeps::SystemStatic), dirs, fs),
{
    assert(fs.contains(joined_path(dir, static_archive_names(name)[0])));
    assert(dir_provides_archive(fs, dir, name));
    let d = choose|d: int| 0 <= d < dirs.len() && dirs[d] == dir;
    assert((allows_system_static(State::Static(SystemDeps::SystemDynamic)) || !is_system_dir(
        dirs[d],
    )) && dir_provides_archive(fs, dirs[d], name));
}

/// Law: an archive `lib<name>.a` in any candidate directory, a system
/// directory included, makes the library statically resolvable when system
/// static archives are allowed.
pub proof fn lemma_archive_resolves_with_system_allowed(
    name: Seq<char>,
    dir: Seq<char>,
    dirs: Seq<Seq<char>>,
    fs: Seq<Seq<char>>,
)
    requires
        dirs.contains(dir),
        fs.contains(joined_path(dir, "lib"@ + name + ".a"@)),
    ensures
        statically_resolvable(name, State::Static(SystemDeps::SystemStatic), dirs, fs),
{
    assert(fs.contains(joined_path(dir, static_archive_names(name)[0])));
    assert(dir_provides_archive(fs, dir, name));
    let d = choose|d: int| 0 <= d < dirs.len() && dirs[d] == dir;
    assert(allows_system_static(State::Static(SystemDeps::SystemStatic)) && dir_provides_archive(
        fs,
        dirs[d],
        name,
    ));
}

/// Law: when system static archives are not allowed and every candidate
/// directory is a system directory, no library is statically resolvable,
/// whatever the filesystem holds.
pub proof fn lemma_system_dirs_excluded(name: Seq<char>, dirs: Seq<Seq<char>>, fs: Seq<Seq<char>>)
    requires
        forall|d: int| 0 <= d < dirs.len() ==> is_system_dir(#[trigger] dirs[d]),
    ensures
        !statically_resolvable(name, State::Static(SystemDeps::SystemDynamic), dirs, fs),
{
}

} // verus!
