use vstd::prelude::*;

verus! {

/// Whether system-wide installation directories may satisfy static resolution.
#[derive(Clone, Copy, Debug, PartialEq, Eq, Structural)]
pub enum SystemDeps {
    /// System directories may only provide dynamic libraries.
    SystemDynamic,
    /// Static archives found in system directories are acceptable.
    SystemStatic,
}

/// The resolution state of one linkage flavor.
#[derive(Clone, Copy, Debug, PartialEq, Eq, Structural)]
pub enum State {
    /// Link the dependencies dynamically.
    Dynamic,
    /// Link the dependencies statically, with the given system-directory policy.
    Static(SystemDeps),
}

/// Which of the two generated directive blocks is the unconditionally active one.
#[derive(Clone, Copy, Debug, PartialEq, Eq, Structural)]
pub enum Favor {
    /// The dynamic block is active unless the build configuration overrides it.
    FavorDynamic,
    /// The static block is active unless the build configuration overrides it.
    FavorStatic,
}

/// One resolved dependency: a library name and whether to link it statically.
pub struct Dep {
    /// The library name as reported by the metadata tool, flag marker stripped.
    pub name: String,
    /// True when a static archive for this library was found in a usable directory.
    pub statik: bool,
}

/// Everything one flavor's query produced, immutable once built.
pub struct LibInfo {
    /// The package that was queried.
    pub lib: String,
    /// The resolution state the query was made under.
    pub state: State,
    /// The reported libraries in tool-output order, each classified.
    pub deps: Vec<Dep>,
    /// The reported search locations in tool-output order, duplicates retained.
    pub locs: Vec<String>,
}

/// Why a flavor's query failed. No partial library list accompanies a failure.
#[derive(Debug)]
pub enum QueryError {
    /// The external metadata tool could not be started.
    ToolLaunch {
        /// The underlying system error, rendered as text.
        message: String,
    },
    /// The external metadata tool ran but exited unsuccessfully.
    ToolExit {
        /// The tool's exit code.
        status: i32,
        /// The tool's captured standard output, verbatim.
        stdout: String,
        /// The tool's captured standard error, verbatim.
        stderr: String,
    },
}

} // verus!
