//! Build-time resolution of native-library linkage.
//!
//! Given a package name and a list of modifier strings, this library decides
//! how the package's native dependencies should be linked: dynamically,
//! statically, or conditionally on a build-time configuration flag. It parses
//! the output of an external package-metadata tool, classifies each reported
//! library as statically resolvable or not against a set of candidate search
//! directories, and emits mutually exclusive, configuration-gated directive
//! blocks for a downstream build step to interpret.
//!
//! The library itself performs no I/O: the surrounding build tool runs the
//! metadata tool, lists the filesystem, and reads the environment, and hands
//! the results in as plain values.

pub mod directives;
pub mod envpath;
pub mod modifiers;
pub mod query;
pub mod resolver;
pub mod state;
pub mod strutil;
