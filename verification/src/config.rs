//! Startup validation: the three positional arguments must name two
//! existing directories and one existing regular file before any watcher
//! is created. The filesystem stat calls happen outside this crate; their
//! findings arrive here as plain [`PathKind`] values, and this module makes
//! every decision that follows from them.

use vstd::prelude::*;

verus! {

/// What a stat call found a configured path to be: an existing directory,
/// an existing regular file, or anything else (absent, or another kind of
/// entry).
#[derive(Clone, Copy, Debug, PartialEq, Eq, Structural)]
pub enum PathKind {
    Directory,
    File,
    Other,
}

/// A fatal startup configuration error. The process never starts watching
/// after one of these.
#[derive(Clone, Debug)]
pub enum ConfigError {
    /// Fewer than the three required positional arguments were given.
    MissingArguments { given: usize },
    /// A path that must name an existing directory does not.
    NotADirectory { path: String },
    /// A path that must name an existing regular file does not.
    NotAFile { path: String },
}

/// The validated mirror configuration: the watched source tree, the target
/// tree, and the exclusion-list file handed through to the external sync
/// tool. Created once at startup and never mutated.
#[derive(Clone, Debug)]
pub struct Mirror {
    pub source: String,
    pub target: String,
    pub ignorefile: String,
}

impl Mirror {
    pub fn new(source: &str, target: &str, ignorefile: &str) -> (mirror: Mirror)
        ensures
            mirror.source@ == source@,
            mirror.target@ == target@,
            mirror.ignorefile@ == ignorefile@,
    {
        Mirror { source: source.to_owned(), target: target.to_owned(), ignorefile: ignorefile.to_owned() }
    }

    /// The path of the tree watched as the source side.
    pub fn monitored(&self) -> (path: String)
        ensures
            path@ == self.source@,
    {
        self.source.clone()
    }

    /// The path of the tree mirrored into on a forward pass.
    pub fn target(&self) -> (path: String)
        ensures
            path@ == self.target@,
    {
        self.target.clone()
    }
}

/// Exactly three positional arguments are required: source directory,
/// target directory, exclusion-list file, in that order. With fewer, the
/// configuration is rejected before any path is even looked at.
pub fn check_arg_count(args: &Vec<String>) -> (result: Result<(), ConfigError>)
    ensures
        result is Ok <==> args@.len() >= 3,
        result matches Err(e) ==> e matches ConfigError::MissingArguments { given } && given == args@.len(),
{
    if args.len() < 3 {
        Err(ConfigError::MissingArguments { given: args.len() })
    } else {
        Ok(())
    }
}

/// The path validator: accepts the configuration exactly when the source
/// and target are directories and the exclusion list is a regular file,
/// and otherwise rejects it with the first offending path, checked in
/// argument order, tagged with what that path failed to be.
pub fn validate_paths(
    source: &str,
    target: &str,
    ignorefile: &str,
    source_kind: PathKind,
    target_kind: PathKind,
    ignorefile_kind: PathKind,
) -> (result: Result<Mirror, ConfigError>)
    ensures
        result is Ok <==> (source_kind is Directory && target_kind is Directory
            && ignorefile_kind is File),
        result matches Ok(mirror) ==> mirror.source@ == source@ && mirror.target@ == target@
            && mirror.ignorefile@ == ignorefile@,
        !(source_kind is Directory) ==> (result matches Err(e)
            && e matches ConfigError::NotADirectory { path } && path@ == source@),
        source_kind is Directory && !(target_kind is Directory) ==> (result matches Err(e)
            && e matches ConfigError::NotADirectory { path } && path@ == target@),
        source_kind is Directory && target_kind is Directory && !(ignorefile_kind is File)
            ==> (result matches Err(e) && e matches ConfigError::NotAFile { path }
            && path@ == ignorefile@),
{
    if !matches!(source_kind, PathKind::Directory) {
        Err(ConfigError::NotADirectory { path: source.to_owned() })
    } else if !matches!(target_kind, PathKind::Directory) {
        Err(ConfigError::NotADirectory { path: target.to_owned() })
    } else if !matches!(ignorefile_kind, PathKind::File) {
        Err(ConfigError::NotAFile { path: ignorefile.to_owned() })
    } else {
        Ok(Mirror::new(source, target, ignorefile))
    }
}

} // verus!
