//! Filesystem probes and the directory walk.
//!
//! These are questions about the machine's state: whether a path is a
//! readable directory, whether it is an executable file, and what a
//! directory holds. No two runs need agree, so the probes promise nothing
//! of their outcome, and the walk promises only the shape of the paths it
//! hands back. Everything decided from these answers is decided in verified
//! code that takes them as arguments.

use vstd::prelude::*;

verus! {

/// Relies on std::path::Path::is_dir and faccess::PathExt::readable: a
/// probe of the machine's state; nothing is promised of the outcome.
#[verifier::external_body]
pub(crate) fn dir_readable(path: &str) -> bool {
    let p = std::path::Path::new(path);
    p.is_dir() && faccess::PathExt::readable(p)
}

/// Relies on std::path::Path::is_file and faccess::PathExt::executable: a
/// probe of the machine's state; nothing is promised of the outcome.
#[verifier::external_body]
pub(crate) fn file_executable(path: &str) -> bool {
    let p = std::path::Path::new(path);
    p.is_file() && faccess::PathExt::executable(p)
}

/// The root with exactly one trailing separator: what every entry below the
/// root begins with.
pub open spec fn base_of(root: Seq<char>) -> Seq<char> {
    if root.len() > 0 && root[root.len() - 1] == '/' {
        root
    } else {
        root.push('/')
    }
}

/// A walked path is the root itself, or the root's base followed by a
/// non-empty remainder.
pub open spec fn under_root(root: Seq<char>, p: Seq<char>) -> bool {
    ||| p == root
    ||| (p.len() > base_of(root).len() && p.subrange(0, base_of(root).len() as int) == base_of(
        root,
    ))
}

/// The walked path relative to the root: empty for the root itself, and
/// what follows the root's base otherwise. A path too short to lie under
/// the root has an empty remainder.
pub open spec fn rel_part(root: Seq<char>, p: Seq<char>) -> Seq<char> {
    if p == root {
        Seq::empty()
    } else if p.len() >= base_of(root).len() {
        p.skip(base_of(root).len() as int)
    } else {
        Seq::empty()
    }
}

/// A walked path at depth at most one: the root, or an immediate child,
/// whose name holds no further separator.
pub open spec fn child_shallow(root: Seq<char>, p: Seq<char>) -> bool {
    forall|j: int| 0 <= j < rel_part(root, p).len() ==> rel_part(root, p)[j] != '/'
}

/// Relies on walkdir::WalkDir: the walk starts at the given root and yields
/// the root and entries below it, each path being the root joined with the
/// entry's name chain; entries the walk cannot read are dropped; with the
/// depth capped at one, only the root and its immediate children are
/// yielded. Which entries exist depends on the machine's state.
#[verifier::external_body]
pub(crate) fn walk_paths(root: &str, recurse: bool) -> (r: Vec<String>)
    ensures
        forall|i: int| 0 <= i < r@.len() ==> under_root(root@, #[trigger] r@[i]@),
        !recurse ==> forall|i: int| 0 <= i < r@.len() ==> child_shallow(root@, #[trigger] r@[i]@),
{
    let walker = walkdir::WalkDir::new(root);
    let walker = if recurse {
        walker
    } else {
        walker.max_depth(1)
    };
    walker.into_iter().flatten().map(|e| e.path().to_string_lossy().into_owned()).collect()
}

} // verus!
