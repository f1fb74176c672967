//! Finding the file a client means by a target path.
//!
//! An absolute target is taken as it is. A relative target is looked for
//! under the workspace roots in the order the client gave them, and the first
//! root under which it exists wins. Without roots it is taken relative to the
//! working directory. Whether a path exists is not found out here: the caller
//! says so for each candidate.

use crate::error::{ToolError, ToolErrorKind};
use crate::paths::{is_absolute, is_absolute_path, join, joined};
use crate::text::{
    contains_text, has_prefix, join_strings, joined_with, lemma_contains_in_concat,
    lemma_joined_contains, strip_prefix, views,
};
use vstd::prelude::*;

verus! {

/// A directory that the client has declared as a base for relative targets.
#[derive(Debug, Clone)]
pub struct WorkspaceRoot {
    /// The directory, as a `file://` address or as a bare path.
    pub uri: String,
    /// What the client calls the root.
    pub name: Option<String>,
}

/// The prefix of a root given as an address.
pub const FILE_SCHEME: &'static str = "file://";

/// The beginning of the message for a target found under no root.
pub const NOT_FOUND_HEAD: &'static str = "Path '";

/// What stands between the target and the roots in that message.
pub const NOT_FOUND_MIDDLE: &'static str = "' not found in any root directory. Available roots: ";

/// The beginning of the message for a working directory that is not known.
pub const CURRENT_DIRECTORY_HEAD: &'static str = "Failed to get current directory: ";

/// The directory a root stands for: its address without `file://`, or the
/// root as it is where it is a bare path.
pub open spec fn root_directory(uri: Seq<char>) -> Seq<char> {
    if has_prefix(uri, FILE_SCHEME@) {
        uri.skip(FILE_SCHEME@.len() as int)
    } else {
        uri
    }
}

/// What a root is called in messages: its name, or its address where it has
/// no name.
pub open spec fn root_label(root: WorkspaceRoot) -> Seq<char> {
    match root.name {
        Some(name) => name@,
        None => root.uri@,
    }
}

/// The labels of the roots, in order.
pub open spec fn root_labels(roots: Seq<WorkspaceRoot>) -> Seq<Seq<char>> {
    Seq::new(roots.len(), |i: int| root_label(roots[i]))
}

/// The path that `target` has under each root, in order.
pub open spec fn candidates(roots: Seq<WorkspaceRoot>, target: Seq<char>) -> Seq<Seq<char>> {
    Seq::new(roots.len(), |i: int| joined(root_directory(roots[i].uri@), target))
}

/// Whether candidate `i` exists according to `exists`. A candidate that
/// `exists` says nothing of counts as absent.
pub open spec fn exists_at(exists: Seq<bool>, i: int) -> bool {
    0 <= i < exists.len() && exists[i]
}

/// The first of the candidates `from..limit` that exists.
pub open spec fn first_existing(exists: Seq<bool>, limit: int, from: int) -> Option<int>
    decreases limit - from,
{
    if from < 0 || from >= limit {
        None
    } else if exists_at(exists, from) {
        Some(from)
    } else {
        first_existing(exists, limit, from + 1)
    }
}

/// The message for a target found under no root.
pub open spec fn not_found_message(target: Seq<char>, labels: Seq<Seq<char>>) -> Seq<char> {
    NOT_FOUND_HEAD@ + target + NOT_FOUND_MIDDLE@ + joined_with(labels, ", "@)
}

/// Where `target` is found, given the working directory (or why it is not
/// known) and, for each root's candidate, whether it exists.
pub open spec fn resolution(
    roots: Seq<WorkspaceRoot>,
    target: Seq<char>,
    cwd: Result<Seq<char>, Seq<char>>,
    exists: Seq<bool>,
) -> Result<Seq<char>, (ToolErrorKind, Seq<char>)> {
    if is_absolute_path(target) {
        Ok(target)
    } else if roots.len() == 0 {
        match cwd {
            Ok(dir) => Ok(joined(dir, target)),
            Err(reason) => Err((ToolErrorKind::CurrentDirectory, CURRENT_DIRECTORY_HEAD@ + reason)),
        }
    } else {
        choice_among(candidates(roots, target), root_labels(roots), target, exists)
    }
}

/// The working directory, or why it is not known, by its views.
pub open spec fn cwd_view(cwd: Result<String, String>) -> Result<Seq<char>, Seq<char>> {
    match cwd {
        Ok(dir) => Ok(dir@),
        Err(reason) => Err(reason@),
    }
}

/// The directory a root stands for.
pub fn root_path(root: &WorkspaceRoot) -> (dir: String)
    ensures
        dir@ == root_directory(root.uri@),
{
    match strip_prefix(root.uri.as_str(), FILE_SCHEME) {
        Some(path) => path,
        None => root.uri.clone(),
    }
}

/// The path that `target` has under each root, in order: the paths whose
/// existence decides where a relative target is found.
pub fn candidate_paths(roots: &Vec<WorkspaceRoot>, target: &str) -> (paths: Vec<String>)
    ensures
        views(paths@) == candidates(roots@, target@),
{
    let mut paths: Vec<String> = Vec::new();
    let mut i: usize = 0;
    while i < roots.len()
        invariant
            i <= roots.len(),
            paths.len() == i,
            forall|k: int| 0 <= k < i ==> (#[trigger] paths[k])@ == candidates(roots@, target@)[k],
        decreases roots.len() - i,
    {
        let dir = root_path(&roots[i]);
        paths.push(join(dir.as_str(), target));
        i = i + 1;
    }
    assert(views(paths@) =~= candidates(roots@, target@));
    paths
}

/// What each root is called in messages, in order.
pub fn root_names(roots: &Vec<WorkspaceRoot>) -> (names: Vec<String>)
    ensures
        views(names@) == root_labels(roots@),
{
    let mut names: Vec<String> = Vec::new();
    let mut i: usize = 0;
    while i < roots.len()
        invariant
            i <= roots.len(),
            names.len() == i,
            forall|k: int| 0 <= k < i ==> (#[trigger] names[k])@ == root_label(roots@[k]),
        decreases roots.len() - i,
    {
        let name = match &roots[i].name {
            Some(name) => name.clone(),
            None => roots[i].uri.clone(),
        };
        names.push(name);
        i = i + 1;
    }
    assert(views(names@) =~= root_labels(roots@));
    names
}

/// Where a relative target is found among the candidates it has under the
/// roots called `labels`: the first candidate that exists.
pub open spec fn choice_among(
    found: Seq<Seq<char>>,
    labels: Seq<Seq<char>>,
    target: Seq<char>,
    exists: Seq<bool>,
) -> Result<Seq<char>, (ToolErrorKind, Seq<char>)> {
    match first_existing(exists, found.len() as int, 0) {
        Some(i) => Ok(found[i]),
        None => Err((ToolErrorKind::PathNotFound, not_found_message(target, labels))),
    }
}

/// Picks the first candidate that exists. `found` holds the paths that
/// `target` has under the roots, `labels` what the roots are called, and
/// `exists` says for each candidate whether it exists.
pub fn resolve_among(
    found: &Vec<String>,
    labels: &Vec<String>,
    target: &str,
    exists: &Vec<bool>,
) -> (r: Result<String, ToolError>)
    ensures
        match r {
            Ok(path) => choice_among(views(found@), views(labels@), target@, exists@) == Ok::<
                Seq<char>,
                (ToolErrorKind, Seq<char>),
            >(path@),
            Err(e) => choice_among(views(found@), views(labels@), target@, exists@) == Err::<
                Seq<char>,
                (ToolErrorKind, Seq<char>),
            >((e.kind, e.message@)),
        },
{
    let mut i: usize = 0;
    while i < found.len()
        invariant
            i <= found.len(),
            first_existing(exists@, found.len() as int, 0) == first_existing(
                exists@,
                found.len() as int,
                i as int,
            ),
        decreases found.len() - i,
    {
        if i < exists.len() && exists[i] {
            return Ok(found[i].clone());
        }
        i = i + 1;
    }
    let mut message = NOT_FOUND_HEAD.to_owned();
    message.append(target);
    message.append(NOT_FOUND_MIDDLE);
    message.append(join_strings(labels, ", ").as_str());
    Err(ToolError::new(ToolErrorKind::PathNotFound, message))
}

/// Resolves `target` against `roots`. `cwd` is the working directory, or the
/// reason why it is not known; `exists` says for each root, in order, whether
/// the target exists under it.
pub fn resolve_path(
    roots: &Vec<WorkspaceRoot>,
    target: &str,
    cwd: &Result<String, String>,
    exists: &Vec<bool>,
) -> (r: Result<String, ToolError>)
    ensures
        match r {
            Ok(path) => resolution(roots@, target@, cwd_view(*cwd), exists@) == Ok::<
                Seq<char>,
                (ToolErrorKind, Seq<char>),
            >(path@),
            Err(e) => resolution(roots@, target@, cwd_view(*cwd), exists@) == Err::<
                Seq<char>,
                (ToolErrorKind, Seq<char>),
            >((e.kind, e.message@)),
        },
{
    if is_absolute(target) {
        return Ok(target.to_owned());
    }
    if roots.len() == 0 {
        return match cwd {
            Ok(dir) => Ok(join(dir.as_str(), target)),
            Err(reason) => {
                let mut message = CURRENT_DIRECTORY_HEAD.to_owned();
                message.append(reason.as_str());
                Err(ToolError::new(ToolErrorKind::CurrentDirectory, message))
            },
        };
    }
    let found = candidate_paths(roots, target);
    let labels = root_names(roots);
    resolve_among(&found, &labels, target, exists)
}

/// An absolute target resolves to itself, whatever the roots, the working
/// directory and the file system.
pub proof fn lemma_absolute_target_unchanged(
    roots: Seq<WorkspaceRoot>,
    target: Seq<char>,
    cwd: Result<Seq<char>, Seq<char>>,
    exists: Seq<bool>,
)
    requires
        is_absolute_path(target),
    ensures
        resolution(roots, target, cwd, exists) == Ok::<Seq<char>, (ToolErrorKind, Seq<char>)>(
            target,
        ),
{
}

/// Without roots a relative target resolves to its path from the working
/// directory, whatever the file system holds.
pub proof fn lemma_no_roots_uses_working_directory(
    target: Seq<char>,
    dir: Seq<char>,
    exists: Seq<bool>,
)
    requires
        !is_absolute_path(target),
    ensures
        resolution(Seq::empty(), target, Ok(dir), exists) == Ok::<
            Seq<char>,
            (ToolErrorKind, Seq<char>),
        >(joined(dir, target)),
{
}

/// What `first_existing` finds exists and nothing before it does; it finds
/// nothing only where nothing exists.
pub proof fn lemma_first_existing(exists: Seq<bool>, limit: int, from: int)
    requires
        0 <= from,
    ensures
        match first_existing(exists, limit, from) {
            Some(i) => from <= i < limit && exists_at(exists, i) && forall|j: int|
                from <= j < i ==> !exists_at(exists, j),
            None => forall|j: int| from <= j < limit ==> !exists_at(exists, j),
        },
    decreases limit - from,
{
    if from < limit && !exists_at(exists, from) {
        lemma_first_existing(exists, limit, from + 1);
    }
}

/// With roots, a relative target resolves to its path under the first root
/// under which it exists. Where it exists under none the resolution fails,
/// and the message names the target's roots, every one of them.
pub proof fn lemma_first_existing_root_wins(
    roots: Seq<WorkspaceRoot>,
    target: Seq<char>,
    cwd: Result<Seq<char>, Seq<char>>,
    exists: Seq<bool>,
)
    requires
        !is_absolute_path(target),
        roots.len() > 0,
    ensures
        match resolution(roots, target, cwd, exists) {
            Ok(path) => exists|i: int|
                0 <= i < roots.len() && path == joined(root_directory(roots[i].uri@), target)
                    && exists_at(exists, i) && forall|j: int| 0 <= j < i ==> !exists_at(exists, j),
            Err((kind, message)) => kind == ToolErrorKind::PathNotFound && (forall|j: int|
                0 <= j < roots.len() ==> !exists_at(exists, j)) && (forall|j: int|
                0 <= j < roots.len() ==> contains_text(message, #[trigger] root_label(roots[j]))),
        },
{
    lemma_first_existing(exists, roots.len() as int, 0);
    match first_existing(exists, roots.len() as int, 0) {
        Some(i) => {
            assert(candidates(roots, target)[i] == joined(root_directory(roots[i].uri@), target));
        },
        None => {
            let labels = root_labels(roots);
            let message = not_found_message(target, labels);
            assert forall|j: int| 0 <= j < roots.len() implies contains_text(
                message,
                #[trigger] root_label(roots[j]),
            ) by {
                lemma_joined_contains(labels, ", "@, j);
                lemma_contains_in_concat(
                    NOT_FOUND_HEAD@ + target + NOT_FOUND_MIDDLE@,
                    joined_with(labels, ", "@),
                    Seq::empty(),
                    labels[j],
                );
                assert(NOT_FOUND_HEAD@ + target + NOT_FOUND_MIDDLE@ + joined_with(labels, ", "@)
                    + Seq::<char>::empty() =~= message);
            }
        },
    }
}

} // verus!
