//! Where the text is written.

use vstd::prelude::*;
use vstd::string::*;
use crate::failure::{Failure, FailureView};

verus! {

/// What the file system holds at the target path.
#[derive(Debug, Clone, Copy, PartialEq, Eq, Structural)]
pub enum TargetKind {
    /// Nothing.
    Missing,
    /// Something that is no directory.
    File,
    /// A directory.
    Directory,
}

/// The name of the file that is written into a target directory.
pub const DEFAULT_FILE_NAME: &'static str = "main.rs";

/// What parts a directory from what is in it.
pub const SEPARATOR: char = '/';

/// The path of the entry `name` of the directory `dir`: the two with one
/// separator between them, which an empty `dir`, or one that ends in a
/// separator already, does not get.
pub open spec fn joined_path(dir: Seq<char>, name: Seq<char>) -> Seq<char> {
    if dir.len() == 0 || dir.last() == SEPARATOR {
        dir + name
    } else {
        dir + seq![SEPARATOR] + name
    }
}

/// The path of the entry `name` of the directory `dir`.
pub fn join_path(dir: &str, name: &str) -> (joined: String)
    ensures
        joined@ == joined_path(dir@, name@),
{
    let n: usize = dir.unicode_len();
    let mut joined = dir.to_owned();
    if n > 0 && dir.get_char(n - 1) != SEPARATOR {
        joined.append("/");
        proof {
            reveal_strlit("/");
            assert("/"@ =~= seq![SEPARATOR]);
        }
    }
    joined.append(name);
    joined
}

/// The path to write to for a target of a kind: the target itself where it is
/// a file, the default file inside it where it is a directory, and a failure
/// that names the target where nothing is there.
pub open spec fn write_path(target: Seq<char>, kind: TargetKind) -> Result<
    Seq<char>,
    FailureView,
> {
    match kind {
        TargetKind::Missing => Err(FailureView::TargetNotFound { path: target }),
        TargetKind::File => Ok(target),
        TargetKind::Directory => Ok(joined_path(target, DEFAULT_FILE_NAME@)),
    }
}

/// The path to write to, as [`write_path`] gives it.
pub fn resolve_write_path(target: &str, kind: TargetKind) -> (resolved: Result<String, Failure>)
    ensures
        match write_path(target@, kind) {
            Ok(path) => resolved matches Ok(found) && found@ == path,
            Err(failure) => resolved matches Err(found) && found@ == failure,
        },
{
    match kind {
        TargetKind::Missing => Err(Failure::TargetNotFound { path: target.to_owned() }),
        TargetKind::File => Ok(target.to_owned()),
        TargetKind::Directory => Ok(join_path(target, DEFAULT_FILE_NAME)),
    }
}

} // verus!
