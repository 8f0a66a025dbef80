//! The seven commands: each gives the first step of its work.

use vstd::prelude::*;
use crate::model;
use crate::path::{parent, parent_of};
use crate::step::{AwaitDone, AwaitEntries, AwaitFlag, AwaitText, Step};

verus! {

/// Resolves the application's data directory: the host's path service is
/// asked, and its answer, path or error, is the reply.
pub fn get_data_dir() -> (step: Step)
    ensures
        step@ == model::get_data_dir(),
{
    Step::ResolveDataDir { next: AwaitText {  } }
}

/// Reads the whole file at `path` as text. The reply is the text, or the
/// host's error where the file is missing, unreadable or not UTF-8.
pub fn read_file(path: String) -> (step: Step)
    ensures
        step@ == model::read_file(path@),
{
    Step::ReadToString { path, next: AwaitText {  } }
}

/// Writes `content` as the whole contents of the file at `path`, given the
/// path's parent. Where there is a parent, it is made first, with every
/// missing directory above it, and a failure there ends the command before
/// anything is written.
pub fn write_file_under(parent: Option<String>, path: String, content: String) -> (step: Step)
    ensures
        step@ == model::write_file_under(
            match parent {
                Some(dir) => Some(dir@),
                None => None,
            },
            path@,
            content@,
        ),
{
    match parent {
        Some(dir) => Step::CreateDirAll { path: dir, next: AwaitDone::Write { path, content } },
        None => Step::Write { path, content, next: AwaitDone::Reply },
    }
}

/// Writes `content` as the whole contents of the file at `path`, replacing
/// what was there. The directories above the file need not exist: they are
/// made first.
pub fn write_file(path: String, content: String) -> (step: Step)
    ensures
        step@ == model::write_file(path@, content@),
{
    let dir = parent(path.as_str());
    write_file_under(dir, path, content)
}

/// Removes the file at `path`. Where nothing exists there the command ends
/// well without asking for a removal; where something does, it is removed as
/// a regular file, and the host's error is the reply if that fails.
pub fn delete_file(path: String) -> (step: Step)
    ensures
        step@ == model::delete_file(path@),
{
    let asked = path.clone();
    Step::Exists { path: asked, next: AwaitFlag::Remove { path } }
}

/// Lists the names in the directory at `path`. Where nothing exists there
/// the reply is the empty list, not an error.
pub fn list_dir(path: String) -> (step: Step)
    ensures
        step@ == model::list_dir(path@),
{
    let asked = path.clone();
    Step::Exists { path: asked, next: AwaitFlag::List { path } }
}

/// Makes the directory at `path` and every missing directory above it.
pub fn ensure_dir(path: String) -> (step: Step)
    ensures
        step@ == model::ensure_dir(path@),
{
    Step::CreateDirAll { path, next: AwaitDone::Reply }
}

/// Says whether anything exists at `path`, file or directory.
pub fn file_exists(path: String) -> (step: Step)
    ensures
        step@ == model::file_exists(path@),
{
    Step::Exists { path, next: AwaitFlag::Reply }
}

} // verus!
