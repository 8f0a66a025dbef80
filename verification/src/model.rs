//! The commands as mathematics: steps and replies over sequences of
//! characters, and the functions from one step to the next.

use vstd::prelude::*;
use crate::path::parent_of;

verus! {

/// What a command gives back to its caller.
pub enum ReplyView {
    /// The command went through and has nothing to report.
    Unit,
    /// A text: a file's contents, or the data directory.
    Text(Seq<char>),
    /// Whether something is there.
    Flag(bool),
    /// The names found in a directory.
    Names(Seq<Seq<char>>),
    /// The command failed; the text is the host's own.
    Error(Seq<char>),
}

/// What is left to do once a request that yields nothing was answered.
pub enum AwaitDoneView {
    /// Nothing: the answer is the reply.
    Reply,
    /// The directories stand; the file is written next.
    Write { path: Seq<char>, content: Seq<char> },
}

/// What is left to do once the host said whether a path exists.
pub enum AwaitFlagView {
    /// Nothing: the answer is the reply.
    Reply,
    /// The file is removed if it is there.
    Remove { path: Seq<char> },
    /// The directory is read if it is there.
    List { path: Seq<char> },
}

/// One step of a command: its reply, or a request for the host together
/// with what follows the answer.
#[allow(inconsistent_fields)]
pub enum StepView {
    Finish(ReplyView),
    ResolveDataDir,
    ReadToString { path: Seq<char> },
    CreateDirAll { path: Seq<char>, next: AwaitDoneView },
    Write { path: Seq<char>, content: Seq<char>, next: AwaitDoneView },
    RemoveFile { path: Seq<char>, next: AwaitDoneView },
    Exists { path: Seq<char>, next: AwaitFlagView },
    ReadDir { path: Seq<char> },
}

/// One entry of a directory as the host enumerates it: its name, or the
/// error that enumerating it gave.
pub type EntryView = Result<Seq<char>, Seq<char>>;

/// The names of the entries that were enumerated without error, in the order
/// in which they came.
pub open spec fn ok_names(entries: Seq<EntryView>) -> Seq<Seq<char>> {
    entries.filter(|e: EntryView| e is Ok).map_values(|e: EntryView| e->Ok_0)
}

/// The step after a text was asked for: the text, or the host's error.
pub open spec fn after_text(answer: Result<Seq<char>, Seq<char>>) -> StepView {
    match answer {
        Ok(text) => StepView::Finish(ReplyView::Text(text)),
        Err(error) => StepView::Finish(ReplyView::Error(error)),
    }
}

/// The step after a directory was read: the names of its readable entries,
/// or the host's error where the directory itself could not be read.
pub open spec fn after_entries(answer: Result<Seq<EntryView>, Seq<char>>) -> StepView {
    match answer {
        Ok(entries) => StepView::Finish(ReplyView::Names(ok_names(entries))),
        Err(error) => StepView::Finish(ReplyView::Error(error)),
    }
}

impl AwaitDoneView {
    /// The step after the host's answer: a failure ends the command with the
    /// host's error, a success leads on.
    pub open spec fn resume(self, answer: Result<(), Seq<char>>) -> StepView {
        match answer {
            Err(error) => StepView::Finish(ReplyView::Error(error)),
            Ok(_) => match self {
                AwaitDoneView::Reply => StepView::Finish(ReplyView::Unit),
                AwaitDoneView::Write { path, content } => StepView::Write {
                    path,
                    content,
                    next: AwaitDoneView::Reply,
                },
            },
        }
    }

    /// How many requests may still follow the one that is out.
    pub open spec fn rank(self) -> nat {
        match self {
            AwaitDoneView::Reply => 0,
            AwaitDoneView::Write { .. } => 1,
        }
    }
}

impl AwaitFlagView {
    /// The step after the host said whether the path exists.
    pub open spec fn resume(self, found: bool) -> StepView {
        match self {
            AwaitFlagView::Reply => StepView::Finish(ReplyView::Flag(found)),
            AwaitFlagView::Remove { path } => if found {
                StepView::RemoveFile { path, next: AwaitDoneView::Reply }
            } else {
                StepView::Finish(ReplyView::Unit)
            },
            AwaitFlagView::List { path } => if found {
                StepView::ReadDir { path }
            } else {
                StepView::Finish(ReplyView::Names(Seq::empty()))
            },
        }
    }

    /// How many requests may still follow the one that is out.
    pub open spec fn rank(self) -> nat {
        match self {
            AwaitFlagView::Reply => 0,
            _ => 1,
        }
    }
}

impl StepView {
    /// How many requests the command may still make, this one included.
    pub open spec fn rank(self) -> nat {
        match self {
            StepView::Finish(_) => 0,
            StepView::ResolveDataDir => 1,
            StepView::ReadToString { .. } => 1,
            StepView::ReadDir { .. } => 1,
            StepView::CreateDirAll { next, .. } => 1 + next.rank(),
            StepView::Write { next, .. } => 1 + next.rank(),
            StepView::RemoveFile { next, .. } => 1 + next.rank(),
            StepView::Exists { next, .. } => 1 + next.rank(),
        }
    }

    /// Whether every reply that the work from this step on can end with,
    /// whatever the host answers, is one that `fits`.
    pub open spec fn ends_in(self, fits: spec_fn(ReplyView) -> bool) -> bool
        decreases self.rank(),
    {
        match self {
            StepView::Finish(reply) => fits(reply),
            StepView::ResolveDataDir | StepView::ReadToString { .. } => forall|
                answer: Result<Seq<char>, Seq<char>>,
            | #[trigger] after_text(answer).ends_in(fits),
            StepView::ReadDir { .. } => forall|answer: Result<Seq<EntryView>, Seq<char>>| #[trigger]
                after_entries(answer).ends_in(fits),
            StepView::CreateDirAll { next, .. }
            | StepView::Write { next, .. }
            | StepView::RemoveFile { next, .. } => forall|answer: Result<(), Seq<char>>| #[trigger]
                next.resume(answer).ends_in(fits),
            StepView::Exists { next, .. } => forall|found: bool| #[trigger]
                next.resume(found).ends_in(fits),
        }
    }
}

/// `get_data_dir`: the host's path service is asked for the application's
/// data directory.
pub open spec fn get_data_dir() -> StepView {
    StepView::ResolveDataDir
}

/// `read_file`: the whole file is read as text.
pub open spec fn read_file(path: Seq<char>) -> StepView {
    StepView::ReadToString { path }
}

/// `write_file`, once the path's parent is known: where there is one, it is
/// made with every missing directory above it, and only then the file is
/// written.
pub open spec fn write_file_under(
    parent: Option<Seq<char>>,
    path: Seq<char>,
    content: Seq<char>,
) -> StepView {
    match parent {
        Some(dir) => StepView::CreateDirAll {
            path: dir,
            next: AwaitDoneView::Write { path, content },
        },
        None => StepView::Write { path, content, next: AwaitDoneView::Reply },
    }
}

/// `write_file`: as `write_file_under`, with the parent that the path has.
pub open spec fn write_file(path: Seq<char>, content: Seq<char>) -> StepView {
    write_file_under(parent_of(path), path, content)
}

/// `delete_file`: the host is asked whether the path exists, and the file is
/// removed only if it does.
pub open spec fn delete_file(path: Seq<char>) -> StepView {
    StepView::Exists { path, next: AwaitFlagView::Remove { path } }
}

/// `list_dir`: the host is asked whether the path exists, and the directory
/// is read only if it does.
pub open spec fn list_dir(path: Seq<char>) -> StepView {
    StepView::Exists { path, next: AwaitFlagView::List { path } }
}

/// `ensure_dir`: the directory is made with every missing directory above it.
pub open spec fn ensure_dir(path: Seq<char>) -> StepView {
    StepView::CreateDirAll { path, next: AwaitDoneView::Reply }
}

/// `file_exists`: the host is asked whether the path exists.
pub open spec fn file_exists(path: Seq<char>) -> StepView {
    StepView::Exists { path, next: AwaitFlagView::Reply }
}

} // verus!
