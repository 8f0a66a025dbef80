//! The steps of a command as the host sees them, and the sessions that take
//! the host's answers.

use vstd::prelude::*;
use crate::listing::{entries_view, names, texts};
use crate::model::{
    after_entries, after_text, AwaitDoneView, AwaitFlagView, EntryView, ReplyView, StepView,
};

verus! {

/// What a command gives back to its caller.
#[derive(Debug, Clone, PartialEq, Eq)]
pub enum Reply {
    /// The command went through and has nothing to report.
    Unit,
    /// A text: a file's contents, or the data directory.
    Text(String),
    /// Whether something is there.
    Flag(bool),
    /// The names found in a directory.
    Names(Vec<String>),
    /// The command failed; the text is the host's own.
    Error(String),
}

impl View for Reply {
    type V = ReplyView;

    open spec fn view(&self) -> ReplyView {
        match self {
            Reply::Unit => ReplyView::Unit,
            Reply::Text(text) => ReplyView::Text(text@),
            Reply::Flag(flag) => ReplyView::Flag(*flag),
            Reply::Names(found) => ReplyView::Names(texts(found@)),
            Reply::Error(error) => ReplyView::Error(error@),
        }
    }
}

/// Takes the answer to a request that yields nothing: making directories,
/// writing or removing a file.
#[derive(Debug, Clone, PartialEq, Eq)]
pub enum AwaitDone {
    /// The answer is the reply.
    Reply,
    /// The directories stand; the file is written next.
    Write { path: String, content: String },
}

impl View for AwaitDone {
    type V = AwaitDoneView;

    open spec fn view(&self) -> AwaitDoneView {
        match self {
            AwaitDone::Reply => AwaitDoneView::Reply,
            AwaitDone::Write { path, content } => AwaitDoneView::Write {
                path: path@,
                content: content@,
            },
        }
    }
}

/// Takes the answer to a request for a text.
#[derive(Debug, Clone, PartialEq, Eq)]
pub struct AwaitText {}

/// Takes the answer to the question whether a path exists.
#[derive(Debug, Clone, PartialEq, Eq)]
pub enum AwaitFlag {
    /// The answer is the reply.
    Reply,
    /// The file is removed if it is there.
    Remove { path: String },
    /// The directory is read if it is there.
    List { path: String },
}

impl View for AwaitFlag {
    type V = AwaitFlagView;

    open spec fn view(&self) -> AwaitFlagView {
        match self {
            AwaitFlag::Reply => AwaitFlagView::Reply,
            AwaitFlag::Remove { path } => AwaitFlagView::Remove { path: path@ },
            AwaitFlag::List { path } => AwaitFlagView::List { path: path@ },
        }
    }
}

/// Takes the entries of a directory that was read.
#[derive(Debug, Clone, PartialEq, Eq)]
pub struct AwaitEntries {}

/// One step of a command: its reply, or one request for the host. A request
/// comes with the session that takes the host's answer; the answer's type is
/// fixed by the session's.
#[allow(inconsistent_fields)]
#[derive(Debug, Clone, PartialEq, Eq)]
pub enum Step {
    /// The command is over: this is what its caller gets.
    Finish(Reply),
    /// Ask the host's path service for the application's data directory.
    ResolveDataDir { next: AwaitText },
    /// Read the whole file at `path` as UTF-8 text.
    ReadToString { path: String, next: AwaitText },
    /// Make the directory at `path` and every missing directory above it.
    CreateDirAll { path: String, next: AwaitDone },
    /// Make `content` the whole contents of the file at `path`.
    Write { path: String, content: String, next: AwaitDone },
    /// Remove the regular file at `path`.
    RemoveFile { path: String, next: AwaitDone },
    /// Say whether anything exists at `path`.
    Exists { path: String, next: AwaitFlag },
    /// Enumerate the directory at `path`: for each entry its name, or the
    /// error that reading it gave.
    ReadDir { path: String, next: AwaitEntries },
}

impl View for Step {
    type V = StepView;

    open spec fn view(&self) -> StepView {
        match self {
            Step::Finish(reply) => StepView::Finish(reply@),
            Step::ResolveDataDir { .. } => StepView::ResolveDataDir,
            Step::ReadToString { path, .. } => StepView::ReadToString { path: path@ },
            Step::CreateDirAll { path, next } => StepView::CreateDirAll {
                path: path@,
                next: next@,
            },
            Step::Write { path, content, next } => StepView::Write {
                path: path@,
                content: content@,
                next: next@,
            },
            Step::RemoveFile { path, next } => StepView::RemoveFile { path: path@, next: next@ },
            Step::Exists { path, next } => StepView::Exists { path: path@, next: next@ },
            Step::ReadDir { path, .. } => StepView::ReadDir { path: path@ },
        }
    }
}

/// The host's answer to a request that yields nothing, as the model has it.
pub open spec fn done_view(answer: Result<(), String>) -> Result<(), Seq<char>> {
    match answer {
        Ok(_) => Ok(()),
        Err(error) => Err(error@),
    }
}

/// The host's answer to a request for a text, as the model has it.
pub open spec fn text_view(answer: Result<String, String>) -> Result<Seq<char>, Seq<char>> {
    match answer {
        Ok(text) => Ok(text@),
        Err(error) => Err(error@),
    }
}

/// The host's answer to a request to read a directory, as the model has it.
pub open spec fn listing_view(answer: Result<Vec<Result<String, String>>, String>) -> Result<
    Seq<EntryView>,
    Seq<char>,
> {
    match answer {
        Ok(entries) => Ok(entries_view(entries@)),
        Err(error) => Err(error@),
    }
}

impl AwaitDone {
    /// The step after the host's answer. An error ends the command and is
    /// passed on unchanged; after the directories, the file is written.
    pub fn resume(self, answer: Result<(), String>) -> (step: Step)
        ensures
            step@ == self@.resume(done_view(answer)),
    {
        match answer {
            Err(error) => Step::Finish(Reply::Error(error)),
            Ok(_) => match self {
                AwaitDone::Reply => Step::Finish(Reply::Unit),
                AwaitDone::Write { path, content } => Step::Write {
                    path,
                    content,
                    next: AwaitDone::Reply,
                },
            },
        }
    }
}

impl AwaitText {
    /// The step after the host's answer: the command ends with the text, or
    /// with the host's error, either passed on unchanged.
    pub fn resume(self, answer: Result<String, String>) -> (step: Step)
        ensures
            step@ == after_text(text_view(answer)),
    {
        match answer {
            Ok(text) => Step::Finish(Reply::Text(text)),
            Err(error) => Step::Finish(Reply::Error(error)),
        }
    }
}

impl AwaitFlag {
    /// The step after the host said whether the path exists. Where nothing
    /// is there, a removal ends well at once and a listing ends empty.
    pub fn resume(self, found: bool) -> (step: Step)
        ensures
            step@ == self@.resume(found),
    {
        match self {
            AwaitFlag::Reply => Step::Finish(Reply::Flag(found)),
            AwaitFlag::Remove { path } => if found {
                Step::RemoveFile { path, next: AwaitDone::Reply }
            } else {
                Step::Finish(Reply::Unit)
            },
            AwaitFlag::List { path } => if found {
                Step::ReadDir { path, next: AwaitEntries {  } }
            } else {
                let found_names: Vec<String> = Vec::new();
                assert(texts(found_names@) =~= Seq::<Seq<char>>::empty());
                Step::Finish(Reply::Names(found_names))
            },
        }
    }
}

impl AwaitEntries {
    /// The step after the directory was read: the command ends with the
    /// names of the entries that could be read, or with the host's error
    /// where the directory itself could not.
    pub fn resume(self, answer: Result<Vec<Result<String, String>>, String>) -> (step: Step)
        ensures
            step@ == after_entries(listing_view(answer)),
    {
        match answer {
            Ok(entries) => Step::Finish(Reply::Names(names(entries))),
            Err(error) => Step::Finish(Reply::Error(error)),
        }
    }
}

} // verus!
