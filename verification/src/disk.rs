//! An idealised filesystem, and what the commands do to it.
//!
//! The disk is a map from paths to files and directories. It is ideal in
//! that a request fails for want of a file or a directory only: there are no
//! permissions, no full device, no text that is not UTF-8. It takes every
//! path as written: two spellings of one place are two places to it, so it
//! speaks for a host only as far as each place is spelt one way.

use vstd::prelude::*;
use crate::model::{after_entries, after_text, EntryView, ReplyView, StepView};
use crate::path::parent_of;

verus! {

/// What stands at a path.
pub enum Node {
    /// A regular file with its text.
    File(Seq<char>),
    /// A directory.
    Dir,
}

/// What is left of `path` after its parent was taken `n` times, as long as
/// there is a parent to take.
pub open spec fn ancestor(path: Seq<char>, n: nat) -> Option<Seq<char>>
    decreases n,
{
    if n == 0 {
        Some(path)
    } else {
        match ancestor(path, (n - 1) as nat) {
            Some(below) => parent_of(below),
            None => None,
        }
    }
}

/// Whether `dir` is `path` itself or one of the directories above it. The
/// empty path stands for the place that relative paths start from; it is
/// none of them.
pub open spec fn leads_to(dir: Seq<char>, path: Seq<char>) -> bool {
    dir.len() > 0 && exists|n: nat| ancestor(path, n) == Some(dir)
}

/// The state of the host as far as the commands can tell.
pub struct Disk {
    /// What stands at each path that exists.
    pub nodes: Map<Seq<char>, Node>,
    /// The application's data directory, where the host can resolve one.
    pub data_dir: Option<Seq<char>>,
}

impl Disk {
    /// Whether anything stands at `path`.
    pub open spec fn has(self, path: Seq<char>) -> bool {
        self.nodes.contains_key(path)
    }

    /// Whether a regular file stands at `path`.
    pub open spec fn is_file(self, path: Seq<char>) -> bool {
        self.has(path) && self.nodes[path] is File
    }

    /// Whether a directory stands at `path`.
    pub open spec fn is_dir(self, path: Seq<char>) -> bool {
        self.has(path) && self.nodes[path] is Dir
    }

    /// The text with which the disk turns `request` down. Nothing is said of
    /// it: the commands pass it on and never read it.
    pub closed spec fn refusal(self, request: StepView) -> Seq<char> {
        arbitrary()
    }

    /// The entries that the disk enumerates for the directory at `path`.
    /// Which names they bear and in which order they come is left open.
    pub closed spec fn entries(self, path: Seq<char>) -> Seq<EntryView> {
        arbitrary()
    }

    /// Whether `path` can be made a directory with all that leads to it: no
    /// file stands in the way.
    pub open spec fn can_create(self, path: Seq<char>) -> bool {
        forall|dir: Seq<char>| leads_to(dir, path) ==> !self.is_file(dir)
    }

    /// The disk once `path` and all that leads to it are directories.
    pub open spec fn created(self, path: Seq<char>) -> Disk {
        Disk {
            nodes: Map::new(
                |p: Seq<char>| self.has(p) || leads_to(p, path),
                |p: Seq<char>|
                    if self.has(p) {
                        self.nodes[p]
                    } else {
                        Node::Dir
                    },
            ),
            data_dir: self.data_dir,
        }
    }

    /// Whether a file can be written at `path`: the path names something
    /// below a directory that exists, and is no directory itself.
    pub open spec fn can_write(self, path: Seq<char>) -> bool {
        &&& path.len() > 0
        &&& !self.is_dir(path)
        &&& parent_of(path) matches Some(dir) && (dir.len() == 0 || self.is_dir(dir))
    }

    /// The disk once the file at `path` holds `content` and nothing else.
    pub open spec fn written(self, path: Seq<char>, content: Seq<char>) -> Disk {
        Disk { nodes: self.nodes.insert(path, Node::File(content)), data_dir: self.data_dir }
    }

    /// The disk once nothing stands at `path`.
    pub open spec fn removed(self, path: Seq<char>) -> Disk {
        Disk { nodes: self.nodes.remove(path), data_dir: self.data_dir }
    }

    /// What carrying out `step` and all that follows it leaves of the disk,
    /// and the reply that the command ends with.
    pub open spec fn serve(self, step: StepView) -> (Disk, ReplyView)
        decreases step.rank(),
    {
        match step {
            StepView::Finish(reply) => (self, reply),
            StepView::ResolveDataDir => match self.data_dir {
                Some(dir) => self.serve(after_text(Ok(dir))),
                None => self.serve(after_text(Err(self.refusal(step)))),
            },
            StepView::ReadToString { path } => if self.is_file(path) {
                self.serve(after_text(Ok(self.nodes[path]->File_0)))
            } else {
                self.serve(after_text(Err(self.refusal(step))))
            },
            StepView::CreateDirAll { path, next } => if self.can_create(path) {
                self.created(path).serve(next.resume(Ok(())))
            } else {
                self.serve(next.resume(Err(self.refusal(step))))
            },
            StepView::Write { path, content, next } => if self.can_write(path) {
                self.written(path, content).serve(next.resume(Ok(())))
            } else {
                self.serve(next.resume(Err(self.refusal(step))))
            },
            StepView::RemoveFile { path, next } => if self.is_file(path) {
                self.removed(path).serve(next.resume(Ok(())))
            } else {
                self.serve(next.resume(Err(self.refusal(step))))
            },
            StepView::Exists { path, next } => self.serve(next.resume(self.has(path))),
            StepView::ReadDir { path } => if self.is_dir(path) {
                self.serve(after_entries(Ok(self.entries(path))))
            } else {
                self.serve(after_entries(Err(self.refusal(step))))
            },
        }
    }
}

} // verus!
