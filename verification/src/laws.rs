//! What the commands promise on the idealised disk.

use vstd::prelude::*;
use crate::disk::{leads_to, Disk};
use crate::model::{
    delete_file, ensure_dir, file_exists, get_data_dir, list_dir, read_file, write_file,
    ReplyView, StepView,
};
use crate::path::parent_of;

verus! {

/// Each command ends with a reply of its own kind, whatever the host answers:
/// a text, nothing, or the names found, or else an error; and `file_exists`
/// with a flag, never with an error.
pub proof fn reply_kinds(path: Seq<char>, content: Seq<char>)
    ensures
        get_data_dir().ends_in(|r: ReplyView| r is Text || r is Error),
        read_file(path).ends_in(|r: ReplyView| r is Text || r is Error),
        write_file(path, content).ends_in(|r: ReplyView| r is Unit || r is Error),
        delete_file(path).ends_in(|r: ReplyView| r is Unit || r is Error),
        list_dir(path).ends_in(|r: ReplyView| r is Names || r is Error),
        ensure_dir(path).ends_in(|r: ReplyView| r is Unit || r is Error),
        file_exists(path).ends_in(|r: ReplyView| r is Flag),
{
    reveal_with_fuel(StepView::ends_in, 4);
}

/// Where `write_file` goes through, its directories were made and its file
/// was written, in that order; it does not go through for a path without a
/// parent.
pub proof fn write_file_done(disk: Disk, path: Seq<char>, content: Seq<char>)
    requires
        disk.serve(write_file(path, content)).1 is Unit,
    ensures
        parent_of(path) matches Some(dir) && {
            &&& disk.can_create(dir)
            &&& disk.created(dir).can_write(path)
            &&& disk.serve(write_file(path, content)).0 == disk.created(dir).written(
                path,
                content,
            )
        },
{
    reveal_with_fuel(Disk::serve, 3);
}

/// What was written is what is read: once `write_file` has gone through, a
/// `read_file` of the same path replies with the text that was written.
pub proof fn write_then_read(disk: Disk, path: Seq<char>, content: Seq<char>)
    requires
        disk.serve(write_file(path, content)).1 is Unit,
    ensures
        disk.serve(write_file(path, content)).0.serve(read_file(path)).1 == ReplyView::Text(
            content,
        ),
{
    write_file_done(disk, path, content);
    reveal_with_fuel(Disk::serve, 2);
}

/// Writing is idempotent: once `write_file` has gone through, the same
/// `write_file` goes through again and leaves the disk as it was, with the
/// file holding the text.
pub proof fn write_twice(disk: Disk, path: Seq<char>, content: Seq<char>)
    requires
        disk.serve(write_file(path, content)).1 is Unit,
    ensures
        ({
            let once = disk.serve(write_file(path, content)).0;
            once.serve(write_file(path, content)) == (once, ReplyView::Unit)
        }),
{
    write_file_done(disk, path, content);
    let dir = parent_of(path)->Some_0;
    let made = disk.created(dir);
    let once = made.written(path, content);
    assert forall|d: Seq<char>| leads_to(d, dir) implies !once.is_file(d) && once.has(d) by {
        assert(made.is_dir(d));
    }
    assert(once.created(dir).nodes =~= once.nodes);
    assert(once.written(path, content).nodes =~= once.nodes);
    reveal_with_fuel(Disk::serve, 3);
}

/// Making a directory is idempotent: a second `ensure_dir` replies as the
/// first did and changes nothing; and where the first went through, the path,
/// unless it is empty, is a directory.
pub proof fn ensure_dir_twice(disk: Disk, path: Seq<char>)
    ensures
        ({
            let (once, reply) = disk.serve(ensure_dir(path));
            &&& once.serve(ensure_dir(path)) == (once, reply)
            &&& reply is Unit || reply == ReplyView::Error(disk.refusal(ensure_dir(path)))
            &&& reply is Unit && path.len() > 0 ==> once.is_dir(path)
        }),
{
    reveal_with_fuel(Disk::serve, 2);
    if disk.can_create(path) {
        let once = disk.created(path);
        assert(once.can_create(path));
        assert(once.created(path).nodes =~= once.nodes);
        if path.len() > 0 {
            assert(crate::disk::ancestor(path, 0) == Some(path));
            assert(leads_to(path, path));
        }
    }
}

/// Deleting what is not there goes through, asks nothing more of the host
/// and changes nothing.
pub proof fn delete_missing(disk: Disk, path: Seq<char>)
    requires
        !disk.has(path),
    ensures
        disk.serve(delete_file(path)) == (disk, ReplyView::Unit),
{
    reveal_with_fuel(Disk::serve, 2);
}

/// A file that was written can be deleted, and is gone then: after
/// `write_file` has gone through, `delete_file` of the same path goes
/// through, and `file_exists` replies that nothing is there.
pub proof fn delete_after_write(disk: Disk, path: Seq<char>, content: Seq<char>)
    requires
        disk.serve(write_file(path, content)).1 is Unit,
    ensures
        ({
            let written = disk.serve(write_file(path, content)).0;
            let (deleted, reply) = written.serve(delete_file(path));
            &&& reply is Unit
            &&& deleted.serve(file_exists(path)).1 == ReplyView::Flag(false)
        }),
{
    write_file_done(disk, path, content);
    reveal_with_fuel(Disk::serve, 3);
}

/// Listing what is not there is no error: the reply is the empty list, and
/// the host is not asked to read anything.
pub proof fn list_missing(disk: Disk, path: Seq<char>)
    requires
        !disk.has(path),
    ensures
        disk.serve(list_dir(path)) == (disk, ReplyView::Names(Seq::empty())),
{
    reveal_with_fuel(Disk::serve, 2);
}

/// `write_file` asks for no directory to be there beforehand. It goes
/// through exactly when the path has a parent, no file stands where the
/// parent or a directory above it is due, and no directory stands at the
/// path itself.
pub proof fn write_needs_no_directory(disk: Disk, path: Seq<char>, content: Seq<char>)
    ensures
        disk.serve(write_file(path, content)).1 is Unit <==> path.len() > 0 && (parent_of(
            path,
        ) matches Some(dir) && disk.can_create(dir) && !disk.created(dir).is_dir(path)),
{
    reveal_with_fuel(Disk::serve, 3);
    if let Some(dir) = parent_of(path) {
        if disk.can_create(dir) && dir.len() > 0 {
            assert(crate::disk::ancestor(dir, 0) == Some(dir));
            assert(leads_to(dir, dir));
        }
    }
}

} // verus!
