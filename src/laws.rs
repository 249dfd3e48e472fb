use vstd::prelude::*;

use crate::model::{
    clear_step, inside, refusal, open_step, path_of, perform, present, query_step, run, store_step,
    valid_name, writable, ChangeModel, Disk, ErrorModel, OutcomeModel,
};

verus! {

/// An entry's path is longer than its directory's.
proof fn lemma_path_longer(dir: Seq<char>, name: Seq<char>)
    requires
        name.len() > 0,
    ensures
        path_of(dir, name).len() > dir.len(),
{
}

/// A directory does not lie below itself.
proof fn lemma_not_inside_self(dir: Seq<char>)
    ensures
        !inside(dir, dir),
{
    assert forall|rest: Seq<char>| rest.len() > 0 implies #[trigger] path_of(dir, rest) != dir by {
        lemma_path_longer(dir, rest);
    }
}

/// An entry named under a directory lies below it.
proof fn lemma_entry_inside(dir: Seq<char>, name: Seq<char>)
    requires
        name.len() > 0,
    ensures
        inside(dir, path_of(dir, name)),
{
    assert(path_of(dir, name) == path_of(dir, name));
}

/// A file named under a directory that is there, where no directory stands, can be written.
proof fn lemma_entry_writable(disk: Disk, dir: Seq<char>, name: Seq<char>)
    requires
        disk.dirs.contains(dir),
        valid_name(name),
        !disk.dirs.contains(path_of(dir, name)),
    ensures
        writable(disk, path_of(dir, name)),
{
    assert(disk.dirs.contains(dir) && valid_name(name) && path_of(dir, name) == path_of(dir, name));
}

/// The directory is there and holds nothing.
pub open spec fn empty_dir(disk: Disk, dir: Seq<char>) -> bool {
    &&& disk.dirs.contains(dir)
    &&& forall|p: Seq<char>| #[trigger] inside(dir, p) ==> !present(disk, p)
}

/// A directory does not lie below a path that lies below it.
proof fn lemma_inside_shorter(q: Seq<char>, dir: Seq<char>)
    requires
        inside(q, dir),
    ensures
        q.len() < dir.len(),
        !inside(dir, q),
{
    let rest = choose|rest: Seq<char>| rest.len() > 0 && dir == #[trigger] path_of(q, rest);
    lemma_path_longer(q, rest);
    if inside(dir, q) {
        let back = choose|back: Seq<char>| back.len() > 0 && q == #[trigger] path_of(dir, back);
        lemma_path_longer(dir, back);
    }
}

/// Construction is deterministic and idempotent: from one resolved directory it opens a
/// cache that owns that directory, whether or not the directory was there before, with
/// every ancestor of the directory there too; a second construction opens a cache on the
/// same directory again.
pub proof fn law_open_twice(disk: Disk, dir: Seq<char>)
    ensures
        ({
            let (first, o1) = run(disk, open_step(Some(dir)), 1);
            let (second, o2) = run(first, open_step(Some(dir)), 1);
            &&& o1 == Some(OutcomeModel::Opened(dir))
            &&& o2 == Some(OutcomeModel::Opened(dir))
            &&& first.dirs.contains(dir)
            &&& second.dirs.contains(dir)
            &&& forall|q: Seq<char>| #[trigger] inside(q, dir) ==> first.dirs.contains(q)
        }),
{
    reveal_with_fuel(run, 2);
}

/// Construction where nothing lies below the directory, the directory itself absent or
/// not, leaves the cache's directory there and holding nothing.
pub proof fn law_open_creates_empty(disk: Disk, dir: Seq<char>)
    requires
        forall|p: Seq<char>| #[trigger] inside(dir, p) ==> !present(disk, p),
    ensures
        ({
            let (first, o1) = run(disk, open_step(Some(dir)), 1);
            &&& o1 == Some(OutcomeModel::Opened(dir))
            &&& empty_dir(first, dir)
        }),
{
    reveal_with_fuel(run, 2);
    let (first, o1) = run(disk, open_step(Some(dir)), 1);
    assert forall|p: Seq<char>| #[trigger] inside(dir, p) implies !present(first, p) by {
        lemma_not_inside_self(dir);
        if inside(p, dir) {
            lemma_inside_shorter(p, dir);
        }
    }
}

/// Whether an entry is there is answered from the disk, and a name that was stored is
/// there: in a directory that holds nothing, `contains` answers no before the name is
/// stored and yes right after.
pub proof fn law_contains_after_store(disk: Disk, dir: Seq<char>, name: Seq<char>, content: Seq<char>)
    requires
        empty_dir(disk, dir),
        valid_name(name),
    ensures
        run(disk, query_step(dir, name), 1).1 == Some(OutcomeModel::Present(false)),
        ({
            let (after, stored) = run(disk, store_step(dir, name, content), 2);
            &&& stored == Some(OutcomeModel::Stored)
            &&& run(after, query_step(dir, name), 1).1 == Some(OutcomeModel::Present(true))
        }),
{
    reveal_with_fuel(run, 3);
    lemma_entry_inside(dir, name);
    lemma_entry_writable(disk, dir, name);
}

/// Storing a name whose file is there already changes nothing on the disk and succeeds.
pub proof fn law_store_present_is_noop(disk: Disk, dir: Seq<char>, name: Seq<char>, content: Seq<char>)
    requires
        disk.files.dom().contains(path_of(dir, name)),
    ensures
        run(disk, store_step(dir, name, content), 2) == (disk, Some(OutcomeModel::Stored)),
{
    reveal_with_fuel(run, 3);
}

/// A directory is no cached file: storing a name where a directory, and no file, stands
/// requests the write, which fails, and the failure on that path is the outcome.
pub proof fn law_store_on_directory_fails(disk: Disk, dir: Seq<char>, name: Seq<char>, content: Seq<char>)
    requires
        disk.dirs.contains(path_of(dir, name)),
        !disk.files.dom().contains(path_of(dir, name)),
    ensures
        run(disk, store_step(dir, name, content), 2) == (
            disk,
            Some(OutcomeModel::Failed(ErrorModel::Filesystem(path_of(dir, name), refusal()))),
        ),
{
    reveal_with_fuel(run, 3);
}

/// Content is kept verbatim: where no entry of the name is there, storing it writes the
/// content exactly as given, empty content included.
pub proof fn law_round_trip(disk: Disk, dir: Seq<char>, name: Seq<char>, content: Seq<char>)
    requires
        disk.dirs.contains(dir),
        valid_name(name),
        !present(disk, path_of(dir, name)),
    ensures
        ({
            let (after, stored) = run(disk, store_step(dir, name, content), 2);
            &&& stored == Some(OutcomeModel::Stored)
            &&& after.files.dom().contains(path_of(dir, name))
            &&& after.files[path_of(dir, name)] == content
        }),
{
    reveal_with_fuel(run, 3);
    lemma_entry_writable(disk, dir, name);
}

/// Only the first write of a name is kept: storing `first` and then `second` under one
/// name leaves `first` there.
pub proof fn law_write_once(
    disk: Disk,
    dir: Seq<char>,
    name: Seq<char>,
    first: Seq<char>,
    second: Seq<char>,
)
    requires
        disk.dirs.contains(dir),
        valid_name(name),
        !present(disk, path_of(dir, name)),
    ensures
        ({
            let (d1, o1) = run(disk, store_step(dir, name, first), 2);
            let (d2, o2) = run(d1, store_step(dir, name, second), 2);
            &&& o1 == Some(OutcomeModel::Stored)
            &&& o2 == Some(OutcomeModel::Stored)
            &&& d2.files[path_of(dir, name)] == first
        }),
{
    law_round_trip(disk, dir, name, first);
    let (d1, o1) = run(disk, store_step(dir, name, first), 2);
    law_store_present_is_noop(d1, dir, name, second);
}

/// Removing the directory and creating it again leaves it there, holding nothing.
proof fn lemma_recreate_empties(disk: Disk, dir: Seq<char>)
    requires
        disk.dirs.contains(dir),
    ensures
        ({
            let removed = perform(disk, ChangeModel::RemoveDirAll(dir));
            let created = perform(removed.0, ChangeModel::CreateDirAll(dir));
            &&& removed.1 is Ok
            &&& empty_dir(created.0, dir)
        }),
{
    lemma_not_inside_self(dir);
}

/// Clearing can be repeated: on an open cache, clearing twice succeeds both times and
/// leaves the directory there, holding nothing.
pub proof fn law_clear_twice(disk: Disk, dir: Seq<char>)
    requires
        disk.dirs.contains(dir),
    ensures
        ({
            let (d1, o1) = run(disk, clear_step(dir, false), 2);
            let (d2, o2) = run(d1, clear_step(dir, false), 2);
            &&& o1 == Some(OutcomeModel::Cleared)
            &&& o2 == Some(OutcomeModel::Cleared)
            &&& empty_dir(d1, dir)
            &&& empty_dir(d2, dir)
        }),
{
    reveal_with_fuel(run, 3);
    lemma_recreate_empties(disk, dir);
    let (d1, o1) = run(disk, clear_step(dir, false), 2);
    lemma_recreate_empties(d1, dir);
}

/// Disposal never fails: whatever the disk holds, the directory included or not, it
/// ends as `Disposed`.
pub proof fn law_dispose_never_fails(disk: Disk, dir: Seq<char>)
    ensures
        run(disk, clear_step(dir, true), 2).1 == Some(OutcomeModel::Disposed),
{
    reveal_with_fuel(run, 3);
}

/// Disposal clears: after a cache has stored a name and been disposed, a cache opened
/// again on the same directory does not contain that name.
pub proof fn law_dispose_clears(disk: Disk, dir: Seq<char>, name: Seq<char>, content: Seq<char>)
    requires
        disk.dirs.contains(dir),
        valid_name(name),
        !disk.dirs.contains(path_of(dir, name)),
    ensures
        ({
            let (d1, o1) = run(disk, store_step(dir, name, content), 2);
            let (d2, o2) = run(d1, clear_step(dir, true), 2);
            let (d3, o3) = run(d2, open_step(Some(dir)), 1);
            &&& o1 == Some(OutcomeModel::Stored)
            &&& o2 == Some(OutcomeModel::Disposed)
            &&& o3 == Some(OutcomeModel::Opened(dir))
            &&& run(d3, query_step(dir, name), 1).1 == Some(OutcomeModel::Present(false))
        }),
{
    reveal_with_fuel(run, 3);
    lemma_entry_writable(disk, dir, name);
    let (d1, o1) = run(disk, store_step(dir, name, content), 2);
    lemma_recreate_empties(d1, dir);
    lemma_entry_inside(dir, name);
}

} // verus!
