use vstd::prelude::*;

use crate::cache::Found;

verus! {

/// The path of the entry `name` directly under the directory `dir`: the two joined by a
/// single `/`, which is not doubled where `dir` already ends in one.
pub open spec fn path_of(dir: Seq<char>, name: Seq<char>) -> Seq<char> {
    if dir.len() > 0 && dir.last() == '/' {
        dir + name
    } else {
        dir + seq!['/'] + name
    }
}

/// A name that stands for one entry directly under a directory.
pub open spec fn valid_name(name: Seq<char>) -> bool {
    name.len() > 0 && !name.contains('/')
}


/// What an error of the cache is, as values.
pub enum ErrorModel {
    /// No cache directory could be determined.
    Resolution,
    /// A filesystem request on the path failed, for the given cause.
    Filesystem(Seq<char>, Seq<char>),
}

/// A request that changes the disk.
pub enum ChangeModel {
    /// Create the directory and every missing ancestor; an existing one is no error.
    CreateDirAll(Seq<char>),
    /// Remove the directory with everything in it.
    RemoveDirAll(Seq<char>),
    /// Create (or truncate) the file and write the content verbatim.
    WriteFile(Seq<char>, Seq<char>),
}

/// What an operation does once a change has been performed.
pub enum AfterChangeModel {
    /// Construction, once the directory has been created.
    Opening(Seq<char>),
    /// Clearing, once the directory has been removed; the flag marks disposal.
    Clearing(Seq<char>, bool),
    /// Clearing, once the directory has been created again; the flag marks disposal.
    Recreating(Seq<char>, bool),
    /// Storing, once the file has been written.
    Writing(Seq<char>),
}

/// What an operation does once an entry has been probed.
pub enum AfterProbeModel {
    /// Storing the content at the path, unless a file is there.
    Storing(Seq<char>, Seq<char>),
    /// Answering whether the entry is there.
    Querying,
}

/// How an operation ended.
pub enum OutcomeModel {
    /// A cache that owns the directory.
    Opened(Seq<char>),
    Cleared,
    Stored,
    Present(bool),
    /// Disposal ran; it never fails.
    Disposed,
    Failed(ErrorModel),
}

/// One step of an operation.
pub enum StepModel {
    Change(ChangeModel, AfterChangeModel),
    Probe(Seq<char>, AfterProbeModel),
    Finish(OutcomeModel),
}

/// Construction, from the directory that resolution gave, if any.
pub open spec fn open_step(resolved: Option<Seq<char>>) -> StepModel {
    match resolved {
        None => StepModel::Finish(OutcomeModel::Failed(ErrorModel::Resolution)),
        Some(dir) => StepModel::Change(ChangeModel::CreateDirAll(dir), AfterChangeModel::Opening(dir)),
    }
}

/// Clearing the directory `dir` (on disposal where `disposing`): remove it, then create it again.
pub open spec fn clear_step(dir: Seq<char>, disposing: bool) -> StepModel {
    StepModel::Change(ChangeModel::RemoveDirAll(dir), AfterChangeModel::Clearing(dir, disposing))
}

/// Storing `content` as `name` under `dir`: probe the entry first.
pub open spec fn store_step(dir: Seq<char>, name: Seq<char>, content: Seq<char>) -> StepModel {
    StepModel::Probe(path_of(dir, name), AfterProbeModel::Storing(path_of(dir, name), content))
}

/// Asking whether `name` is under `dir`.
pub open spec fn query_step(dir: Seq<char>, name: Seq<char>) -> StepModel {
    StepModel::Probe(path_of(dir, name), AfterProbeModel::Querying)
}

/// The step that follows a change, given its result (`Err` holds the cause).
pub open spec fn after_change(then: AfterChangeModel, result: Result<(), Seq<char>>) -> StepModel {
    match then {
        AfterChangeModel::Opening(dir) => match result {
            Ok(()) => StepModel::Finish(OutcomeModel::Opened(dir)),
            Err(cause) => StepModel::Finish(OutcomeModel::Failed(ErrorModel::Filesystem(dir, cause))),
        },
        AfterChangeModel::Clearing(dir, disposing) => match result {
            Ok(()) => StepModel::Change(
                ChangeModel::CreateDirAll(dir),
                AfterChangeModel::Recreating(dir, disposing),
            ),
            Err(cause) => finish_clear(dir, disposing, Err(cause)),
        },
        AfterChangeModel::Recreating(dir, disposing) => finish_clear(dir, disposing, result),
        AfterChangeModel::Writing(path) => match result {
            Ok(()) => StepModel::Finish(OutcomeModel::Stored),
            Err(cause) => StepModel::Finish(OutcomeModel::Failed(ErrorModel::Filesystem(path, cause))),
        },
    }
}

/// How clearing ends: on disposal always `Disposed`, else `Cleared` or the failure.
pub open spec fn finish_clear(dir: Seq<char>, disposing: bool, result: Result<(), Seq<char>>) -> StepModel {
    if disposing {
        StepModel::Finish(OutcomeModel::Disposed)
    } else {
        match result {
            Ok(()) => StepModel::Finish(OutcomeModel::Cleared),
            Err(cause) => StepModel::Finish(OutcomeModel::Failed(ErrorModel::Filesystem(dir, cause))),
        }
    }
}

/// The step that follows a probe, given what is at the path. Storing skips the write only
/// where a file is there; `contains` counts any entry.
pub open spec fn after_probe(then: AfterProbeModel, found: Found) -> StepModel {
    match then {
        AfterProbeModel::Storing(path, content) => if found == Found::File {
            StepModel::Finish(OutcomeModel::Stored)
        } else {
            StepModel::Change(ChangeModel::WriteFile(path, content), AfterChangeModel::Writing(path))
        },
        AfterProbeModel::Querying => StepModel::Finish(OutcomeModel::Present(found != Found::Nothing)),
    }
}

/// A healthy disk: the directories and the files that are there, each by its path.
pub struct Disk {
    pub dirs: Set<Seq<char>>,
    pub files: Map<Seq<char>, Seq<char>>,
}

/// The path `p` lies below the directory `dir`, at any depth.
pub open spec fn inside(dir: Seq<char>, p: Seq<char>) -> bool {
    exists|rest: Seq<char>| rest.len() > 0 && p == #[trigger] path_of(dir, rest)
}

/// The file `p` can be written: it is named directly under a directory that is there, and
/// no directory stands at `p` itself.
pub open spec fn writable(disk: Disk, p: Seq<char>) -> bool {
    &&& !disk.dirs.contains(p)
    &&& exists|dir: Seq<char>, name: Seq<char>|
        disk.dirs.contains(dir) && valid_name(name) && p == #[trigger] path_of(dir, name)
}

/// The cause that a healthy disk gives for a failure; no law depends on it.
pub open spec fn refusal() -> Seq<char> {
    Seq::empty()
}

/// What a healthy disk does on a change, and what it answers.
pub open spec fn perform(disk: Disk, change: ChangeModel) -> (Disk, Result<(), Seq<char>>) {
    match change {
        ChangeModel::CreateDirAll(dir) => (
            Disk { dirs: disk.dirs.union(Set::new(|q: Seq<char>| inside(q, dir))).insert(dir), ..disk },
            Ok(()),
        ),
        ChangeModel::RemoveDirAll(dir) => if disk.dirs.contains(dir) {
            (
                Disk {
                    dirs: disk.dirs.filter(|p: Seq<char>| p != dir && !inside(dir, p)),
                    files: disk.files.restrict(disk.files.dom().filter(|p: Seq<char>| !inside(dir, p))),
                },
                Ok(()),
            )
        } else {
            (disk, Err(refusal()))
        },
        ChangeModel::WriteFile(p, content) => if writable(disk, p) {
            (Disk { files: disk.files.insert(p, content), ..disk }, Ok(()))
        } else {
            (disk, Err(refusal()))
        },
    }
}

/// Whether an entry is at `p`.
pub open spec fn present(disk: Disk, p: Seq<char>) -> bool {
    disk.dirs.contains(p) || disk.files.dom().contains(p)
}

/// What a probe of `p` finds.
pub open spec fn found_at(disk: Disk, p: Seq<char>) -> Found {
    if disk.files.dom().contains(p) {
        Found::File
    } else if disk.dirs.contains(p) {
        Found::Dir
    } else {
        Found::Nothing
    }
}

/// Runs an operation from `step` on a healthy disk for at most `fuel` requests; `None` where
/// it has not finished by then.
pub open spec fn run(disk: Disk, step: StepModel, fuel: nat) -> (Disk, Option<OutcomeModel>)
    decreases fuel,
{
    match step {
        StepModel::Finish(outcome) => (disk, Some(outcome)),
        StepModel::Change(change, then) => if fuel == 0 {
            (disk, None)
        } else {
            let (next, result) = perform(disk, change);
            run(next, after_change(then, result), (fuel - 1) as nat)
        },
        StepModel::Probe(p, then) => if fuel == 0 {
            (disk, None)
        } else {
            run(disk, after_probe(then, found_at(disk, p)), (fuel - 1) as nat)
        },
    }
}

} // verus!
