use vstd::prelude::*;

use crate::model::{
    after_change, after_probe, clear_step, open_step, path_of, query_step, store_step,
    AfterChangeModel, AfterProbeModel, ChangeModel, ErrorModel, OutcomeModel, StepModel,
};
use crate::resolve::project_cache_dir;

verus! {

/// A cache that owns one directory for the length of a session.
#[derive(Debug)]
pub struct Cache {
    cache_dir: String,
}

impl View for Cache {
    type V = Seq<char>;

    closed spec fn view(&self) -> Seq<char> {
        self.cache_dir@
    }
}

impl Cache {
    /// The directory that this cache owns.
    pub fn cache_dir(&self) -> (r: &String)
        ensures
            r@ == self@,
    {
        &self.cache_dir
    }

    /// The path under which `fname` is cached: `<cache_dir>/<fname>`.
    pub fn file_path(&self, fname: &str) -> (r: String)
        ensures
            r@ == path_of(self@, fname@),
    {
        let mut p = self.cache_dir.clone();
        let n = p.as_str().unicode_len();
        if n == 0 || p.as_str().get_char(n - 1) != '/' {
            proof {
                reveal_strlit("/");
            }
            p.append("/");
        }
        p.append(fname);
        p
    }

    /// Construction: resolves this application's cache directory on the platform, then
    /// makes sure that it exists. What resolution gives depends on the environment.
    pub fn new() -> (r: Step)
        ensures
            exists|resolved: Option<Seq<char>>| r@ == open_step(resolved),
    {
        Self::open(project_cache_dir("", "", "russ"))
    }

    /// Construction from what resolution gave: a resolution error where it gave nothing,
    /// else a request to create the directory, after which the cache owns it.
    pub fn open(resolved: Option<String>) -> (r: Step)
        ensures
            r@ == open_step(resolved_model(resolved)),
    {
        match resolved {
            None => Step::Finish(Outcome::Failed(CacheError::Resolution)),
            Some(dir) => {
                let path = dir.clone();
                Step::Change { change: Change::CreateDirAll { path }, then: AfterChange::Opening { dir } }
            },
        }
    }

    /// Empties the cache: removes the directory with all it holds, then creates it again.
    /// A failure of either request ends the operation with that failure.
    pub fn clear_cache(&self) -> (r: Step)
        ensures
            r@ == clear_step(self@, false),
    {
        self.clearing(false)
    }

    /// Disposal: clears the cache as `clear_cache` does, but ends as `Disposed` whatever
    /// the disk answers.
    pub fn dispose(self) -> (r: Step)
        ensures
            r@ == clear_step(self@, true),
    {
        self.clearing(true)
    }

    fn clearing(&self, disposing: bool) -> (r: Step)
        ensures
            r@ == clear_step(self@, disposing),
    {
        let path = self.cache_dir.clone();
        let dir = self.cache_dir.clone();
        Step::Change { change: Change::RemoveDirAll { path }, then: AfterChange::Clearing { dir, disposing } }
    }

    /// Caches `content` as the file `fname`, unless a file of that name is there: the first
    /// write of a name is the one kept. The entry is probed first; where anything but a file
    /// stands there, the write is still requested, and its failure is the outcome.
    pub fn cache_as_file(&self, fname: &str, content: &str) -> (r: Step)
        ensures
            r@ == store_step(self@, fname@, content@),
    {
        let path = self.file_path(fname);
        let target = path.clone();
        Step::Probe { path, then: AfterProbe::Storing { path: target, content: content.to_string() } }
    }

    /// Whether an entry named `fname` is directly in the cache: the entry is probed.
    pub fn contains(&self, fname: &str) -> (r: Step)
        ensures
            r@ == query_step(self@, fname@),
    {
        Step::Probe { path: self.file_path(fname), then: AfterProbe::Querying }
    }
}


/// Why an operation of the cache failed.
#[derive(Debug)]
pub enum CacheError {
    /// No cache directory could be determined for this application.
    Resolution,
    /// A filesystem request failed: the path it was made on, and the cause.
    Filesystem { path: String, cause: String },
}

impl View for CacheError {
    type V = ErrorModel;

    open spec fn view(&self) -> ErrorModel {
        match self {
            CacheError::Resolution => ErrorModel::Resolution,
            CacheError::Filesystem { path, cause } => ErrorModel::Filesystem(path@, cause@),
        }
    }
}

/// A request that changes the disk, for the host to perform.
#[derive(Debug)]
pub enum Change {
    /// Create the directory and every missing ancestor; an existing one is no error.
    CreateDirAll { path: String },
    /// Remove the directory with everything in it.
    RemoveDirAll { path: String },
    /// Create (or truncate) the file and write the content verbatim.
    WriteFile { path: String, content: String },
}

impl View for Change {
    type V = ChangeModel;

    open spec fn view(&self) -> ChangeModel {
        match self {
            Change::CreateDirAll { path } => ChangeModel::CreateDirAll(path@),
            Change::RemoveDirAll { path } => ChangeModel::RemoveDirAll(path@),
            Change::WriteFile { path, content } => ChangeModel::WriteFile(path@, content@),
        }
    }
}

/// Where an operation stands while a change is performed.
#[derive(Debug)]
pub enum AfterChange {
    Opening { dir: String },
    Clearing { dir: String, disposing: bool },
    Recreating { dir: String, disposing: bool },
    Writing { path: String },
}

impl View for AfterChange {
    type V = AfterChangeModel;

    open spec fn view(&self) -> AfterChangeModel {
        match self {
            AfterChange::Opening { dir } => AfterChangeModel::Opening(dir@),
            AfterChange::Clearing { dir, disposing } => AfterChangeModel::Clearing(dir@, *disposing),
            AfterChange::Recreating { dir, disposing } => AfterChangeModel::Recreating(dir@, *disposing),
            AfterChange::Writing { path } => AfterChangeModel::Writing(path@),
        }
    }
}

/// What a probe found at a path.
#[derive(Debug, Clone, Copy, PartialEq, Eq, Structural)]
pub enum Found {
    Nothing,
    File,
    Dir,
}

/// Where an operation stands while an entry is probed.
#[derive(Debug)]
pub enum AfterProbe {
    Storing { path: String, content: String },
    Querying,
}

impl View for AfterProbe {
    type V = AfterProbeModel;

    open spec fn view(&self) -> AfterProbeModel {
        match self {
            AfterProbe::Storing { path, content } => AfterProbeModel::Storing(path@, content@),
            AfterProbe::Querying => AfterProbeModel::Querying,
        }
    }
}

/// How an operation ended.
#[derive(Debug)]
pub enum Outcome {
    /// A cache that owns its directory, which now exists.
    Opened(Cache),
    Cleared,
    Stored,
    /// Whether the entry asked for is in the cache.
    Present(bool),
    /// Disposal ran to its end; it never fails.
    Disposed,
    Failed(CacheError),
}

impl View for Outcome {
    type V = OutcomeModel;

    open spec fn view(&self) -> OutcomeModel {
        match self {
            Outcome::Opened(c) => OutcomeModel::Opened(c@),
            Outcome::Cleared => OutcomeModel::Cleared,
            Outcome::Stored => OutcomeModel::Stored,
            Outcome::Present(b) => OutcomeModel::Present(*b),
            Outcome::Disposed => OutcomeModel::Disposed,
            Outcome::Failed(e) => OutcomeModel::Failed(e@),
        }
    }
}

/// One step of an operation: a request for the host with what follows it, or the end.
#[derive(Debug)]
pub enum Step {
    /// Perform the change, then hand its result to `then`.
    Change { change: Change, then: AfterChange },
    /// Find out what is at the path (any failure to tell counts as nothing), then hand the
    /// answer to `then`.
    Probe { path: String, then: AfterProbe },
    Finish(Outcome),
}

impl View for Step {
    type V = StepModel;

    open spec fn view(&self) -> StepModel {
        match self {
            Step::Change { change, then } => StepModel::Change(change@, then@),
            Step::Probe { path, then } => StepModel::Probe(path@, then@),
            Step::Finish(o) => StepModel::Finish(o@),
        }
    }
}

/// A directory that resolution gave, as values.
pub open spec fn resolved_model(resolved: Option<String>) -> Option<Seq<char>> {
    match resolved {
        Some(dir) => Some(dir@),
        None => None,
    }
}

/// A change's result, as values.
pub open spec fn result_model(result: Result<(), String>) -> Result<(), Seq<char>> {
    match result {
        Ok(()) => Ok(()),
        Err(cause) => Err(cause@),
    }
}

fn failed_on(path: String, cause: String) -> (r: Step)
    ensures
        r@ == StepModel::Finish(OutcomeModel::Failed(ErrorModel::Filesystem(path@, cause@))),
{
    Step::Finish(Outcome::Failed(CacheError::Filesystem { path, cause }))
}

impl AfterChange {
    /// Goes on once the change has been performed, with its result (`Err` holds the cause).
    pub fn resume(self, result: Result<(), String>) -> (r: Step)
        ensures
            r@ == after_change(self@, result_model(result)),
    {
        match self {
            AfterChange::Opening { dir } => match result {
                Ok(()) => Step::Finish(Outcome::Opened(Cache { cache_dir: dir })),
                Err(cause) => failed_on(dir, cause),
            },
            AfterChange::Clearing { dir, disposing } => match result {
                Ok(()) => {
                    let path = dir.clone();
                    Step::Change {
                        change: Change::CreateDirAll { path },
                        then: AfterChange::Recreating { dir, disposing },
                    }
                },
                Err(cause) => finish_clear(dir, disposing, Err(cause)),
            },
            AfterChange::Recreating { dir, disposing } => finish_clear(dir, disposing, result),
            AfterChange::Writing { path } => match result {
                Ok(()) => Step::Finish(Outcome::Stored),
                Err(cause) => failed_on(path, cause),
            },
        }
    }
}

fn finish_clear(dir: String, disposing: bool, result: Result<(), String>) -> (r: Step)
    ensures
        r@ == crate::model::finish_clear(dir@, disposing, result_model(result)),
{
    if disposing {
        Step::Finish(Outcome::Disposed)
    } else {
        match result {
            Ok(()) => Step::Finish(Outcome::Cleared),
            Err(cause) => failed_on(dir, cause),
        }
    }
}

impl AfterProbe {
    /// Goes on once the entry has been probed, with what was found there.
    pub fn resume(self, found: Found) -> (r: Step)
        ensures
            r@ == after_probe(self@, found),
    {
        match self {
            AfterProbe::Storing { path, content } => if found == Found::File {
                Step::Finish(Outcome::Stored)
            } else {
                let target = path.clone();
                Step::Change {
                    change: Change::WriteFile { path: target, content },
                    then: AfterChange::Writing { path },
                }
            },
            AfterProbe::Querying => Step::Finish(Outcome::Present(found != Found::Nothing)),
        }
    }
}

} // verus!
