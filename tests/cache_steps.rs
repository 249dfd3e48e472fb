use std::collections::{HashMap, HashSet};

use russ_cache::cache::{AfterChange, AfterProbe, Cache, CacheError, Change, Found, Outcome, Step};

/// A disk held in memory, answering the cache's requests as a healthy disk would.
struct MemDisk {
    dirs: HashSet<String>,
    files: HashMap<String, String>,
    refuse_writes: bool,
    refuse_dirs: bool,
}

impl MemDisk {
    fn new() -> Self {
        MemDisk { dirs: HashSet::new(), files: HashMap::new(), refuse_writes: false, refuse_dirs: false }
    }

    fn perform(&mut self, change: &Change) -> Result<(), String> {
        match change {
            Change::CreateDirAll { path } => {
                if self.refuse_dirs {
                    return Err("permission denied".to_string());
                }
                self.dirs.insert(path.clone());
                Ok(())
            }
            Change::RemoveDirAll { path } => {
                if !self.dirs.contains(path) {
                    return Err("not found".to_string());
                }
                let prefix = format!("{}/", path.trim_end_matches('/'));
                self.dirs.retain(|d| d != path && !d.starts_with(&prefix));
                self.files.retain(|f, _| !f.starts_with(&prefix));
                Ok(())
            }
            Change::WriteFile { path, content } => {
                let parent = match path.rfind('/') {
                    Some(i) => &path[..i],
                    None => "",
                };
                if self.dirs.contains(path.as_str()) {
                    return Err("is a directory".to_string());
                }
                if self.refuse_writes || !self.dirs.contains(parent) {
                    return Err("no space left on device".to_string());
                }
                self.files.insert(path.clone(), content.clone());
                Ok(())
            }
        }
    }

    fn found(&self, path: &str) -> Found {
        if self.files.contains_key(path) {
            Found::File
        } else if self.dirs.contains(path) {
            Found::Dir
        } else {
            Found::Nothing
        }
    }
}

fn drive(disk: &mut MemDisk, first: Step) -> Outcome {
    let mut step = first;
    loop {
        step = match step {
            Step::Finish(outcome) => return outcome,
            Step::Change { change, then } => {
                let result = disk.perform(&change);
                then.resume(result)
            }
            Step::Probe { path, then } => {
                let found = disk.found(&path);
                then.resume(found)
            }
        };
    }
}

const DIR: &str = "/home/user/.cache/russ";

fn open_on(disk: &mut MemDisk, dir: &str) -> Cache {
    match drive(disk, Cache::open(Some(dir.to_string()))) {
        Outcome::Opened(cache) => cache,
        other => panic!("construction failed: {:?}", other),
    }
}

fn contains(disk: &mut MemDisk, cache: &Cache, fname: &str) -> bool {
    match drive(disk, cache.contains(fname)) {
        Outcome::Present(b) => b,
        other => panic!("contains ended as {:?}", other),
    }
}

fn store(disk: &mut MemDisk, cache: &Cache, fname: &str, content: &str) {
    match drive(disk, cache.cache_as_file(fname, content)) {
        Outcome::Stored => {}
        other => panic!("cache_as_file ended as {:?}", other),
    }
}

#[test]
fn construction_twice_gives_same_dir() {
    let mut disk = MemDisk::new();
    let first = open_on(&mut disk, DIR);
    let second = open_on(&mut disk, DIR);
    assert_eq!(first.cache_dir(), DIR);
    assert_eq!(first.cache_dir(), second.cache_dir());
    assert!(disk.dirs.contains(DIR));
}

#[test]
fn construction_requests_directory_creation() {
    match Cache::open(Some(DIR.to_string())) {
        Step::Change { change: Change::CreateDirAll { path }, then: AfterChange::Opening { dir } } => {
            assert_eq!(path, DIR);
            assert_eq!(dir, DIR);
        }
        other => panic!("unexpected first step {:?}", other),
    }
}

#[test]
fn construction_without_directory_is_resolution_error() {
    match Cache::open(None) {
        Step::Finish(Outcome::Failed(CacheError::Resolution)) => {}
        other => panic!("unexpected step {:?}", other),
    }
}

#[test]
fn construction_fails_when_directory_cannot_be_created() {
    let mut disk = MemDisk::new();
    disk.refuse_dirs = true;
    match drive(&mut disk, Cache::open(Some(DIR.to_string()))) {
        Outcome::Failed(CacheError::Filesystem { path, cause }) => {
            assert_eq!(path, DIR);
            assert_eq!(cause, "permission denied");
        }
        other => panic!("unexpected outcome {:?}", other),
    }
}

#[test]
fn new_resolves_application_directory() {
    match Cache::new() {
        Step::Change { change: Change::CreateDirAll { path }, then: AfterChange::Opening { dir } } => {
            assert_eq!(path, dir);
            assert!(path.ends_with("russ"));
        }
        Step::Finish(Outcome::Failed(CacheError::Resolution)) => {}
        other => panic!("unexpected first step {:?}", other),
    }
}

#[test]
fn file_path_joins_with_one_slash() {
    let mut disk = MemDisk::new();
    let cache = open_on(&mut disk, DIR);
    assert_eq!(cache.file_path("a.txt"), "/home/user/.cache/russ/a.txt");
    let slashed = open_on(&mut disk, "/tmp/russ/");
    assert_eq!(slashed.file_path("a.txt"), "/tmp/russ/a.txt");
}

#[test]
fn write_once_keeps_first_content() {
    let mut disk = MemDisk::new();
    let cache = open_on(&mut disk, DIR);
    store(&mut disk, &cache, "a.txt", "hello");
    store(&mut disk, &cache, "a.txt", "world");
    assert_eq!(disk.files[&cache.file_path("a.txt")], "hello");
}

#[test]
fn store_of_present_name_requests_nothing() {
    let mut disk = MemDisk::new();
    let cache = open_on(&mut disk, DIR);
    store(&mut disk, &cache, "a.txt", "hello");
    match cache.cache_as_file("a.txt", "world") {
        Step::Probe { path, then } => {
            assert_eq!(path, "/home/user/.cache/russ/a.txt");
            match then.resume(Found::File) {
                Step::Finish(Outcome::Stored) => {}
                other => panic!("unexpected step {:?}", other),
            }
        }
        other => panic!("unexpected first step {:?}", other),
    }
}

#[test]
fn store_of_absent_name_requests_write() {
    let mut disk = MemDisk::new();
    let cache = open_on(&mut disk, DIR);
    match cache.cache_as_file("a.txt", "hello") {
        Step::Probe { then: AfterProbe::Storing { path, content }, .. } => {
            let then = AfterProbe::Storing { path, content };
            match then.resume(Found::Nothing) {
                Step::Change { change: Change::WriteFile { path, content }, then: AfterChange::Writing { .. } } => {
                    assert_eq!(path, "/home/user/.cache/russ/a.txt");
                    assert_eq!(content, "hello");
                }
                other => panic!("unexpected step {:?}", other),
            }
        }
        other => panic!("unexpected first step {:?}", other),
    }
}

#[test]
fn contains_before_and_after_store() {
    let mut disk = MemDisk::new();
    let cache = open_on(&mut disk, DIR);
    assert!(!contains(&mut disk, &cache, "a.txt"));
    store(&mut disk, &cache, "a.txt", "hello");
    assert!(contains(&mut disk, &cache, "a.txt"));
    assert!(!contains(&mut disk, &cache, "b.txt"));
}

#[test]
fn disposal_clears_for_a_new_instance() {
    let mut disk = MemDisk::new();
    let cache = open_on(&mut disk, DIR);
    store(&mut disk, &cache, "a.txt", "hello");
    match drive(&mut disk, cache.dispose()) {
        Outcome::Disposed => {}
        other => panic!("disposal ended as {:?}", other),
    }
    let fresh = open_on(&mut disk, DIR);
    assert!(!contains(&mut disk, &fresh, "a.txt"));
}

#[test]
fn clear_cache_twice_succeeds_and_empties() {
    let mut disk = MemDisk::new();
    let cache = open_on(&mut disk, DIR);
    store(&mut disk, &cache, "a.txt", "hello");
    for _ in 0..2 {
        match drive(&mut disk, cache.clear_cache()) {
            Outcome::Cleared => {}
            other => panic!("clear_cache ended as {:?}", other),
        }
        assert!(disk.dirs.contains(DIR));
        assert!(disk.files.is_empty());
    }
    assert!(!contains(&mut disk, &cache, "a.txt"));
}

#[test]
fn clear_cache_fails_when_directory_is_gone() {
    let mut disk = MemDisk::new();
    let cache = open_on(&mut disk, DIR);
    disk.dirs.clear();
    match drive(&mut disk, cache.clear_cache()) {
        Outcome::Failed(CacheError::Filesystem { path, cause }) => {
            assert_eq!(path, DIR);
            assert_eq!(cause, "not found");
        }
        other => panic!("unexpected outcome {:?}", other),
    }
}

#[test]
fn round_trip_keeps_content_verbatim() {
    let mut disk = MemDisk::new();
    let cache = open_on(&mut disk, DIR);
    let multi = "line one\nline two\r\n\ttabbed <b>&amp;</b> \"quoted\" ünïcödé ✓\n\n";
    store(&mut disk, &cache, "empty.html", "");
    store(&mut disk, &cache, "multi.html", multi);
    assert_eq!(disk.files[&cache.file_path("empty.html")], "");
    assert_eq!(disk.files[&cache.file_path("multi.html")], multi);
    assert_eq!(disk.files[&cache.file_path("multi.html")].as_bytes(), multi.as_bytes());
}

#[test]
fn store_failure_reports_path_and_cause() {
    let mut disk = MemDisk::new();
    let cache = open_on(&mut disk, DIR);
    disk.refuse_writes = true;
    match drive(&mut disk, cache.cache_as_file("a.txt", "hello")) {
        Outcome::Failed(CacheError::Filesystem { path, cause }) => {
            assert_eq!(path, "/home/user/.cache/russ/a.txt");
            assert_eq!(cause, "no space left on device");
        }
        other => panic!("unexpected outcome {:?}", other),
    }
}

#[test]
fn disposal_after_directory_deleted_does_not_fail() {
    let mut disk = MemDisk::new();
    let cache = open_on(&mut disk, DIR);
    store(&mut disk, &cache, "a.txt", "hello");
    disk.dirs.clear();
    disk.files.clear();
    match drive(&mut disk, cache.dispose()) {
        Outcome::Disposed => {}
        other => panic!("disposal ended as {:?}", other),
    }
}

#[test]
fn disposal_when_recreation_fails_does_not_fail() {
    let mut disk = MemDisk::new();
    let cache = open_on(&mut disk, DIR);
    disk.refuse_dirs = true;
    match drive(&mut disk, cache.dispose()) {
        Outcome::Disposed => {}
        other => panic!("disposal ended as {:?}", other),
    }
}

#[test]
fn store_onto_directory_fails() {
    let mut disk = MemDisk::new();
    let cache = open_on(&mut disk, DIR);
    disk.dirs.insert(cache.file_path("a.txt"));
    match drive(&mut disk, cache.cache_as_file("a.txt", "hello")) {
        Outcome::Failed(CacheError::Filesystem { path, cause }) => {
            assert_eq!(path, "/home/user/.cache/russ/a.txt");
            assert_eq!(cause, "is a directory");
        }
        other => panic!("unexpected outcome {:?}", other),
    }
    assert!(disk.files.is_empty());
}

#[test]
fn store_probe_finding_directory_requests_write() {
    let mut disk = MemDisk::new();
    let cache = open_on(&mut disk, DIR);
    match cache.cache_as_file("a.txt", "hello") {
        Step::Probe { then, .. } => match then.resume(Found::Dir) {
            Step::Change { change: Change::WriteFile { path, content }, .. } => {
                assert_eq!(path, "/home/user/.cache/russ/a.txt");
                assert_eq!(content, "hello");
            }
            other => panic!("unexpected step {:?}", other),
        },
        other => panic!("unexpected first step {:?}", other),
    }
}

#[test]
fn contains_counts_a_directory() {
    let mut disk = MemDisk::new();
    let cache = open_on(&mut disk, DIR);
    disk.dirs.insert(cache.file_path("sub"));
    assert!(contains(&mut disk, &cache, "sub"));
}
