//! Singleton lifecycle wrapper over a single watched path: exclusive
//! start/stop with no overlapping watchers and no queuing of start requests,
//! plus the translation of native change notifications into typed events,
//! one per affected path.

use vstd::prelude::*;

verus! {

/// Lifecycle errors of the watcher singleton.
#[derive(Debug, Clone, Copy, PartialEq, Eq, Structural)]
pub enum FileWatchError {
    /// A watcher is already installed.
    AlreadyRunning,
    /// No watcher is installed.
    NotRunning,
}

/// The typed change kinds handed to the presentation layer.
#[derive(Debug, Clone, Copy, PartialEq, Eq, Structural)]
pub enum FileChangeKind {
    Create,
    Modify,
    Remove,
    Other,
}

/// A change kind as the native watcher reports it, before translation.
#[derive(Debug, Clone, Copy, PartialEq, Eq, Structural)]
pub enum RawChangeKind {
    Access,
    Create,
    Modify,
    Remove,
    Other,
}

/// One typed event for one affected path.
#[derive(Debug, Clone, PartialEq, Eq)]
pub struct FileChangeEvent {
    pub path: String,
    pub kind: FileChangeKind,
}

/// The singleton watcher handle: at most one watcher exists at a time.
#[derive(Debug, Clone, PartialEq, Eq)]
pub struct FileWatchBridge {
    watched_path: Option<String>,
}

/// The typed kind a native change kind translates to: creations,
/// modifications and removals keep their meaning, everything else is Other.
pub open spec fn translate_kind_spec(raw: RawChangeKind) -> FileChangeKind {
    match raw {
        RawChangeKind::Create => FileChangeKind::Create,
        RawChangeKind::Modify => FileChangeKind::Modify,
        RawChangeKind::Remove => FileChangeKind::Remove,
        _ => FileChangeKind::Other,
    }
}

impl FileWatchBridge {
    /// Whether a watcher is currently installed.
    pub closed spec fn running(self) -> bool {
        self.watched_path is Some
    }

    /// The path the installed watcher observes.
    pub closed spec fn watched(self) -> Option<Seq<char>> {
        match self.watched_path {
            Some(p) => Some(p@),
            None => None,
        }
    }

    /// A bridge with no watcher installed.
    pub fn new() -> (b: FileWatchBridge)
        ensures
            !b.running(),
    {
        FileWatchBridge { watched_path: None }
    }

    /// Install the (non-recursive) watcher over `path`. Fails with
    /// `AlreadyRunning`, leaving the installed watcher untouched, if one is
    /// already installed; start requests are never queued.
    pub fn start(&mut self, path: String) -> (r: Result<(), FileWatchError>)
        ensures
            old(self).running() ==> (r matches Err(FileWatchError::AlreadyRunning) && *final(self)
                == *old(self)),
            !old(self).running() ==> (r is Ok && final(self).running() && final(self).watched()
                == Some(path@)),
    {
        if self.watched_path.is_some() {
            return Err(FileWatchError::AlreadyRunning);
        }
        self.watched_path = Some(path);
        Ok(())
    }

    /// Release the installed watcher. Fails with `NotRunning` if none is
    /// installed.
    pub fn stop(&mut self) -> (r: Result<(), FileWatchError>)
        ensures
            !old(self).running() ==> (r matches Err(FileWatchError::NotRunning) && *final(self)
                == *old(self)),
            old(self).running() ==> (r is Ok && !final(self).running()),
    {
        if self.watched_path.is_none() {
            return Err(FileWatchError::NotRunning);
        }
        self.watched_path = None;
        Ok(())
    }

    /// Pure query of the lifecycle state.
    pub fn is_running(&self) -> (r: bool)
        ensures
            r == self.running(),
    {
        self.watched_path.is_some()
    }
}

/// Translate one native change kind.
pub fn translate_kind(raw: RawChangeKind) -> (k: FileChangeKind)
    ensures
        k == translate_kind_spec(raw),
{
    match raw {
        RawChangeKind::Create => FileChangeKind::Create,
        RawChangeKind::Modify => FileChangeKind::Modify,
        RawChangeKind::Remove => FileChangeKind::Remove,
        _ => FileChangeKind::Other,
    }
}

/// Translate one native event into typed events: one event per affected
/// path, all carrying the translated kind, in the order the paths came.
pub fn translate_event(raw: RawChangeKind, paths: &Vec<String>) -> (events: Vec<FileChangeEvent>)
    ensures
        events@.len() == paths@.len(),
        forall|i: int|
            0 <= i < paths@.len() ==> (#[trigger] events@[i]).kind == translate_kind_spec(raw)
                && events@[i].path == paths@[i],
{
    let kind = translate_kind(raw);
    let mut events: Vec<FileChangeEvent> = Vec::new();
    let mut i: usize = 0;
    while i < paths.len()
        invariant
            i <= paths@.len(),
            events@.len() == i,
            kind == translate_kind_spec(raw),
            forall|j: int|
                0 <= j < i ==> (#[trigger] events@[j]).kind == translate_kind_spec(raw)
                    && events@[j].path == paths@[j],
        decreases paths@.len() - i,
    {
        events.push(FileChangeEvent { path: paths[i].clone(), kind: kind });
        i = i + 1;
    }
    events
}

} // verus!
