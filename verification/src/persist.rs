//! Keeping a data file safe across writes and failed reads.
//!
//! A new version is written beside the file, the current version is moved
//! aside, the new one takes its place, and the previous version becomes the
//! backup if it was valid. A file that is missing or unreadable is loaded
//! from the version left aside or from the backup. The caller touches the
//! disk; the decisions are made here.
use vstd::prelude::*;
use crate::paths::{backup_path, has_plain_siblings, lemma_siblings_are_distinct, replacing_path, sibling_with_suffix, temp_path};
use crate::text::join2;

verus! {

/// Which version a load comes to, from what reading the file gave (`None`
/// when it is missing) and what reading the first fallback that exists gave:
/// a readable file wins, then a readable fallback; a missing file with no
/// fallback means nothing was stored yet; anything else fails.
pub open spec fn load_choice<T>(primary: Option<Result<T, ()>>, fallback: Option<Result<T, ()>>) -> Result<Option<T>, ()> {
    match primary {
        Some(Ok(v)) => Ok(Some(v)),
        None => match fallback {
            None => Ok(None),
            Some(Ok(v)) => Ok(Some(v)),
            Some(Err(_)) => Err(()),
        },
        Some(Err(_)) => match fallback {
            Some(Ok(v)) => Ok(Some(v)),
            _ => Err(()),
        },
    }
}

/// A read with its error text left out.
pub open spec fn read_shape<T>(r: Option<Result<T, String>>) -> Option<Result<T, ()>> {
    match r {
        Some(Ok(v)) => Some(Ok(v)),
        Some(Err(_)) => Some(Err(())),
        None => None,
    }
}

/// A fallback read with its path and error text left out.
pub open spec fn fallback_shape<T>(f: Option<(String, Result<T, String>)>) -> Option<Result<T, ()>> {
    match f {
        Some((_, Ok(v))) => Some(Ok(v)),
        Some((_, Err(_))) => Some(Err(())),
        None => None,
    }
}

/// A load's outcome with its error text left out.
pub open spec fn outcome_shape<T>(r: Result<Option<T>, String>) -> Result<Option<T>, ()> {
    match r {
        Ok(v) => Ok(v),
        Err(_) => Err(()),
    }
}

/// What loading a file comes to, given what reading it gave (`None` when it
/// is missing) and what reading the first fallback that exists gave, with
/// that fallback's path. `Ok(None)` means that nothing was stored yet and the
/// defaults apply.
pub fn resolve_load<T>(path: &str, primary: Option<Result<T, String>>, fallback: Option<(String, Result<T, String>)>) -> (r: Result<
    Option<T>,
    String,
>)
    ensures
        outcome_shape(r) == load_choice(read_shape(primary), fallback_shape(fallback)),
        primary matches Some(Ok(v)) ==> r == Ok::<Option<T>, String>(Some(v)),
        primary is None ==> match fallback {
            None => r == Ok::<Option<T>, String>(None),
            Some((_, Ok(v))) => r == Ok::<Option<T>, String>(Some(v)),
            Some((p, Err(e))) => r matches Err(m) && m@ == path@ + " is missing and backup "@ + p@
                + " could not be loaded: "@ + e@,
        },
        primary matches Some(Err(pe)) ==> match fallback {
            None => r matches Err(m) && m@ == pe@,
            Some((_, Ok(v))) => r == Ok::<Option<T>, String>(Some(v)),
            Some((p, Err(be))) => r matches Err(m) && m@ == path@ + " could not be loaded: "@ + pe@ + "; backup "@ + p@
                + " also failed: "@ + be@,
        },
{
    match primary {
        Some(Ok(v)) => Ok(Some(v)),
        None => match fallback {
            None => Ok(None),
            Some((_, Ok(v))) => Ok(Some(v)),
            Some((p, Err(e))) => {
                let mut m = join2(path, " is missing and backup ");
                m.append(p.as_str());
                m.append(" could not be loaded: ");
                m.append(e.as_str());
                Err(m)
            },
        },
        Some(Err(pe)) => match fallback {
            None => Err(pe),
            Some((_, Ok(v))) => Ok(Some(v)),
            Some((p, Err(be))) => {
                let mut m = join2(path, " could not be loaded: ");
                m.append(pe.as_str());
                m.append("; backup ");
                m.append(p.as_str());
                m.append(" also failed: ");
                m.append(be.as_str());
                Err(m)
            },
        },
    }
}

/// Where a write stands: the step whose result is awaited.
#[derive(Debug, Clone, PartialEq, Eq, Structural)]
pub enum WriteStage {
    ClearTemp,
    WriteTemp,
    InspectCurrent,
    ClearReplacing,
    MoveCurrentAside,
    Replace,
    RollingBack,
    CheckReplaced,
    ClearBackup,
    KeepBackup,
    DropReplaced,
    Finished,
}

/// How creating the new version failed.
#[derive(Debug, Clone, Copy, PartialEq, Eq, Structural)]
pub enum WriteFailure {
    Create,
    Write,
    Flush,
}

/// What the caller reports after performing a step.
#[derive(Debug)]
pub enum WriteEvent {
    /// The step succeeded.
    Done,
    /// The step failed with this error.
    Failed(String),
    /// Writing the new version failed at this point, with this error.
    WriteFailed(WriteFailure, String),
    /// The current file exists, and whether it reads as valid data.
    Inspected { exists: bool, valid: bool },
    /// Whether the file asked about exists.
    Exists(bool),
}

/// A step for the caller to perform.
#[derive(Debug)]
pub enum WriteAction {
    /// Remove the file if it exists.
    RemoveIfPresent(String),
    /// Create the file, which must not exist yet, with the new content, and flush it.
    WriteNew(String),
    /// Tell whether the file exists and, if so, whether it reads as valid data.
    Inspect(String),
    /// Rename the first file to the second.
    Rename(String, String),
    /// Tell whether the file exists.
    CheckExists(String),
    /// Remove the file.
    Remove(String),
    /// If `replacing` exists and `path` does not, rename it back to `path`;
    /// then remove `temp`. Failures here are not reported.
    RollBack { replacing: String, path: String, temp: String },
    /// The write is over, with this result.
    Finish(Result<(), String>),
}

/// A reported event, as the contracts see it.
pub enum EventView {
    Done,
    Failed(Seq<char>),
    WriteFailed(WriteFailure, Seq<char>),
    Inspected { exists: bool, valid: bool },
    Exists(bool),
}

/// A step, as the contracts see it.
pub enum ActionView {
    RemoveIfPresent(Seq<char>),
    WriteNew(Seq<char>),
    Inspect(Seq<char>),
    Rename(Seq<char>, Seq<char>),
    CheckExists(Seq<char>),
    Remove(Seq<char>),
    RollBack { replacing: Seq<char>, path: Seq<char>, temp: Seq<char> },
    Finish(Result<(), Seq<char>>),
}

pub open spec fn event_view(e: WriteEvent) -> EventView {
    match e {
        WriteEvent::Done => EventView::Done,
        WriteEvent::Failed(m) => EventView::Failed(m@),
        WriteEvent::WriteFailed(f, m) => EventView::WriteFailed(f, m@),
        WriteEvent::Inspected { exists, valid } => EventView::Inspected { exists, valid },
        WriteEvent::Exists(b) => EventView::Exists(b),
    }
}

pub open spec fn action_view(a: WriteAction) -> ActionView {
    match a {
        WriteAction::RemoveIfPresent(p) => ActionView::RemoveIfPresent(p@),
        WriteAction::WriteNew(p) => ActionView::WriteNew(p@),
        WriteAction::Inspect(p) => ActionView::Inspect(p@),
        WriteAction::Rename(a, b) => ActionView::Rename(a@, b@),
        WriteAction::CheckExists(p) => ActionView::CheckExists(p@),
        WriteAction::Remove(p) => ActionView::Remove(p@),
        WriteAction::RollBack { replacing, path, temp } => ActionView::RollBack {
            replacing: replacing@,
            path: path@,
            temp: temp@,
        },
        WriteAction::Finish(r) => ActionView::Finish(
            match r {
                Ok(()) => Ok(()),
                Err(m) => Err(m@),
            },
        ),
    }
}

/// The state of a write, as the contracts see it.
pub struct WriteView {
    pub path: Seq<char>,
    pub temp: Seq<char>,
    pub replacing: Seq<char>,
    pub backup: Seq<char>,
    pub stage: WriteStage,
    pub replaced_current: bool,
    pub should_backup: bool,
    /// The error to report once a failed replacement is rolled back.
    pub failure: Seq<char>,
}

/// One write of a new version of a file.
#[derive(Debug)]
pub struct FileWrite {
    path: String,
    temp: String,
    replacing: String,
    backup: String,
    stage: WriteStage,
    replaced_current: bool,
    should_backup: bool,
    failure: String,
}

impl View for FileWrite {
    type V = WriteView;

    closed spec fn view(&self) -> WriteView {
        WriteView {
            path: self.path@,
            temp: self.temp@,
            replacing: self.replacing@,
            backup: self.backup@,
            stage: self.stage,
            replaced_current: self.replaced_current,
            should_backup: self.should_backup,
            failure: self.failure@,
        }
    }
}

/// Whether an event reports success.
pub open spec fn succeeded(e: EventView) -> bool {
    !(e is Failed) && !(e is WriteFailed)
}

/// The error text an event carries, if any.
pub open spec fn error_of(e: EventView) -> Seq<char> {
    match e {
        EventView::Failed(m) => m,
        EventView::WriteFailed(_, m) => m,
        _ => Seq::empty(),
    }
}

pub open spec fn finish_err(w: WriteView, message: Seq<char>) -> (WriteView, ActionView) {
    (WriteView { stage: WriteStage::Finished, ..w }, ActionView::Finish(Err(message)))
}

pub open spec fn finish_ok(w: WriteView) -> (WriteView, ActionView) {
    (WriteView { stage: WriteStage::Finished, ..w }, ActionView::Finish(Ok(())))
}

/// The step that settles the previous version once the new one is in place.
pub open spec fn settle_replaced(w: WriteView) -> (WriteView, ActionView) {
    if w.replaced_current {
        (WriteView { stage: WriteStage::CheckReplaced, ..w }, ActionView::CheckExists(w.replacing))
    } else {
        finish_ok(w)
    }
}

/// The next state of a write and the next step, after the caller reports
/// `e` for the step awaited in `w`.
pub open spec fn write_next(w: WriteView, e: EventView) -> (WriteView, ActionView) {
    match w.stage {
        WriteStage::ClearTemp => if succeeded(e) {
            (WriteView { stage: WriteStage::WriteTemp, ..w }, ActionView::WriteNew(w.temp))
        } else {
            finish_err(w, "Failed to remove stale "@ + w.temp + ": "@ + error_of(e))
        },
        WriteStage::WriteTemp => match e {
            EventView::WriteFailed(WriteFailure::Create, m) => finish_err(w, "Failed to create "@ + w.temp + ": "@ + m),
            EventView::WriteFailed(WriteFailure::Write, m) => finish_err(w, "Failed to write "@ + w.temp + ": "@ + m),
            EventView::WriteFailed(WriteFailure::Flush, m) => finish_err(w, "Failed to flush "@ + w.temp + ": "@ + m),
            EventView::Failed(m) => finish_err(w, "Failed to create "@ + w.temp + ": "@ + m),
            _ => (WriteView { stage: WriteStage::InspectCurrent, ..w }, ActionView::Inspect(w.path)),
        },
        WriteStage::InspectCurrent => {
            let (exists, valid) = match e {
                EventView::Inspected { exists, valid } => (exists, valid),
                _ => (false, false),
            };
            let w2 = WriteView { replaced_current: exists, should_backup: exists && valid, ..w };
            if exists {
                (WriteView { stage: WriteStage::ClearReplacing, ..w2 }, ActionView::RemoveIfPresent(w.replacing))
            } else {
                (WriteView { stage: WriteStage::Replace, ..w2 }, ActionView::Rename(w.temp, w.path))
            }
        },
        WriteStage::ClearReplacing => if succeeded(e) {
            (WriteView { stage: WriteStage::MoveCurrentAside, ..w }, ActionView::Rename(w.path, w.replacing))
        } else {
            finish_err(w, "Failed to remove stale "@ + w.replacing + ": "@ + error_of(e))
        },
        WriteStage::MoveCurrentAside => if succeeded(e) {
            (WriteView { stage: WriteStage::Replace, ..w }, ActionView::Rename(w.temp, w.path))
        } else {
            finish_err(w, "Failed to move "@ + w.path + " before replacement "@ + w.replacing + ": "@ + error_of(e))
        },
        WriteStage::Replace => if succeeded(e) {
            settle_replaced(w)
        } else {
            (
                WriteView {
                    stage: WriteStage::RollingBack,
                    failure: "Failed to replace "@ + w.path + " with "@ + w.temp + ": "@ + error_of(e),
                    ..w
                },
                ActionView::RollBack { replacing: w.replacing, path: w.path, temp: w.temp },
            )
        },
        WriteStage::RollingBack => finish_err(w, w.failure),
        WriteStage::CheckReplaced => {
            let present = match e {
                EventView::Exists(b) => b,
                _ => false,
            };
            if !present {
                finish_ok(w)
            } else if w.should_backup {
                (WriteView { stage: WriteStage::ClearBackup, ..w }, ActionView::RemoveIfPresent(w.backup))
            } else {
                (WriteView { stage: WriteStage::DropReplaced, ..w }, ActionView::Remove(w.replacing))
            }
        },
        WriteStage::ClearBackup => if succeeded(e) {
            (WriteView { stage: WriteStage::KeepBackup, ..w }, ActionView::Rename(w.replacing, w.backup))
        } else {
            finish_err(w, "Failed to remove old backup "@ + w.backup + ": "@ + error_of(e))
        },
        WriteStage::KeepBackup => if succeeded(e) {
            finish_ok(w)
        } else {
            finish_err(w, "Failed to move "@ + w.replacing + " to backup "@ + w.backup + ": "@ + error_of(e))
        },
        WriteStage::DropReplaced => if succeeded(e) {
            finish_ok(w)
        } else {
            finish_err(w, "Failed to remove invalid replaced file "@ + w.replacing + ": "@ + error_of(e))
        },
        WriteStage::Finished => (w, ActionView::Finish(Ok(()))),
    }
}

/// A step that fails ends the write with an error naming the step and its
/// file, and never reports success: before the new version is in place the
/// write stops at once; when putting it in place fails, the write first rolls
/// back (the previous version returns to `path`, the new one is dropped) and
/// then reports that failure, whatever the rollback gave.
pub proof fn law_a_failed_step_ends_the_write(w: WriteView, e: EventView, after: EventView)
    requires
        !succeeded(e),
    ensures
        w.stage == WriteStage::ClearTemp ==> write_next(w, e).1 == ActionView::Finish(
            Err::<(), Seq<char>>("Failed to remove stale "@ + w.temp + ": "@ + error_of(e)),
        ),
        e matches EventView::WriteFailed(WriteFailure::Create, m) ==> (w.stage == WriteStage::WriteTemp ==> write_next(w, e).1
            == ActionView::Finish(Err::<(), Seq<char>>("Failed to create "@ + w.temp + ": "@ + m))),
        e matches EventView::WriteFailed(WriteFailure::Write, m) ==> (w.stage == WriteStage::WriteTemp ==> write_next(w, e).1
            == ActionView::Finish(Err::<(), Seq<char>>("Failed to write "@ + w.temp + ": "@ + m))),
        e matches EventView::WriteFailed(WriteFailure::Flush, m) ==> (w.stage == WriteStage::WriteTemp ==> write_next(w, e).1
            == ActionView::Finish(Err::<(), Seq<char>>("Failed to flush "@ + w.temp + ": "@ + m))),
        w.stage == WriteStage::ClearReplacing ==> write_next(w, e).1 == ActionView::Finish(
            Err::<(), Seq<char>>("Failed to remove stale "@ + w.replacing + ": "@ + error_of(e)),
        ),
        w.stage == WriteStage::MoveCurrentAside ==> write_next(w, e).1 == ActionView::Finish(
            Err::<(), Seq<char>>("Failed to move "@ + w.path + " before replacement "@ + w.replacing + ": "@ + error_of(e)),
        ),
        w.stage == WriteStage::Replace ==> ({
            let (w1, a1) = write_next(w, e);
            &&& a1 == (ActionView::RollBack { replacing: w.replacing, path: w.path, temp: w.temp })
            &&& write_next(w1, after).1 == ActionView::Finish(
                Err::<(), Seq<char>>("Failed to replace "@ + w.path + " with "@ + w.temp + ": "@ + error_of(e)),
            )
        }),
        w.stage == WriteStage::ClearBackup ==> write_next(w, e).1 == ActionView::Finish(
            Err::<(), Seq<char>>("Failed to remove old backup "@ + w.backup + ": "@ + error_of(e)),
        ),
        w.stage == WriteStage::KeepBackup ==> write_next(w, e).1 == ActionView::Finish(
            Err::<(), Seq<char>>("Failed to move "@ + w.replacing + " to backup "@ + w.backup + ": "@ + error_of(e)),
        ),
        w.stage == WriteStage::DropReplaced ==> write_next(w, e).1 == ActionView::Finish(
            Err::<(), Seq<char>>("Failed to remove invalid replaced file "@ + w.replacing + ": "@ + error_of(e)),
        ),
        w.stage != WriteStage::Finished && w.stage != WriteStage::CheckReplaced && w.stage != WriteStage::InspectCurrent
            ==> !(write_next(w, e).1 matches ActionView::Finish(Ok(_))),
{
}

/// The write of a new version of `path` as it starts.
pub open spec fn write_start(path: Seq<char>) -> (WriteView, ActionView) {
    let temp = sibling_with_suffix(path, "tmp"@);
    (
        WriteView {
            path,
            temp,
            replacing: sibling_with_suffix(path, "old"@),
            backup: sibling_with_suffix(path, "bak"@),
            stage: WriteStage::ClearTemp,
            replaced_current: false,
            should_backup: false,
            failure: Seq::empty(),
        },
        ActionView::RemoveIfPresent(temp),
    )
}

fn concat3(a: &str, b: &str, c: &str) -> (r: String)
    ensures
        r@ == a@ + b@ + c@,
{
    let mut s = join2(a, b);
    s.append(c);
    s
}

fn concat4(a: &str, b: &str, c: &str, d: &str) -> (r: String)
    ensures
        r@ == a@ + b@ + c@ + d@,
{
    let mut s = concat3(a, b, c);
    s.append(d);
    s
}

fn concat6(a: &str, b: &str, c: &str, d: &str, e: &str, f: &str) -> (r: String)
    ensures
        r@ == a@ + b@ + c@ + d@ + e@ + f@,
{
    let mut s = concat4(a, b, c, d);
    s.append(e);
    s.append(f);
    s
}

impl FileWrite {
    /// Starts writing a new version of `path`: the first step clears a
    /// leftover of an earlier write.
    pub fn begin(path: &str) -> (r: (FileWrite, WriteAction))
        ensures
            (r.0@, action_view(r.1)) == write_start(path@),
            has_plain_siblings(path@) ==> ({
                let temp = sibling_with_suffix(path@, "tmp"@);
                let old = sibling_with_suffix(path@, "old"@);
                let bak = sibling_with_suffix(path@, "bak"@);
                path@ != temp && path@ != old && path@ != bak && temp != old && temp != bak && old != bak
            }),
    {
        let temp = temp_path(path);
        let replacing = replacing_path(path);
        let backup = backup_path(path);
        proof {
            if has_plain_siblings(path@) {
                lemma_siblings_are_distinct(path@);
            }
        }
        let w = FileWrite {
            path: String::from_str(path),
            temp: temp.clone(),
            replacing,
            backup,
            stage: WriteStage::ClearTemp,
            replaced_current: false,
            should_backup: false,
            failure: String::new(),
        };
        (w, WriteAction::RemoveIfPresent(temp))
    }

    fn finish_with(&mut self, message: String) -> (r: WriteAction)
        ensures
            (final(self)@, action_view(r)) == finish_err(old(self)@, message@),
    {
        self.stage = WriteStage::Finished;
        WriteAction::Finish(Err(message))
    }

    fn finish_ok(&mut self) -> (r: WriteAction)
        ensures
            (final(self)@, action_view(r)) == finish_ok(old(self)@),
    {
        self.stage = WriteStage::Finished;
        WriteAction::Finish(Ok(()))
    }

    fn to(&mut self, stage: WriteStage, action: WriteAction) -> (r: WriteAction)
        ensures
            final(self)@ == (WriteView { stage, ..old(self)@ }),
            r == action,
    {
        self.stage = stage;
        action
    }

    /// The next step, after the caller reports `event` for the last one.
    pub fn next(&mut self, event: WriteEvent) -> (r: WriteAction)
        ensures
            (final(self)@, action_view(r)) == write_next(old(self)@, event_view(event)),
    {
        let failed: Option<String> = match &event {
            WriteEvent::Failed(m) => Some(m.clone()),
            WriteEvent::WriteFailed(_, m) => Some(m.clone()),
            _ => None,
        };
        match self.stage {
            WriteStage::ClearTemp => match failed {
                None => {
                    let a = WriteAction::WriteNew(self.temp.clone());
                    self.to(WriteStage::WriteTemp, a)
                },
                Some(m) => {
                    let msg = concat4("Failed to remove stale ", self.temp.as_str(), ": ", m.as_str());
                    self.finish_with(msg)
                },
            },
            WriteStage::WriteTemp => match event {
                WriteEvent::WriteFailed(WriteFailure::Write, m) => {
                    let msg = concat4("Failed to write ", self.temp.as_str(), ": ", m.as_str());
                    self.finish_with(msg)
                },
                WriteEvent::WriteFailed(WriteFailure::Flush, m) => {
                    let msg = concat4("Failed to flush ", self.temp.as_str(), ": ", m.as_str());
                    self.finish_with(msg)
                },
                WriteEvent::WriteFailed(WriteFailure::Create, m) | WriteEvent::Failed(m) => {
                    let msg = concat4("Failed to create ", self.temp.as_str(), ": ", m.as_str());
                    self.finish_with(msg)
                },
                _ => {
                    let a = WriteAction::Inspect(self.path.clone());
                    self.to(WriteStage::InspectCurrent, a)
                },
            },
            WriteStage::InspectCurrent => {
                let (exists, valid) = match event {
                    WriteEvent::Inspected { exists, valid } => (exists, valid),
                    _ => (false, false),
                };
                self.replaced_current = exists;
                self.should_backup = exists && valid;
                if exists {
                    let a = WriteAction::RemoveIfPresent(self.replacing.clone());
                    self.to(WriteStage::ClearReplacing, a)
                } else {
                    let a = WriteAction::Rename(self.temp.clone(), self.path.clone());
                    self.to(WriteStage::Replace, a)
                }
            },
            WriteStage::ClearReplacing => match failed {
                None => {
                    let a = WriteAction::Rename(self.path.clone(), self.replacing.clone());
                    self.to(WriteStage::MoveCurrentAside, a)
                },
                Some(m) => {
                    let msg = concat4("Failed to remove stale ", self.replacing.as_str(), ": ", m.as_str());
                    self.finish_with(msg)
                },
            },
            WriteStage::MoveCurrentAside => match failed {
                None => {
                    let a = WriteAction::Rename(self.temp.clone(), self.path.clone());
                    self.to(WriteStage::Replace, a)
                },
                Some(m) => {
                    let msg = concat6(
                        "Failed to move ",
                        self.path.as_str(),
                        " before replacement ",
                        self.replacing.as_str(),
                        ": ",
                        m.as_str(),
                    );
                    self.finish_with(msg)
                },
            },
            WriteStage::Replace => match failed {
                None => {
                    if self.replaced_current {
                        let a = WriteAction::CheckExists(self.replacing.clone());
                        self.to(WriteStage::CheckReplaced, a)
                    } else {
                        self.finish_ok()
                    }
                },
                Some(m) => {
                    self.failure = concat6(
                        "Failed to replace ",
                        self.path.as_str(),
                        " with ",
                        self.temp.as_str(),
                        ": ",
                        m.as_str(),
                    );
                    let a = WriteAction::RollBack {
                        replacing: self.replacing.clone(),
                        path: self.path.clone(),
                        temp: self.temp.clone(),
                    };
                    self.to(WriteStage::RollingBack, a)
                },
            },
            WriteStage::RollingBack => {
                let msg = self.failure.clone();
                self.finish_with(msg)
            },
            WriteStage::CheckReplaced => {
                let present = match event {
                    WriteEvent::Exists(b) => b,
                    _ => false,
                };
                if !present {
                    self.finish_ok()
                } else if self.should_backup {
                    let a = WriteAction::RemoveIfPresent(self.backup.clone());
                    self.to(WriteStage::ClearBackup, a)
                } else {
                    let a = WriteAction::Remove(self.replacing.clone());
                    self.to(WriteStage::DropReplaced, a)
                }
            },
            WriteStage::ClearBackup => match failed {
                None => {
                    let a = WriteAction::Rename(self.replacing.clone(), self.backup.clone());
                    self.to(WriteStage::KeepBackup, a)
                },
                Some(m) => {
                    let msg = concat4("Failed to remove old backup ", self.backup.as_str(), ": ", m.as_str());
                    self.finish_with(msg)
                },
            },
            WriteStage::KeepBackup => match failed {
                None => self.finish_ok(),
                Some(m) => {
                    let msg = concat6(
                        "Failed to move ",
                        self.replacing.as_str(),
                        " to backup ",
                        self.backup.as_str(),
                        ": ",
                        m.as_str(),
                    );
                    self.finish_with(msg)
                },
            },
            WriteStage::DropReplaced => match failed {
                None => self.finish_ok(),
                Some(m) => {
                    let msg = concat4("Failed to remove invalid replaced file ", self.replacing.as_str(), ": ", m.as_str());
                    self.finish_with(msg)
                },
            },
            WriteStage::Finished => WriteAction::Finish(Ok(())),
        }
    }
}

/// What performing a step does, when it succeeds, to the files involved
/// (each present file mapped to the version it holds and whether that
/// version reads as valid data), and what the caller then reports. The new
/// version is `version`, written valid.
pub open spec fn perform(files: Map<Seq<char>, (int, bool)>, a: ActionView, version: int) -> (Map<Seq<char>, (int, bool)>, EventView) {
    match a {
        ActionView::RemoveIfPresent(p) => (files.remove(p), EventView::Done),
        ActionView::WriteNew(p) => (files.insert(p, (version, true)), EventView::Done),
        ActionView::Inspect(p) => (
            files,
            EventView::Inspected { exists: files.dom().contains(p), valid: files.dom().contains(p) && files[p].1 },
        ),
        ActionView::Rename(from, to) => if files.dom().contains(from) {
            (files.remove(from).insert(to, files[from]), EventView::Done)
        } else {
            (files, EventView::Failed(Seq::empty()))
        },
        ActionView::CheckExists(p) => (files, EventView::Exists(files.dom().contains(p))),
        ActionView::Remove(p) => (files.remove(p), EventView::Done),
        ActionView::RollBack { .. } => (files, EventView::Done),
        ActionView::Finish(_) => (files, EventView::Done),
    }
}

/// The files and the result after running a write for at most `fuel` steps,
/// every step performed as `perform` describes.
pub open spec fn run_write(
    files: Map<Seq<char>, (int, bool)>,
    w: WriteView,
    a: ActionView,
    version: int,
    fuel: nat,
) -> (Map<Seq<char>, (int, bool)>, Option<Result<(), Seq<char>>>)
    decreases fuel,
{
    match a {
        ActionView::Finish(r) => (files, Some(r)),
        _ => if fuel == 0 {
            (files, None)
        } else {
            let (next_files, e) = perform(files, a, version);
            let (next_w, next_a) = write_next(w, e);
            run_write(next_files, next_w, next_a, version, (fuel - 1) as nat)
        },
    }
}

/// Whether `f` and `g` agree on the file `p`.
pub open spec fn same_file(f: Map<Seq<char>, (int, bool)>, g: Map<Seq<char>, (int, bool)>, p: Seq<char>) -> bool {
    f.dom().contains(p) == g.dom().contains(p) && (f.dom().contains(p) ==> f[p] == g[p])
}

/// A write whose steps all succeed leaves the new version in place and no
/// leftover beside it. The previous version becomes the backup if it was
/// valid; an invalid one is dropped and the backup kept. When there was no
/// current version, the backup and a version left aside by an interrupted
/// write are kept. No other file is touched.
/// The three sibling files must be distinct, as `FileWrite::begin` shows for
/// every file whose name has no separator or `:`.
pub proof fn law_write_keeps_last_valid_version(files: Map<Seq<char>, (int, bool)>, path: Seq<char>, version: int)
    requires
        ({
            let temp = sibling_with_suffix(path, "tmp"@);
            let old = sibling_with_suffix(path, "old"@);
            let bak = sibling_with_suffix(path, "bak"@);
            path != temp && path != old && path != bak && temp != old && temp != bak && old != bak
        }),
    ensures
        ({
            let temp = sibling_with_suffix(path, "tmp"@);
            let old = sibling_with_suffix(path, "old"@);
            let bak = sibling_with_suffix(path, "bak"@);
            let (out, result) = run_write(files, write_start(path).0, write_start(path).1, version, 12);
            &&& result == Some(Ok::<(), Seq<char>>(()))
            &&& out.dom().contains(path) && out[path] == (version, true)
            &&& !out.dom().contains(temp)
            &&& (files.dom().contains(path) && files[path].1) ==> (out.dom().contains(bak) && out[bak] == files[path]
                && !out.dom().contains(old))
            &&& (files.dom().contains(path) && !files[path].1) ==> (same_file(out, files, bak) && !out.dom().contains(old))
            &&& !files.dom().contains(path) ==> (same_file(out, files, bak) && same_file(out, files, old))
            &&& forall|q: Seq<char>| q != path && q != temp && q != old && q != bak ==> same_file(out, files, q)
        }),
{
    let temp = sibling_with_suffix(path, "tmp"@);
    let old = sibling_with_suffix(path, "old"@);
    let bak = sibling_with_suffix(path, "bak"@);
    let (w0, a0) = write_start(path);
    let (f1, e1) = perform(files, a0, version);
    let (w1, a1) = write_next(w0, e1);
    assert(a1 == ActionView::WriteNew(temp));
    let (f2, e2) = perform(f1, a1, version);
    let (w2, a2) = write_next(w1, e2);
    assert(a2 == ActionView::Inspect(path));
    let (f3, e3) = perform(f2, a2, version);
    let (w3, a3) = write_next(w2, e3);
    assert(f3.dom().contains(path) == files.dom().contains(path));
    if files.dom().contains(path) {
        assert(f3[path] == files[path]);
        assert(a3 == ActionView::RemoveIfPresent(old));
        let (f4, e4) = perform(f3, a3, version);
        let (w4, a4) = write_next(w3, e4);
        assert(a4 == ActionView::Rename(path, old));
        let (f5, e5) = perform(f4, a4, version);
        let (w5, a5) = write_next(w4, e5);
        assert(a5 == ActionView::Rename(temp, path));
        let (f6, e6) = perform(f5, a5, version);
        let (w6, a6) = write_next(w5, e6);
        assert(a6 == ActionView::CheckExists(old));
        let (f7, e7) = perform(f6, a6, version);
        let (w7, a7) = write_next(w6, e7);
        if files[path].1 {
            assert(a7 == ActionView::RemoveIfPresent(bak));
            let (f8, e8) = perform(f7, a7, version);
            let (w8, a8) = write_next(w7, e8);
            assert(a8 == ActionView::Rename(old, bak));
            let (f9, e9) = perform(f8, a8, version);
            let (w9, a9) = write_next(w8, e9);
            assert(a9 == ActionView::Finish(Ok::<(), Seq<char>>(())));
            assert(run_write(f9, w9, a9, version, 3) == (f9, Some(Ok::<(), Seq<char>>(()))));
            assert(run_write(f8, w8, a8, version, 4) == run_write(f9, w9, a9, version, 3));
            assert(run_write(f7, w7, a7, version, 5) == run_write(f8, w8, a8, version, 4));
            assert(run_write(f6, w6, a6, version, 6) == run_write(f7, w7, a7, version, 5));
            assert(run_write(f5, w5, a5, version, 7) == run_write(f6, w6, a6, version, 6));
            assert(run_write(f4, w4, a4, version, 8) == run_write(f5, w5, a5, version, 7));
            assert(run_write(f3, w3, a3, version, 9) == run_write(f4, w4, a4, version, 8));
        } else {
            assert(a7 == ActionView::Remove(old));
            let (f8, e8) = perform(f7, a7, version);
            let (w8, a8) = write_next(w7, e8);
            assert(a8 == ActionView::Finish(Ok::<(), Seq<char>>(())));
            assert(run_write(f8, w8, a8, version, 4) == (f8, Some(Ok::<(), Seq<char>>(()))));
            assert(run_write(f7, w7, a7, version, 5) == run_write(f8, w8, a8, version, 4));
            assert(run_write(f6, w6, a6, version, 6) == run_write(f7, w7, a7, version, 5));
            assert(run_write(f5, w5, a5, version, 7) == run_write(f6, w6, a6, version, 6));
            assert(run_write(f4, w4, a4, version, 8) == run_write(f5, w5, a5, version, 7));
            assert(run_write(f3, w3, a3, version, 9) == run_write(f4, w4, a4, version, 8));
        }
    } else {
        assert(a3 == ActionView::Rename(temp, path));
        let (f4, e4) = perform(f3, a3, version);
        let (w4, a4) = write_next(w3, e4);
        assert(a4 == ActionView::Finish(Ok::<(), Seq<char>>(())));
        assert(run_write(f4, w4, a4, version, 8) == (f4, Some(Ok::<(), Seq<char>>(()))));
        assert(run_write(f3, w3, a3, version, 9) == run_write(f4, w4, a4, version, 8));
    }
    assert(run_write(f2, w2, a2, version, 10) == run_write(f3, w3, a3, version, 9));
    assert(run_write(f1, w1, a1, version, 11) == run_write(f2, w2, a2, version, 10));
    assert(run_write(files, w0, a0, version, 12) == run_write(f1, w1, a1, version, 11));
}

/// How a file in the model reads: a valid version as itself.
pub open spec fn read_model(files: Map<Seq<char>, (int, bool)>, p: Seq<char>) -> Result<int, ()> {
    if files[p].1 {
        Ok(files[p].0)
    } else {
        Err(())
    }
}

/// What loading `path` comes to over the model of the files: the file if it
/// exists, then the first of the version left aside and the backup that
/// exists, decided as `resolve_load` decides.
pub open spec fn load_model(files: Map<Seq<char>, (int, bool)>, path: Seq<char>) -> Result<Option<int>, ()> {
    let old = sibling_with_suffix(path, "old"@);
    let bak = sibling_with_suffix(path, "bak"@);
    let primary = if files.dom().contains(path) {
        Some(read_model(files, path))
    } else {
        None
    };
    let fallback = if files.dom().contains(old) {
        Some(read_model(files, old))
    } else if files.dom().contains(bak) {
        Some(read_model(files, bak))
    } else {
        None
    };
    load_choice(primary, fallback)
}

/// A load after a write whose steps all succeeded gives back the version
/// just written.
/// The three sibling files must be distinct, as `FileWrite::begin` shows for
/// every file whose name has no separator or `:`.
pub proof fn law_load_after_write_reads_new_version(files: Map<Seq<char>, (int, bool)>, path: Seq<char>, version: int)
    requires
        ({
            let temp = sibling_with_suffix(path, "tmp"@);
            let old = sibling_with_suffix(path, "old"@);
            let bak = sibling_with_suffix(path, "bak"@);
            path != temp && path != old && path != bak && temp != old && temp != bak && old != bak
        }),
    ensures
        ({
            let (out, result) = run_write(files, write_start(path).0, write_start(path).1, version, 12);
            result == Some(Ok::<(), Seq<char>>(())) && load_model(out, path) == Ok::<Option<int>, ()>(Some(version))
        }),
{
    law_write_keeps_last_valid_version(files, path, version);
}

/// Whether loading `path` from `f` gives `before` or the version `version`.
pub open spec fn loads_old_or_new(f: Map<Seq<char>, (int, bool)>, path: Seq<char>, before: Result<Option<int>, ()>, version: int) -> bool {
    load_model(f, path) == before || load_model(f, path) == Ok::<Option<int>, ()>(Some(version))
}

/// A crash never loses the last valid version: wherever a write stops, after
/// any number of its steps, a load gives what it gave before the write or the
/// version being written. This holds when the file holds a valid version or
/// is missing; with an unreadable file the write may first move it to the
/// place a load tries before the backup. The three sibling files must be
/// distinct, as `FileWrite::begin` shows for every file whose name has no
/// separator or `:`.
pub proof fn law_interrupted_write_keeps_a_version(
    files: Map<Seq<char>, (int, bool)>,
    path: Seq<char>,
    version: int,
    steps: nat,
)
    requires
        ({
            let temp = sibling_with_suffix(path, "tmp"@);
            let old = sibling_with_suffix(path, "old"@);
            let bak = sibling_with_suffix(path, "bak"@);
            path != temp && path != old && path != bak && temp != old && temp != bak && old != bak
        }),
        files.dom().contains(path) ==> files[path].1,
    ensures
        loads_old_or_new(
            run_write(files, write_start(path).0, write_start(path).1, version, steps).0,
            path,
            load_model(files, path),
            version,
        ),
{
    let before = load_model(files, path);
    let temp = sibling_with_suffix(path, "tmp"@);
    let old = sibling_with_suffix(path, "old"@);
    let bak = sibling_with_suffix(path, "bak"@);
    let (w0, a0) = write_start(path);
    let (f1, e1) = perform(files, a0, version);
    let (w1, a1) = write_next(w0, e1);
    assert(a1 == ActionView::WriteNew(temp));
    let (f2, e2) = perform(f1, a1, version);
    let (w2, a2) = write_next(w1, e2);
    assert(a2 == ActionView::Inspect(path));
    let (f3, e3) = perform(f2, a2, version);
    let (w3, a3) = write_next(w2, e3);
    assert(f3.dom().contains(path) == files.dom().contains(path));
    if files.dom().contains(path) {
        assert(f3[path] == files[path]);
        assert(a3 == ActionView::RemoveIfPresent(old));
        let (f4, e4) = perform(f3, a3, version);
        let (w4, a4) = write_next(w3, e4);
        assert(a4 == ActionView::Rename(path, old));
        let (f5, e5) = perform(f4, a4, version);
        let (w5, a5) = write_next(w4, e5);
        assert(a5 == ActionView::Rename(temp, path));
        let (f6, e6) = perform(f5, a5, version);
        let (w6, a6) = write_next(w5, e6);
        assert(a6 == ActionView::CheckExists(old));
        let (f7, e7) = perform(f6, a6, version);
        let (w7, a7) = write_next(w6, e7);
        assert(a7 == ActionView::RemoveIfPresent(bak));
        let (f8, e8) = perform(f7, a7, version);
        let (w8, a8) = write_next(w7, e8);
        assert(a8 == ActionView::Rename(old, bak));
        let (f9, e9) = perform(f8, a8, version);
        let (w9, a9) = write_next(w8, e9);
        assert(a9 == ActionView::Finish(Ok::<(), Seq<char>>(())));
        assert forall|k: nat| #[trigger] run_write(f9, w9, a9, version, k).0 == f9 by {}
        assert(loads_old_or_new(f9, path, before, version));
        assert forall|k: nat| loads_old_or_new(#[trigger] run_write(f8, w8, a8, version, k).0, path, before, version) by {
            if k > 0 {
                assert(run_write(f8, w8, a8, version, k) == run_write(f9, w9, a9, version, (k - 1) as nat));
            }
        }
        assert(loads_old_or_new(f7, path, before, version));
        assert forall|k: nat| loads_old_or_new(#[trigger] run_write(f7, w7, a7, version, k).0, path, before, version) by {
            if k > 0 {
                assert(run_write(f7, w7, a7, version, k) == run_write(f8, w8, a8, version, (k - 1) as nat));
            }
        }
        assert(loads_old_or_new(f6, path, before, version));
        assert forall|k: nat| loads_old_or_new(#[trigger] run_write(f6, w6, a6, version, k).0, path, before, version) by {
            if k > 0 {
                assert(run_write(f6, w6, a6, version, k) == run_write(f7, w7, a7, version, (k - 1) as nat));
            }
        }
        assert(loads_old_or_new(f5, path, before, version));
        assert forall|k: nat| loads_old_or_new(#[trigger] run_write(f5, w5, a5, version, k).0, path, before, version) by {
            if k > 0 {
                assert(run_write(f5, w5, a5, version, k) == run_write(f6, w6, a6, version, (k - 1) as nat));
            }
        }
        assert(loads_old_or_new(f4, path, before, version));
        assert forall|k: nat| loads_old_or_new(#[trigger] run_write(f4, w4, a4, version, k).0, path, before, version) by {
            if k > 0 {
                assert(run_write(f4, w4, a4, version, k) == run_write(f5, w5, a5, version, (k - 1) as nat));
            }
        }
        assert(loads_old_or_new(f3, path, before, version));
        assert forall|k: nat| loads_old_or_new(#[trigger] run_write(f3, w3, a3, version, k).0, path, before, version) by {
            if k > 0 {
                assert(run_write(f3, w3, a3, version, k) == run_write(f4, w4, a4, version, (k - 1) as nat));
            }
        }
    } else {
        assert(a3 == ActionView::Rename(temp, path));
        let (f4, e4) = perform(f3, a3, version);
        let (w4, a4) = write_next(w3, e4);
        assert(a4 == ActionView::Finish(Ok::<(), Seq<char>>(())));
        assert forall|k: nat| #[trigger] run_write(f4, w4, a4, version, k).0 == f4 by {}
        assert(loads_old_or_new(f4, path, before, version));
        assert(loads_old_or_new(f3, path, before, version));
        assert forall|k: nat| loads_old_or_new(#[trigger] run_write(f3, w3, a3, version, k).0, path, before, version) by {
            if k > 0 {
                assert(run_write(f3, w3, a3, version, k) == run_write(f4, w4, a4, version, (k - 1) as nat));
            }
        }
    }
    assert(loads_old_or_new(f2, path, before, version));
    assert forall|k: nat| loads_old_or_new(#[trigger] run_write(f2, w2, a2, version, k).0, path, before, version) by {
        if k > 0 {
            assert(run_write(f2, w2, a2, version, k) == run_write(f3, w3, a3, version, (k - 1) as nat));
        }
    }
    assert(loads_old_or_new(f1, path, before, version));
    assert forall|k: nat| loads_old_or_new(#[trigger] run_write(f1, w1, a1, version, k).0, path, before, version) by {
        if k > 0 {
            assert(run_write(f1, w1, a1, version, k) == run_write(f2, w2, a2, version, (k - 1) as nat));
        }
    }
    if steps > 0 {
        assert(run_write(files, w0, a0, version, steps) == run_write(f1, w1, a1, version, (steps - 1) as nat));
    }
}

} // verus!
