//! Loading the note, one file operation at a time.
//!
//! The library decides; the caller acts. A [`LoadSession`] names the file
//! operation it is waiting for, the caller carries it out and reports what
//! came of it, and the session answers with the next operation, the loaded
//! note, or the error that ends the attempt.
//!
//! An existing file is opened, locked, read and decoded. Only when it does
//! not exist are its directory and the file created; the new file is
//! locked, and the note starts out with the welcome text. A file that is
//! there but cannot be opened is left alone, and the failure ends the load.
//! The lock is exclusive and is never waited for.

use crate::config::{Config, ConfigView, WELCOME_TEXT};
use crate::error::{AlreadyOpen, LoadError};
use crate::text::decoded;
use vstd::prelude::*;

verus! {

/// A file operation the caller is asked to carry out.
#[derive(Debug, Clone, Copy, PartialEq, Eq)]
pub enum LoadAction {
    /// Open the file for reading and writing; do not create it. A failure
    /// must say whether the file was missing.
    OpenExisting,
    /// Take the exclusive lock on the open file without waiting for it.
    TryLockExclusive,
    /// Read the open file from start to end.
    ReadToEnd,
    /// Create the directory of the file and every missing directory above
    /// it; directories that exist already are no failure.
    CreateParentDirs,
    /// Create the file, empty, and open it for writing.
    CreateFile,
}

/// A file operation that failed.
#[derive(Debug, Clone, PartialEq, Eq)]
pub struct IoFailure<E> {
    /// The operating system's code for the failure, where it gave one.
    pub os_code: Option<i32>,
    /// The operation failed because the file, or a directory on the way to
    /// it, does not exist.
    pub not_found: bool,
    /// The caller's own record of the failure.
    pub cause: E,
}

/// What came of a file operation.
#[derive(Debug, Clone, PartialEq, Eq)]
pub enum Reply<H, E> {
    /// The file is open; here is its handle.
    Handle(H),
    /// The operation succeeded and has nothing to hand over.
    Done,
    /// The bytes that were read.
    Bytes(Vec<u8>),
    /// The operation failed.
    Failed(IoFailure<E>),
}

/// How far a load has come.
#[derive(Debug, Clone, PartialEq, Eq)]
pub enum LoadPhase<H> {
    /// Waiting for the existing file to be opened.
    OpeningExisting,
    /// Waiting for the lock on the existing file.
    LockingExisting(H),
    /// Waiting for the contents of the existing, locked file.
    Reading(H),
    /// Waiting for the directories of a new file.
    CreatingParentDirs,
    /// Waiting for the new file.
    CreatingFile,
    /// Waiting for the lock on the new file.
    LockingCreated(H),
}

/// A load in progress.
#[derive(Debug, Clone, PartialEq, Eq)]
pub struct LoadSession<H> {
    /// What the session is waiting for.
    pub phase: LoadPhase<H>,
    /// The operating system's code for "the lock is held elsewhere".
    pub contended_code: Option<i32>,
}

/// Where a reply takes a load.
#[derive(Debug, Clone, PartialEq, Eq)]
pub enum LoadStep<H, E> {
    /// Not there yet: carry out what the session now waits for.
    Continue(LoadSession<H>),
    /// The note, backed by the open and locked file.
    Loaded(Config<H>),
    /// The load is over; any open handle has been let go.
    Failed(LoadError<E>),
}

/// A [`LoadStep`] as contracts see it.
pub enum LoadStepView<H, E> {
    /// The load goes on from this session.
    Continue(LoadSession<H>),
    /// The load ended with this note.
    Loaded(ConfigView<H>),
    /// The load ended with this error.
    Failed(LoadError<E>),
}

impl<H, E> View for LoadStep<H, E> {
    type V = LoadStepView<H, E>;

    open spec fn view(&self) -> LoadStepView<H, E> {
        match *self {
            LoadStep::Continue(session) => LoadStepView::Continue(session),
            LoadStep::Loaded(config) => LoadStepView::Loaded(config@),
            LoadStep::Failed(error) => LoadStepView::Failed(error),
        }
    }
}

impl<H, E> LoadStepView<H, E> {
    /// Where a further reply leads from here. Once a load is over, replies
    /// change nothing.
    pub open spec fn followed_by(self, reply: Reply<H, E>) -> Self {
        match self {
            LoadStepView::Continue(session) => session.step(reply),
            _ => self,
        }
    }
}

/// The operation a load waits for in a given phase.
pub open spec fn awaited<H>(phase: LoadPhase<H>) -> LoadAction {
    match phase {
        LoadPhase::OpeningExisting => LoadAction::OpenExisting,
        LoadPhase::LockingExisting(_) => LoadAction::TryLockExclusive,
        LoadPhase::Reading(_) => LoadAction::ReadToEnd,
        LoadPhase::CreatingParentDirs => LoadAction::CreateParentDirs,
        LoadPhase::CreatingFile => LoadAction::CreateFile,
        LoadPhase::LockingCreated(_) => LoadAction::TryLockExclusive,
    }
}

/// `reply` is an answer to `action`: it is of a kind that carrying out
/// `action` can produce.
pub open spec fn answers<H, E>(action: LoadAction, reply: Reply<H, E>) -> bool {
    match action {
        LoadAction::OpenExisting | LoadAction::CreateFile => reply is Handle || reply is Failed,
        LoadAction::TryLockExclusive | LoadAction::CreateParentDirs => reply is Done
            || reply is Failed,
        LoadAction::ReadToEnd => reply is Bytes || reply is Failed,
    }
}

/// How many file operations a load in a given phase may still ask for, the
/// pending one included.
pub open spec fn steps_left<H>(phase: LoadPhase<H>) -> nat {
    match phase {
        LoadPhase::OpeningExisting => 4,
        LoadPhase::CreatingParentDirs => 3,
        LoadPhase::LockingExisting(_) | LoadPhase::CreatingFile => 2,
        LoadPhase::Reading(_) | LoadPhase::LockingCreated(_) => 1,
    }
}

/// Asks `fs2::lock_contended_error` for the error that a lock attempt
/// returns when the lock is held elsewhere, and takes the operating system's
/// code out of it.
///
/// Trusted: that error is built from an operating system code, so there is
/// one to take out. Which code it is differs from one operating system to
/// the next, and nothing is claimed of it.
#[verifier::external_body]
fn contended_os_code() -> (code: Option<i32>)
    ensures
        code is Some,
{
    fs2::lock_contended_error().raw_os_error()
}

/// The failure carries the code that stands for a lock held elsewhere.
pub open spec fn is_contention<E>(contended_code: Option<i32>, failure: IoFailure<E>) -> bool {
    failure.os_code is Some && failure.os_code == contended_code
}

/// The error that a failed lock attempt ends the load with.
pub open spec fn lock_error<E>(contended_code: Option<i32>, failure: IoFailure<E>) -> LoadError<E> {
    if is_contention(contended_code, failure) {
        LoadError::AlreadyOpen(AlreadyOpen)
    } else {
        LoadError::Io(failure.cause)
    }
}

/// Tells a lock that is held elsewhere from every other failure of a lock
/// attempt: the first is `AlreadyOpen`, the others come back as their cause.
pub fn classify_lock_failure<E>(
    contended_code: Option<i32>,
    failure: IoFailure<E>,
) -> (error: LoadError<E>)
    ensures
        error == lock_error(contended_code, failure),
{
    let contended = match (failure.os_code, contended_code) {
        (Some(code), Some(held)) => code == held,
        _ => false,
    };
    if contended {
        LoadError::AlreadyOpen(AlreadyOpen)
    } else {
        LoadError::Io(failure.cause)
    }
}

impl<H> LoadSession<H> {
    /// A load that has done nothing yet and tells a held lock by
    /// `contended_code`.
    pub fn new(contended_code: Option<i32>) -> (session: Self)
        ensures
            session == (LoadSession { phase: LoadPhase::<H>::OpeningExisting, contended_code }),
    {
        LoadSession { phase: LoadPhase::OpeningExisting, contended_code }
    }

    /// A load that has done nothing yet and tells a held lock the way this
    /// operating system reports one.
    pub fn begin() -> (session: Self)
        ensures
            session.phase == LoadPhase::<H>::OpeningExisting,
            session.contended_code is Some,
    {
        Self::new(contended_os_code())
    }

    /// The operation the caller is to carry out now.
    pub fn pending(&self) -> (action: LoadAction)
        ensures
            action == awaited(self.phase),
    {
        match &self.phase {
            LoadPhase::OpeningExisting => LoadAction::OpenExisting,
            LoadPhase::LockingExisting(_) => LoadAction::TryLockExclusive,
            LoadPhase::Reading(_) => LoadAction::ReadToEnd,
            LoadPhase::CreatingParentDirs => LoadAction::CreateParentDirs,
            LoadPhase::CreatingFile => LoadAction::CreateFile,
            LoadPhase::LockingCreated(_) => LoadAction::TryLockExclusive,
        }
    }

    /// The handle the pending operation works on, where there is one.
    pub fn handle(&self) -> (file: Option<&H>)
        ensures
            match self.phase {
                LoadPhase::LockingExisting(held)
                | LoadPhase::Reading(held)
                | LoadPhase::LockingCreated(held) => file == Some(&held),
                _ => file is None,
            },
    {
        match &self.phase {
            LoadPhase::LockingExisting(held) => Some(held),
            LoadPhase::Reading(held) => Some(held),
            LoadPhase::LockingCreated(held) => Some(held),
            _ => None,
        }
    }

    /// This session in another phase.
    pub open spec fn at(self, phase: LoadPhase<H>) -> Self {
        LoadSession { phase, contended_code: self.contended_code }
    }

    /// Where `reply` takes this session. A reply that does not answer the
    /// pending operation leaves the session as it is.
    pub open spec fn step<E>(self, reply: Reply<H, E>) -> LoadStepView<H, E> {
        match (self.phase, reply) {
            (LoadPhase::OpeningExisting, Reply::Handle(file)) => LoadStepView::Continue(
                self.at(LoadPhase::LockingExisting(file)),
            ),
            (LoadPhase::OpeningExisting, Reply::Failed(failure)) => if failure.not_found {
                LoadStepView::Continue(self.at(LoadPhase::CreatingParentDirs))
            } else {
                LoadStepView::Failed(LoadError::Io(failure.cause))
            },
            (LoadPhase::LockingExisting(file), Reply::Done) => LoadStepView::Continue(
                self.at(LoadPhase::Reading(file)),
            ),
            (LoadPhase::LockingExisting(_), Reply::Failed(failure)) => LoadStepView::Failed(
                lock_error(self.contended_code, failure),
            ),
            (LoadPhase::Reading(file), Reply::Bytes(data)) => match decoded(data@) {
                Ok(text) => LoadStepView::Loaded(ConfigView { text, config_file: file }),
                Err(error) => LoadStepView::Failed(LoadError::Decode(error)),
            },
            (LoadPhase::Reading(_), Reply::Failed(failure)) => LoadStepView::Failed(
                LoadError::Io(failure.cause),
            ),
            (LoadPhase::CreatingParentDirs, Reply::Done) => LoadStepView::Continue(
                self.at(LoadPhase::CreatingFile),
            ),
            (LoadPhase::CreatingParentDirs, Reply::Failed(failure)) => LoadStepView::Failed(
                LoadError::Io(failure.cause),
            ),
            (LoadPhase::CreatingFile, Reply::Handle(file)) => LoadStepView::Continue(
                self.at(LoadPhase::LockingCreated(file)),
            ),
            (LoadPhase::CreatingFile, Reply::Failed(failure)) => LoadStepView::Failed(
                LoadError::Io(failure.cause),
            ),
            (LoadPhase::LockingCreated(file), Reply::Done) => LoadStepView::Loaded(
                ConfigView { text: WELCOME_TEXT@, config_file: file },
            ),
            (LoadPhase::LockingCreated(_), Reply::Failed(failure)) => LoadStepView::Failed(
                lock_error(self.contended_code, failure),
            ),
            _ => LoadStepView::Continue(self),
        }
    }

    /// Where a whole sequence of replies takes this session.
    pub open spec fn run<E>(self, replies: Seq<Reply<H, E>>) -> LoadStepView<H, E>
        decreases replies.len(),
    {
        if replies.len() == 0 {
            LoadStepView::Continue(self)
        } else {
            self.run(replies.drop_last()).followed_by(replies.last())
        }
    }

    /// Takes the caller's report of the pending operation and decides what
    /// comes next.
    pub fn advance<E>(self, reply: Reply<H, E>) -> (next: LoadStep<H, E>)
        ensures
            next@ == self.step(reply),
    {
        let contended_code = self.contended_code;
        match self.phase {
            LoadPhase::OpeningExisting => match reply {
                Reply::Handle(file) => LoadStep::Continue(
                    LoadSession { phase: LoadPhase::LockingExisting(file), contended_code },
                ),
                Reply::Failed(failure) => if failure.not_found {
                    LoadStep::Continue(
                        LoadSession { phase: LoadPhase::CreatingParentDirs, contended_code },
                    )
                } else {
                    LoadStep::Failed(LoadError::Io(failure.cause))
                },
                _ => LoadStep::Continue(
                    LoadSession { phase: LoadPhase::OpeningExisting, contended_code },
                ),
            },
            LoadPhase::LockingExisting(file) => match reply {
                Reply::Done => LoadStep::Continue(
                    LoadSession { phase: LoadPhase::Reading(file), contended_code },
                ),
                Reply::Failed(failure) => LoadStep::Failed(
                    classify_lock_failure(contended_code, failure),
                ),
                _ => LoadStep::Continue(
                    LoadSession { phase: LoadPhase::LockingExisting(file), contended_code },
                ),
            },
            LoadPhase::Reading(file) => match reply {
                Reply::Bytes(data) => match Config::deserialize(data.as_slice(), file) {
                    Ok(config) => LoadStep::Loaded(config),
                    Err(error) => LoadStep::Failed(LoadError::Decode(error)),
                },
                Reply::Failed(failure) => LoadStep::Failed(LoadError::Io(failure.cause)),
                _ => LoadStep::Continue(
                    LoadSession { phase: LoadPhase::Reading(file), contended_code },
                ),
            },
            LoadPhase::CreatingParentDirs => match reply {
                Reply::Done => LoadStep::Continue(
                    LoadSession { phase: LoadPhase::CreatingFile, contended_code },
                ),
                Reply::Failed(failure) => LoadStep::Failed(LoadError::Io(failure.cause)),
                _ => LoadStep::Continue(
                    LoadSession { phase: LoadPhase::CreatingParentDirs, contended_code },
                ),
            },
            LoadPhase::CreatingFile => match reply {
                Reply::Handle(file) => LoadStep::Continue(
                    LoadSession { phase: LoadPhase::LockingCreated(file), contended_code },
                ),
                Reply::Failed(failure) => LoadStep::Failed(LoadError::Io(failure.cause)),
                _ => LoadStep::Continue(
                    LoadSession { phase: LoadPhase::CreatingFile, contended_code },
                ),
            },
            LoadPhase::LockingCreated(file) => match reply {
                Reply::Done => LoadStep::Loaded(Config::new(file)),
                Reply::Failed(failure) => LoadStep::Failed(
                    classify_lock_failure(contended_code, failure),
                ),
                _ => LoadStep::Continue(
                    LoadSession { phase: LoadPhase::LockingCreated(file), contended_code },
                ),
            },
        }
    }
}

} // verus!
