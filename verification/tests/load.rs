use gluey::config::Config;
use gluey::error::{AlreadyOpen, LoadError};
use gluey::load::{
    classify_lock_failure, IoFailure, LoadAction, LoadPhase, LoadSession, LoadStep, Reply,
};
use gluey::text::DecodeError;

type Step = LoadStep<u32, &'static str>;

fn failed(os_code: Option<i32>, cause: &'static str) -> Reply<u32, &'static str> {
    Reply::Failed(IoFailure { os_code, not_found: false, cause })
}

fn missing(cause: &'static str) -> Reply<u32, &'static str> {
    Reply::Failed(IoFailure { os_code: Some(2), not_found: true, cause })
}

fn next(step: Step) -> LoadSession<u32> {
    match step {
        LoadStep::Continue(session) => session,
        other => panic!("the load ended early: {:?}", other),
    }
}

fn contended() -> Option<i32> {
    fs2::lock_contended_error().raw_os_error()
}

#[test]
fn a_new_session_asks_for_the_existing_file() {
    let session = LoadSession::<u32>::new(Some(11));
    assert_eq!(session.phase, LoadPhase::OpeningExisting);
    assert_eq!(session.contended_code, Some(11));
    assert_eq!(session.pending(), LoadAction::OpenExisting);
    assert_eq!(session.handle(), None);
}

#[test]
fn begin_knows_how_the_system_reports_a_held_lock() {
    let session = LoadSession::<u32>::begin();
    assert_eq!(session.phase, LoadPhase::OpeningExisting);
    assert!(session.contended_code.is_some());
    assert_eq!(session.contended_code, contended());
}

#[test]
fn existing_file_is_locked_read_and_decoded() {
    let session = LoadSession::<u32>::begin();
    let session = next(session.advance(Reply::Handle(5)));
    assert_eq!(session.phase, LoadPhase::LockingExisting(5));
    assert_eq!(session.pending(), LoadAction::TryLockExclusive);
    assert_eq!(session.handle(), Some(&5));
    let session = next(session.advance(Reply::Done));
    assert_eq!(session.phase, LoadPhase::Reading(5));
    assert_eq!(session.pending(), LoadAction::ReadToEnd);
    assert_eq!(session.handle(), Some(&5));
    let step: Step = session.advance(Reply::Bytes(b"buy stamps".to_vec()));
    assert_eq!(step, LoadStep::Loaded(Config { text: String::from("buy stamps"), config_file: 5 }));
}

#[test]
fn empty_existing_file_is_an_empty_note() {
    let session = LoadSession::<u32>::begin();
    let session = next(session.advance(Reply::Handle(5)));
    let session = next(session.advance(Reply::Done));
    let step: Step = session.advance(Reply::Bytes(Vec::new()));
    assert_eq!(step, LoadStep::Loaded(Config { text: String::new(), config_file: 5 }));
}

#[test]
fn first_run_creates_the_file_and_welcomes() {
    let session = LoadSession::<u32>::begin();
    let session = next(session.advance(missing("no such file")));
    assert_eq!(session.phase, LoadPhase::CreatingParentDirs);
    assert_eq!(session.pending(), LoadAction::CreateParentDirs);
    assert_eq!(session.handle(), None);
    let session = next(session.advance(Reply::Done));
    assert_eq!(session.phase, LoadPhase::CreatingFile);
    assert_eq!(session.pending(), LoadAction::CreateFile);
    let session = next(session.advance(Reply::Handle(9)));
    assert_eq!(session.phase, LoadPhase::LockingCreated(9));
    assert_eq!(session.pending(), LoadAction::TryLockExclusive);
    assert_eq!(session.handle(), Some(&9));
    let step: Step = session.advance(Reply::Done);
    assert_eq!(
        step,
        LoadStep::Loaded(Config { text: String::from("Welcome to Gluey"), config_file: 9 })
    );
}

#[test]
fn only_a_missing_file_leads_to_creating() {
    for os_code in [Some(2), Some(3), None] {
        let session = LoadSession::<u32>::begin();
        let reply = Reply::Failed(IoFailure { os_code, not_found: true, cause: "no such file" });
        let session = next(session.advance(reply));
        assert_eq!(session.phase, LoadPhase::CreatingParentDirs);
        assert_eq!(session.pending(), LoadAction::CreateParentDirs);
    }
}

#[test]
fn other_failure_to_open_is_handed_back() {
    for os_code in [Some(13), Some(2), Some(24), None] {
        let session = LoadSession::<u32>::begin();
        let step: Step = session.advance(failed(os_code, "permission denied"));
        assert_eq!(step, LoadStep::Failed(LoadError::Io("permission denied")));
    }
}

#[test]
fn open_failure_with_the_contended_code_is_still_io() {
    let session = LoadSession::<u32>::begin();
    let step: Step = session.advance(failed(contended(), "busy"));
    assert_eq!(step, LoadStep::Failed(LoadError::Io("busy")));
}

#[test]
fn missing_counts_only_for_the_open() {
    let session = LoadSession::<u32>::begin();
    let session = next(session.advance(missing("no such file")));
    let step: Step = session.advance(missing("no such directory"));
    assert_eq!(step, LoadStep::Failed(LoadError::Io("no such directory")));

    let session = LoadSession::<u32>::begin();
    let session = next(session.advance(missing("no such file")));
    let session = next(session.advance(Reply::Done));
    let step: Step = session.advance(missing("gone again"));
    assert_eq!(step, LoadStep::Failed(LoadError::Io("gone again")));

    let session = LoadSession::<u32>::begin();
    let session = next(session.advance(Reply::Handle(5)));
    let session = next(session.advance(Reply::Done));
    let step: Step = session.advance(missing("vanished"));
    assert_eq!(step, LoadStep::Failed(LoadError::Io("vanished")));
}

#[test]
fn held_lock_on_the_existing_file_is_already_open() {
    let session = LoadSession::<u32>::begin();
    let session = next(session.advance(Reply::Handle(5)));
    let step: Step = session.advance(failed(contended(), "would block"));
    assert_eq!(step, LoadStep::Failed(LoadError::AlreadyOpen(AlreadyOpen)));
}

#[test]
fn held_lock_on_the_new_file_is_already_open() {
    let session = LoadSession::<u32>::begin();
    let session = next(session.advance(missing("no such file")));
    let session = next(session.advance(Reply::Done));
    let session = next(session.advance(Reply::Handle(9)));
    let step: Step = session.advance(failed(contended(), "would block"));
    assert_eq!(step, LoadStep::Failed(LoadError::AlreadyOpen(AlreadyOpen)));
}

#[test]
fn other_lock_failure_is_handed_back() {
    let other = contended().map(|code| code + 1);
    let session = LoadSession::<u32>::begin();
    let session = next(session.advance(Reply::Handle(5)));
    let step: Step = session.advance(failed(other, "no locks left"));
    assert_eq!(step, LoadStep::Failed(LoadError::Io("no locks left")));

    let session = LoadSession::<u32>::begin();
    let session = next(session.advance(missing("no such file")));
    let session = next(session.advance(Reply::Done));
    let session = next(session.advance(Reply::Handle(9)));
    let step: Step = session.advance(failed(other, "no locks left"));
    assert_eq!(step, LoadStep::Failed(LoadError::Io("no locks left")));
}

#[test]
fn lock_failure_without_a_code_is_never_contention() {
    let session = LoadSession::<u32>::new(None);
    let session = next(session.advance(Reply::Handle(5)));
    let step: Step = session.advance(failed(None, "odd"));
    assert_eq!(step, LoadStep::Failed(LoadError::Io("odd")));

    let session = LoadSession::<u32>::new(Some(11));
    let session = next(session.advance(Reply::Handle(5)));
    let step: Step = session.advance(failed(None, "odd"));
    assert_eq!(step, LoadStep::Failed(LoadError::Io("odd")));
}

#[test]
fn classify_compares_the_codes() {
    let with_code = |os_code: Option<i32>| IoFailure { os_code, not_found: false, cause: 'x' };
    assert_eq!(
        classify_lock_failure(Some(11), with_code(Some(11))),
        LoadError::AlreadyOpen(AlreadyOpen)
    );
    assert_eq!(classify_lock_failure(Some(11), with_code(Some(35))), LoadError::Io('x'));
    assert_eq!(classify_lock_failure(Some(11), with_code(None)), LoadError::Io('x'));
    assert_eq!(classify_lock_failure(None, with_code(None)), LoadError::Io('x'));
    assert_eq!(classify_lock_failure(None, with_code(Some(11))), LoadError::Io('x'));
}

#[test]
fn read_failure_is_handed_back() {
    let session = LoadSession::<u32>::begin();
    let session = next(session.advance(Reply::Handle(5)));
    let session = next(session.advance(Reply::Done));
    let step: Step = session.advance(failed(Some(5), "input/output error"));
    assert_eq!(step, LoadStep::Failed(LoadError::Io("input/output error")));
}

#[test]
fn failure_to_create_is_handed_back() {
    let session = LoadSession::<u32>::begin();
    let session = next(session.advance(missing("no such file")));
    let step: Step = session.advance(failed(Some(13), "permission denied"));
    assert_eq!(step, LoadStep::Failed(LoadError::Io("permission denied")));

    let session = LoadSession::<u32>::begin();
    let session = next(session.advance(missing("no such file")));
    let session = next(session.advance(Reply::Done));
    let step: Step = session.advance(failed(Some(28), "no space left"));
    assert_eq!(step, LoadStep::Failed(LoadError::Io("no space left")));
}

#[test]
fn create_failure_with_the_contended_code_is_still_io() {
    let session = LoadSession::<u32>::begin();
    let session = next(session.advance(missing("no such file")));
    let step: Step = session.advance(failed(contended(), "busy"));
    assert_eq!(step, LoadStep::Failed(LoadError::Io("busy")));
}

#[test]
fn undecodable_file_is_a_decode_error() {
    let session = LoadSession::<u32>::begin();
    let session = next(session.advance(Reply::Handle(5)));
    let session = next(session.advance(Reply::Done));
    let step: Step = session.advance(Reply::Bytes(vec![0x6f, 0x6b, 0x80, 0x6f]));
    assert_eq!(step, LoadStep::Failed(LoadError::Decode(DecodeError { valid_up_to: 2 })));
}

#[test]
fn reply_that_answers_nothing_is_ignored() {
    let session = LoadSession::<u32>::new(Some(11));
    let step: Step = session.clone().advance(Reply::Done);
    assert_eq!(step, LoadStep::Continue(session.clone()));
    let step: Step = session.clone().advance(Reply::Bytes(vec![1, 2]));
    assert_eq!(step, LoadStep::Continue(session.clone()));

    let locking = next(session.advance(Reply::Handle(5)));
    let step: Step = locking.clone().advance(Reply::Handle(6));
    assert_eq!(step, LoadStep::Continue(locking.clone()));
    let step: Step = locking.clone().advance(Reply::Bytes(Vec::new()));
    assert_eq!(step, LoadStep::Continue(locking.clone()));

    let reading = next(locking.advance(Reply::Done));
    let step: Step = reading.clone().advance(Reply::Done);
    assert_eq!(step, LoadStep::Continue(reading.clone()));
    let step: Step = reading.clone().advance(Reply::Handle(6));
    assert_eq!(step, LoadStep::Continue(reading));
}

#[test]
fn reply_that_answers_nothing_is_ignored_while_creating() {
    let session = LoadSession::<u32>::new(Some(11));
    let dirs = next(session.advance(missing("no such file")));
    let step: Step = dirs.clone().advance(Reply::Handle(1));
    assert_eq!(step, LoadStep::Continue(dirs.clone()));
    let step: Step = dirs.clone().advance(Reply::Bytes(Vec::new()));
    assert_eq!(step, LoadStep::Continue(dirs.clone()));

    let creating = next(dirs.advance(Reply::Done));
    let step: Step = creating.clone().advance(Reply::Done);
    assert_eq!(step, LoadStep::Continue(creating.clone()));

    let locking = next(creating.advance(Reply::Handle(9)));
    let step: Step = locking.clone().advance(Reply::Handle(10));
    assert_eq!(step, LoadStep::Continue(locking));
}

#[test]
fn saved_note_comes_back_through_a_load() {
    let note = Config { text: String::from("caf\u{e9} at 9"), config_file: 5u32 };
    let stored = match note.save().pop() {
        Some(gluey::file::FileOp::WriteAll(bytes)) => bytes,
        other => panic!("the plan does not end in a write: {:?}", other),
    };
    let session = LoadSession::<u32>::begin();
    let session = next(session.advance(Reply::Handle(5)));
    let session = next(session.advance(Reply::Done));
    let step: Step = session.advance(Reply::Bytes(stored));
    assert_eq!(step, LoadStep::Loaded(note));
}

#[test]
fn already_open_says_so() {
    assert_eq!(AlreadyOpen.message(), "An instance of gluey is already running");
}
