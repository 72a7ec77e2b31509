//! What holds of a note over its life: of a load from the first file
//! operation to the last, and of saving and loading taken together.

use crate::config::{ConfigView, WELCOME_TEXT};
use crate::error::{AlreadyOpen, LoadError};
use crate::file::{effect_of, lemma_rewrite_replaces_contents, rewrites_with, FileOp, FileState};
use crate::load::{
    answers, awaited, steps_left, IoFailure, LoadAction, LoadPhase, LoadSession, LoadStepView,
    Reply,
};
use crate::text::{valid_prefix_len, DecodeError};
use vstd::prelude::*;
use vstd::utf8::*;

verus! {

/// A run over one more reply is the run so far, followed by that reply.
proof fn lemma_run_takes_one_more<H, E>(
    session: LoadSession<H>,
    earlier: Seq<Reply<H, E>>,
    reply: Reply<H, E>,
    whole: Seq<Reply<H, E>>,
)
    requires
        whole =~= earlier.push(reply),
    ensures
        session.run(whole) == session.run(earlier).followed_by(reply),
{
    assert(whole.drop_last() =~= earlier);
}

/// Once the existing file is open, the load waits for the lock; once the
/// lock is granted, for the file's contents.
proof fn lemma_open_then_lock_then_read<H, E>(session: LoadSession<H>, file: H)
    requires
        session.phase == LoadPhase::<H>::OpeningExisting,
    ensures
        session.run(seq![Reply::<H, E>::Handle(file)]) == LoadStepView::<H, E>::Continue(
            session.at(LoadPhase::LockingExisting(file)),
        ),
        session.run(seq![Reply::<H, E>::Handle(file), Reply::Done])
            == LoadStepView::<H, E>::Continue(session.at(LoadPhase::Reading(file))),
{
    let open = seq![Reply::<H, E>::Handle(file)];
    lemma_run_takes_one_more(session, Seq::empty(), Reply::Handle(file), open);
    lemma_run_takes_one_more(session, open, Reply::Done, seq![Reply::Handle(file), Reply::Done]);
}

/// A saved note loads back unchanged: whatever the file held before, once
/// the plan for storing `text` has been carried out, a fresh load that
/// opens the file, gets the lock and reads the file's bytes ends with a
/// note of that same text.
pub proof fn lemma_saved_text_loads_back<H, E>(
    text: Seq<char>,
    plan: Seq<FileOp>,
    before: FileState,
    session: LoadSession<H>,
    file: H,
    data: Vec<u8>,
)
    requires
        rewrites_with(plan, encode_utf8(text)),
        session.phase == LoadPhase::<H>::OpeningExisting,
        data@ == effect_of(plan, before).contents,
    ensures
        session.run::<E>(seq![Reply::Handle(file), Reply::Done, Reply::Bytes(data)])
            == LoadStepView::<H, E>::Loaded(ConfigView { text, config_file: file }),
{
    lemma_rewrite_replaces_contents(plan, encode_utf8(text), before);
    encode_utf8_valid_utf8(text);
    encode_utf8_decode_utf8(text);
    lemma_open_then_lock_then_read::<H, E>(session, file);
    lemma_run_takes_one_more(
        session,
        seq![Reply::<H, E>::Handle(file), Reply::Done],
        Reply::Bytes(data),
        seq![Reply::Handle(file), Reply::Done, Reply::Bytes(data)],
    );
}

/// Saving leaves no residue: after one text has been stored and then
/// another, the file holds the encoding of the second and not a byte more,
/// however long the first was.
pub proof fn lemma_second_save_leaves_no_residue(
    first: Seq<char>,
    second: Seq<char>,
    first_plan: Seq<FileOp>,
    second_plan: Seq<FileOp>,
    before: FileState,
)
    requires
        rewrites_with(first_plan, encode_utf8(first)),
        rewrites_with(second_plan, encode_utf8(second)),
    ensures
        effect_of(second_plan, effect_of(first_plan, before)).contents == encode_utf8(second),
        effect_of(second_plan, effect_of(first_plan, before)).contents.len() == encode_utf8(
            second,
        ).len(),
{
    lemma_rewrite_replaces_contents(
        second_plan,
        encode_utf8(second),
        effect_of(first_plan, before),
    );
}

/// The first run: when the file does not exist, the load asks for its
/// directories, then for the file itself, then for the lock, and ends with
/// a note that holds the welcome text and is backed by the new file.
pub proof fn lemma_first_run_creates_the_file<H, E>(
    session: LoadSession<H>,
    failure: IoFailure<E>,
    file: H,
)
    requires
        session.phase == LoadPhase::<H>::OpeningExisting,
        failure.not_found,
    ensures
        session.run(seq![Reply::<H, E>::Failed(failure)]) == LoadStepView::<H, E>::Continue(
            session.at(LoadPhase::CreatingParentDirs),
        ),
        session.run(seq![Reply::<H, E>::Failed(failure), Reply::Done])
            == LoadStepView::<H, E>::Continue(session.at(LoadPhase::CreatingFile)),
        session.run(seq![Reply::<H, E>::Failed(failure), Reply::Done, Reply::Handle(file)])
            == LoadStepView::<H, E>::Continue(session.at(LoadPhase::LockingCreated(file))),
        session.run(
            seq![Reply::<H, E>::Failed(failure), Reply::Done, Reply::Handle(file), Reply::Done],
        ) == LoadStepView::<H, E>::Loaded(ConfigView { text: WELCOME_TEXT@, config_file: file }),
        awaited(LoadPhase::<H>::CreatingParentDirs) == LoadAction::CreateParentDirs,
        awaited(LoadPhase::<H>::CreatingFile) == LoadAction::CreateFile,
        awaited(LoadPhase::LockingCreated(file)) == LoadAction::TryLockExclusive,
{
    let one = seq![Reply::<H, E>::Failed(failure)];
    let two = seq![Reply::<H, E>::Failed(failure), Reply::Done];
    let three = seq![Reply::<H, E>::Failed(failure), Reply::Done, Reply::Handle(file)];
    let four = seq![Reply::<H, E>::Failed(failure), Reply::Done, Reply::Handle(file), Reply::Done];
    lemma_run_takes_one_more(session, Seq::empty(), Reply::Failed(failure), one);
    lemma_run_takes_one_more(session, one, Reply::Done, two);
    lemma_run_takes_one_more(session, two, Reply::Handle(file), three);
    lemma_run_takes_one_more(session, three, Reply::Done, four);
}

/// Once over, a load stays over: after the reply that ended it, with a note
/// or with an error, no further reply changes the outcome, and nothing more
/// is asked for.
pub proof fn lemma_a_finished_load_stays_finished<H, E>(
    session: LoadSession<H>,
    replies: Seq<Reply<H, E>>,
    later: Seq<Reply<H, E>>,
)
    requires
        !(session.run(replies) is Continue),
    ensures
        session.run(replies + later) == session.run(replies),
    decreases later.len(),
{
    if later.len() == 0 {
        assert(replies + later =~= replies);
    } else {
        lemma_a_finished_load_stays_finished(session, replies, later.drop_last());
        assert((replies + later).drop_last() =~= replies + later.drop_last());
    }
}

/// A file that is there but cannot be opened is left alone: a failure to
/// open it for any reason but that it does not exist ends the load with
/// that failure. Nothing is created, and whatever is reported afterwards,
/// the outcome stays the same.
pub proof fn lemma_other_open_failure_is_handed_back<H, E>(
    session: LoadSession<H>,
    failure: IoFailure<E>,
    later: Seq<Reply<H, E>>,
)
    requires
        session.phase == LoadPhase::<H>::OpeningExisting,
        !failure.not_found,
    ensures
        session.step(Reply::<H, E>::Failed(failure)) == LoadStepView::<H, E>::Failed(
            LoadError::Io(failure.cause),
        ),
        session.run(seq![Reply::<H, E>::Failed(failure)] + later) == LoadStepView::<H, E>::Failed(
            LoadError::Io(failure.cause),
        ),
{
    let refused = seq![Reply::<H, E>::Failed(failure)];
    lemma_run_takes_one_more(session, Seq::empty(), Reply::Failed(failure), refused);
    lemma_a_finished_load_stays_finished(session, refused, later);
}

/// A second instance is turned away: once the file is open, on disk already
/// or newly created, a lock attempt that fails with the code for a held
/// lock ends the load with `AlreadyOpen`, and nothing is read or written.
pub proof fn lemma_held_lock_is_already_open<H, E>(
    session: LoadSession<H>,
    file: H,
    failure: IoFailure<E>,
    missing: IoFailure<E>,
)
    requires
        session.phase == LoadPhase::<H>::OpeningExisting,
        failure.os_code is Some,
        failure.os_code == session.contended_code,
        missing.not_found,
    ensures
        session.run(seq![Reply::<H, E>::Handle(file), Reply::Failed(failure)])
            == LoadStepView::<H, E>::Failed(LoadError::AlreadyOpen(AlreadyOpen)),
        session.run(
            seq![
                Reply::<H, E>::Failed(missing),
                Reply::Done,
                Reply::Handle(file),
                Reply::Failed(failure),
            ],
        ) == LoadStepView::<H, E>::Failed(LoadError::AlreadyOpen(AlreadyOpen)),
{
    lemma_open_then_lock_then_read::<H, E>(session, file);
    lemma_run_takes_one_more(
        session,
        seq![Reply::<H, E>::Handle(file)],
        Reply::Failed(failure),
        seq![Reply::Handle(file), Reply::Failed(failure)],
    );
    lemma_first_run_creates_the_file(session, missing, file);
    lemma_run_takes_one_more(
        session,
        seq![Reply::<H, E>::Failed(missing), Reply::Done, Reply::Handle(file)],
        Reply::Failed(failure),
        seq![Reply::Failed(missing), Reply::Done, Reply::Handle(file), Reply::Failed(failure)],
    );
}

/// Any other failure of a lock attempt comes back as it was reported.
pub proof fn lemma_other_lock_failure_is_handed_back<H, E>(
    session: LoadSession<H>,
    file: H,
    failure: IoFailure<E>,
)
    requires
        session.phase == LoadPhase::<H>::OpeningExisting,
        failure.os_code is None || failure.os_code != session.contended_code,
    ensures
        session.run(seq![Reply::<H, E>::Handle(file), Reply::Failed(failure)])
            == LoadStepView::<H, E>::Failed(LoadError::Io(failure.cause)),
{
    lemma_open_then_lock_then_read::<H, E>(session, file);
    lemma_run_takes_one_more(
        session,
        seq![Reply::<H, E>::Handle(file)],
        Reply::Failed(failure),
        seq![Reply::Handle(file), Reply::Failed(failure)],
    );
}

/// A file that does not hold UTF-8 is reported, never read as an empty or
/// a default note: the load ends with a decode error that says how many
/// leading bytes were sound.
pub proof fn lemma_undecodable_file_is_reported<H, E>(
    session: LoadSession<H>,
    file: H,
    data: Vec<u8>,
)
    requires
        session.phase == LoadPhase::<H>::OpeningExisting,
        !valid_utf8(data@),
    ensures
        session.run::<E>(seq![Reply::Handle(file), Reply::Done, Reply::Bytes(data)])
            == LoadStepView::<H, E>::Failed(
            LoadError::Decode(DecodeError { valid_up_to: valid_prefix_len(data@) as usize }),
        ),
{
    lemma_open_then_lock_then_read::<H, E>(session, file);
    lemma_run_takes_one_more(
        session,
        seq![Reply::<H, E>::Handle(file), Reply::Done],
        Reply::Bytes(data),
        seq![Reply::Handle(file), Reply::Done, Reply::Bytes(data)],
    );
}

/// Nothing is tried twice. A reply that answers the pending operation ends
/// the load or brings its end nearer; any other reply changes nothing.
pub proof fn lemma_every_answer_brings_the_end_nearer<H, E>(
    session: LoadSession<H>,
    reply: Reply<H, E>,
)
    ensures
        !answers(awaited(session.phase), reply) ==> session.step(reply)
            == LoadStepView::<H, E>::Continue(session),
        answers(awaited(session.phase), reply) ==> match session.step(reply) {
            LoadStepView::Continue(next) => {
                &&& steps_left(next.phase) < steps_left(session.phase)
                &&& next.contended_code == session.contended_code
            },
            _ => true,
        },
{
}

/// A load is over after at most four file operations: if every reply
/// answers the operation that was pending when it came, then after
/// `replies` the load has ended or has at most `4 - replies.len()`
/// operations left to ask for.
pub proof fn lemma_load_ends_within_four_answers<H, E>(
    session: LoadSession<H>,
    replies: Seq<Reply<H, E>>,
)
    requires
        session.phase == LoadPhase::<H>::OpeningExisting,
        forall|i: int|
            0 <= i < replies.len() ==> (#[trigger] session.run(replies.take(i))
                matches LoadStepView::Continue(waiting) ==> answers(
                awaited(waiting.phase),
                replies[i],
            )),
    ensures
        session.run(replies) matches LoadStepView::Continue(waiting) ==> steps_left(waiting.phase)
            + replies.len() <= 4,
    decreases replies.len(),
{
    if replies.len() > 0 {
        let earlier = replies.drop_last();
        assert forall|i: int| 0 <= i < earlier.len() implies (#[trigger] session.run(
            earlier.take(i),
        ) matches LoadStepView::Continue(waiting) ==> answers(
            awaited(waiting.phase),
            earlier[i],
        )) by {
            assert(earlier.take(i) =~= replies.take(i));
        }
        lemma_load_ends_within_four_answers(session, earlier);
        assert(replies.take(replies.len() - 1) =~= earlier);
        if let LoadStepView::Continue(waiting) = session.run(earlier) {
            lemma_every_answer_brings_the_end_nearer(waiting, replies.last());
        }
    }
}

/// The lock was granted at reply `i`: a lock attempt was pending then, and
/// the reply reports success.
pub open spec fn lock_granted_at<H, E>(
    session: LoadSession<H>,
    replies: Seq<Reply<H, E>>,
    i: int,
) -> bool {
    &&& 0 <= i < replies.len()
    &&& replies[i] is Done
    &&& session.run(replies.take(i)) matches LoadStepView::Continue(waiting) && awaited(
        waiting.phase,
    ) == LoadAction::TryLockExclusive
}

/// No note without the lock. Whatever the replies, a load asks for the
/// file's contents, or ends with a note, only after a lock attempt has been
/// reported as successful.
pub proof fn lemma_no_note_without_the_lock<H, E>(
    session: LoadSession<H>,
    replies: Seq<Reply<H, E>>,
)
    requires
        session.phase == LoadPhase::<H>::OpeningExisting,
    ensures
        session.run(replies) is Loaded ==> exists|i: int| lock_granted_at(session, replies, i),
        (session.run(replies) matches LoadStepView::Continue(waiting) && awaited(waiting.phase)
            == LoadAction::ReadToEnd) ==> exists|i: int| lock_granted_at(session, replies, i),
    decreases replies.len(),
{
    if replies.len() > 0 {
        let earlier = replies.drop_last();
        lemma_no_note_without_the_lock(session, earlier);
        if exists|i: int| lock_granted_at(session, earlier, i) {
            let i = choose|i: int| lock_granted_at(session, earlier, i);
            assert(replies.take(i) =~= earlier.take(i));
            assert(lock_granted_at(session, replies, i));
        }
        assert(replies.take(replies.len() - 1) =~= earlier);
        if let LoadStepView::Continue(waiting) = session.run(earlier) {
            if awaited(waiting.phase) == LoadAction::TryLockExclusive && replies.last() is Done {
                assert(lock_granted_at(session, replies, replies.len() - 1));
            }
        }
    }
}

} // verus!
