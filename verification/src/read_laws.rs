//! What holds of the reader over whole runs.

use crate::read_fsm::{ReaderModel, State};
use crate::{MN1, MN2};
use vstd::prelude::*;

verus! {

/// The polls among `outcomes` that brought a byte, in their order.
pub open spec fn arrived(outcomes: Seq<Option<u8>>) -> Seq<Option<u8>> {
    outcomes.filter(|outcome: Option<u8>| outcome is Some)
}

/// How many of `outcomes` brought no byte.
pub open spec fn stalls(outcomes: Seq<Option<u8>>) -> nat {
    outcomes.filter(|outcome: Option<u8>| outcome is None).len()
}

/// The polls that bring the bytes of `bytes` one by one, with no stall between them.
pub open spec fn delivered(bytes: Seq<u8>) -> Seq<Option<u8>> {
    Seq::new(bytes.len(), |i: int| Some(bytes[i]))
}

/// A step keeps what `wf` says.
pub proof fn lemma_step_keeps_wf(reader: ReaderModel, outcome: Option<u8>)
    requires
        reader.wf(),
    ensures
        reader.step(outcome).wf(),
        reader.step(outcome).buffer.len() == reader.buffer.len(),
{
}

/// A well-formed reader has room for whatever comes.
pub proof fn lemma_wf_accepts(reader: ReaderModel, outcome: Option<u8>)
    requires
        reader.wf(),
    ensures
        reader.accepts(outcome),
{
}

/// A run keeps what `wf` says, and never changes the length of the frame.
pub proof fn lemma_run_keeps_wf(reader: ReaderModel, outcomes: Seq<Option<u8>>)
    requires
        reader.wf(),
    ensures
        reader.run(outcomes).wf(),
        reader.run(outcomes).buffer.len() == reader.buffer.len(),
    decreases outcomes.len(),
{
    if outcomes.len() > 0 {
        lemma_step_keeps_wf(reader, outcomes[0]);
        lemma_run_keeps_wf(reader.step(outcomes[0]), outcomes.drop_first());
    }
}

/// Whatever a fresh reader is fed, if it finishes then its frame is full and starts with the
/// two header bytes.
pub proof fn lemma_finished_frame_starts_with_header(
    buffer: Seq<u8>,
    retries: nat,
    outcomes: Seq<Option<u8>>,
)
    requires
        buffer.len() >= 3,
    ensures
        ({
            let end = ReaderModel::fresh(buffer, retries).run(outcomes);
            end.state is Finished ==> {
                &&& end.buffer.len() == buffer.len()
                &&& end.index == buffer.len()
                &&& end.buffer[0] == MN1
                &&& end.buffer[1] == MN2
            }
        }),
{
    lemma_run_keeps_wf(ReaderModel::fresh(buffer, retries), outcomes);
}

/// A reader that has stopped stays as it is.
pub proof fn lemma_final_is_final(reader: ReaderModel, outcomes: Seq<Option<u8>>)
    requires
        reader.is_final(),
    ensures
        reader.run(outcomes) == reader,
    decreases outcomes.len(),
{
    if outcomes.len() > 0 {
        lemma_final_is_final(reader, outcomes.drop_first());
    }
}

/// Nothing interrupts a reader that has stopped.
proof fn lemma_no_interruptions_when_final(reader: ReaderModel, outcomes: Seq<Option<u8>>)
    requires
        reader.is_final(),
    ensures
        reader.interruptions(outcomes) == 0,
    decreases outcomes.len(),
{
    if outcomes.len() > 0 {
        lemma_no_interruptions_when_final(reader, outcomes.drop_first());
    }
}

/// The reader fails exactly when more polls interrupt it than it has retries; as long as it
/// has not failed, each interruption has cost it one retry.
pub proof fn lemma_fails_exactly_when_budget_exceeded(
    reader: ReaderModel,
    outcomes: Seq<Option<u8>>,
)
    requires
        !(reader.state is Failed),
    ensures
        reader.run(outcomes).state is Failed <==> reader.interruptions(outcomes) > reader.retries,
        !(reader.run(outcomes).state is Failed) ==> reader.run(outcomes).retries
            == reader.retries - reader.interruptions(outcomes),
    decreases outcomes.len(),
{
    if outcomes.len() > 0 {
        let next = reader.step(outcomes[0]);
        let rest = outcomes.drop_first();
        if next.state is Failed {
            lemma_final_is_final(next, rest);
            lemma_no_interruptions_when_final(next, rest);
        } else {
            lemma_fails_exactly_when_budget_exceeded(next, rest);
        }
    }
}

/// Splits off the first of `outcomes` from what arrived and from the stalls.
proof fn lemma_first_outcome(outcomes: Seq<Option<u8>>)
    requires
        outcomes.len() > 0,
    ensures
        outcomes[0] is Some ==> arrived(outcomes) == seq![outcomes[0]] + arrived(
            outcomes.drop_first(),
        ) && stalls(outcomes) == stalls(outcomes.drop_first()),
        outcomes[0] is None ==> arrived(outcomes) == arrived(outcomes.drop_first()) && stalls(
            outcomes,
        ) == stalls(outcomes.drop_first()) + 1,
{
    let first = seq![outcomes[0]];
    let rest = outcomes.drop_first();
    let some = |outcome: Option<u8>| outcome is Some;
    let none = |outcome: Option<u8>| outcome is None;
    assert(outcomes == first + rest);
    Seq::filter_distributes_over_add(first, rest, some);
    Seq::filter_distributes_over_add(first, rest, none);
    reveal_with_fuel(Seq::filter, 2);
    assert(first.drop_last() == Seq::<Option<u8>>::empty());
    assert(first.last() == outcomes[0]);
    if outcomes[0] is Some {
        assert(first.filter(some) == first);
        assert(first.filter(none) == Seq::<Option<u8>>::empty());
    } else {
        assert(first.filter(some) == Seq::<Option<u8>>::empty());
        assert(first.filter(none) == first);
    }
}

/// A run that does not fail goes the same way with more retries, and keeps the extra ones.
proof fn lemma_extra_retries(reader: ReaderModel, extra: nat, outcomes: Seq<Option<u8>>)
    requires
        !(reader.run(outcomes).state is Failed),
    ensures
        (ReaderModel { retries: reader.retries + extra, ..reader }).run(outcomes) == (ReaderModel {
            retries: reader.run(outcomes).retries + extra,
            ..reader.run(outcomes)
        }),
    decreases outcomes.len(),
{
    if outcomes.len() > 0 {
        let next = reader.step(outcomes[0]);
        let rest = outcomes.drop_first();
        if next.state is Failed {
            lemma_final_is_final(next, rest);
        }
        lemma_extra_retries(next, extra, rest);
        let richer = ReaderModel { retries: reader.retries + extra, ..reader };
        assert(richer.step(outcomes[0]) == ReaderModel { retries: next.retries + extra, ..next });
    }
}

/// Unless the reader fails, the polls that bring no byte leave no trace but in the retries:
/// the reader ends in the state, and with the frame, that the bytes alone would have given.
pub proof fn lemma_stalls_leave_no_trace(reader: ReaderModel, outcomes: Seq<Option<u8>>)
    requires
        !(reader.run(outcomes).state is Failed),
    ensures
        reader.run(outcomes).state == reader.run(arrived(outcomes)).state,
        reader.run(outcomes).buffer == reader.run(arrived(outcomes)).buffer,
        reader.run(outcomes).index == reader.run(arrived(outcomes)).index,
        reader.run(outcomes).retries <= reader.run(arrived(outcomes)).retries,
    decreases outcomes.len(),
{
    if outcomes.len() == 0 {
        assert(arrived(outcomes) == outcomes);
    } else {
        let rest = outcomes.drop_first();
        let next = reader.step(outcomes[0]);
        lemma_first_outcome(outcomes);
        if outcomes[0] is Some {
            assert(arrived(outcomes).drop_first() == arrived(rest));
            lemma_stalls_leave_no_trace(next, rest);
        } else if reader.is_final() {
            lemma_final_is_final(reader, arrived(outcomes));
            lemma_final_is_final(reader, outcomes);
        } else {
            if next.state is Failed {
                lemma_final_is_final(next, rest);
            }
            lemma_stalls_leave_no_trace(next, rest);
            lemma_extra_retries(next, 1, arrived(rest));
            assert(reader == ReaderModel { retries: next.retries + 1, ..next });
        }
    }
}

/// The reader tolerates polls that bring no byte, wherever they fall: if the bytes that
/// arrive make up what the reader needs to finish, and no more polls interrupt the reader
/// than it has retries, it finishes, with the frame that the bytes alone would have given.
pub proof fn lemma_tolerates_stalls(reader: ReaderModel, outcomes: Seq<Option<u8>>)
    requires
        !(reader.state is Failed),
        reader.interruptions(outcomes) <= reader.retries,
        reader.run(arrived(outcomes)).state is Finished,
    ensures
        reader.run(outcomes).state is Finished,
        reader.run(outcomes).buffer == reader.run(arrived(outcomes)).buffer,
        reader.run(outcomes).index == reader.run(arrived(outcomes)).index,
{
    lemma_fails_exactly_when_budget_exceeded(reader, outcomes);
    lemma_stalls_leave_no_trace(reader, outcomes);
}

/// A run that does not fail goes the same way with fewer retries, as long as those that it
/// had left over at the end are not touched.
proof fn lemma_spare_retries(reader: ReaderModel, spare: nat, outcomes: Seq<Option<u8>>)
    requires
        !(reader.run(outcomes).state is Failed),
        spare <= reader.run(outcomes).retries,
    ensures
        spare <= reader.retries,
        (ReaderModel { retries: (reader.retries - spare) as nat, ..reader }).run(outcomes) == (
        ReaderModel {
            retries: (reader.run(outcomes).retries - spare) as nat,
            ..reader.run(outcomes)
        }),
    decreases outcomes.len(),
{
    if outcomes.len() > 0 {
        let next = reader.step(outcomes[0]);
        let rest = outcomes.drop_first();
        if next.state is Failed {
            lemma_final_is_final(next, rest);
        }
        lemma_spare_retries(next, spare, rest);
        let poorer = ReaderModel { retries: (reader.retries - spare) as nat, ..reader };
        assert(poorer.step(outcomes[0]) == ReaderModel {
            retries: (next.retries - spare) as nat,
            ..next
        });
    }
}

/// Polls that bring no byte only cost retries. If the bytes that arrive make the reader
/// finish when nothing comes between them, and the reader has at least as many retries left
/// over then as there are stalls, it also finishes with the stalls in between, wherever they
/// fall, and with the same frame.
proof fn lemma_stalls_only_cost_retries(reader: ReaderModel, outcomes: Seq<Option<u8>>)
    requires
        reader.run(arrived(outcomes)).state is Finished,
        stalls(outcomes) <= reader.run(arrived(outcomes)).retries,
    ensures
        reader.run(outcomes).state is Finished,
        reader.run(outcomes).buffer == reader.run(arrived(outcomes)).buffer,
        reader.run(outcomes).index == reader.run(arrived(outcomes)).index,
        reader.run(outcomes).retries >= reader.run(arrived(outcomes)).retries - stalls(outcomes),
    decreases outcomes.len(),
{
    if outcomes.len() == 0 {
        assert(arrived(outcomes) == outcomes);
    } else {
        let rest = outcomes.drop_first();
        lemma_first_outcome(outcomes);
        if outcomes[0] is Some {
            assert(arrived(outcomes).drop_first() == arrived(rest));
            lemma_stalls_only_cost_retries(reader.step(outcomes[0]), rest);
        } else if reader.is_final() {
            lemma_final_is_final(reader, arrived(outcomes));
            lemma_final_is_final(reader, outcomes);
        } else {
            lemma_spare_retries(reader, 1, arrived(rest));
            lemma_stalls_only_cost_retries(reader.step(outcomes[0]), rest);
        }
    }
}

/// A collecting reader that is given exactly the bytes that its frame still lacks finishes,
/// with those bytes behind what it had.
proof fn lemma_collects_rest(reader: ReaderModel, bytes: Seq<u8>)
    requires
        reader.wf(),
        reader.state is Reading,
        bytes.len() == reader.buffer.len() - reader.index,
    ensures
        reader.run(delivered(bytes)) == (ReaderModel {
            buffer: reader.buffer.take(reader.index as int) + bytes,
            index: reader.buffer.len(),
            state: State::Finished,
            retries: reader.retries,
        }),
    decreases bytes.len(),
{
    let outcomes = delivered(bytes);
    let next = reader.step(outcomes[0]);
    let rest = bytes.drop_first();
    assert(outcomes.drop_first() == delivered(rest));
    if next.state is Finished {
        lemma_final_is_final(next, delivered(rest));
        assert(next.buffer == reader.buffer.take(reader.index as int) + bytes);
    } else {
        lemma_collects_rest(next, rest);
        assert(next.buffer.take(next.index as int) + rest == reader.buffer.take(
            reader.index as int,
        ) + bytes);
    }
}

/// A fresh reader that is given the header and then as many bytes as its frame has room for
/// finishes with exactly that frame, and without touching its retries.
pub proof fn lemma_collects_frame(buffer: Seq<u8>, retries: nat, payload: Seq<u8>)
    requires
        buffer.len() >= 3,
        payload.len() == buffer.len() - 2,
    ensures
        ReaderModel::fresh(buffer, retries).run(delivered(seq![MN1, MN2] + payload)) == (
        ReaderModel {
            buffer: seq![MN1, MN2] + payload,
            index: buffer.len(),
            state: State::Finished,
            retries,
        }),
{
    let outcomes = delivered(seq![MN1, MN2] + payload);
    let fresh = ReaderModel::fresh(buffer, retries);
    let second = fresh.step(outcomes[0]);
    let reading = second.step(outcomes[1]);
    assert(outcomes.drop_first().drop_first() == delivered(payload));
    assert(fresh.run(outcomes) == reading.run(delivered(payload))) by {
        reveal_with_fuel(ReaderModel::run, 3);
    }
    lemma_collects_rest(reading, payload);
    assert(reading.buffer.take(2) + payload == seq![MN1, MN2] + payload);
}

/// A frame that arrives in pieces is still collected: when the bytes that reach a fresh
/// reader are the header followed by a full payload, and no more polls come back empty than
/// the reader has retries, the reader finishes with the header and the payload in its frame,
/// wherever the empty polls fall.
pub proof fn lemma_frame_survives_stalls(
    buffer: Seq<u8>,
    retries: nat,
    payload: Seq<u8>,
    outcomes: Seq<Option<u8>>,
)
    requires
        buffer.len() >= 3,
        payload.len() == buffer.len() - 2,
        arrived(outcomes) == delivered(seq![MN1, MN2] + payload),
        stalls(outcomes) <= retries,
    ensures
        ReaderModel::fresh(buffer, retries).run(outcomes).state is Finished,
        ReaderModel::fresh(buffer, retries).run(outcomes).buffer == seq![MN1, MN2] + payload,
{
    lemma_collects_frame(buffer, retries, payload);
    lemma_stalls_only_cost_retries(ReaderModel::fresh(buffer, retries), outcomes);
}

} // verus!
