//! What holds of every request, proved from the contracts of the handlers.
//!
//! The store is outside this crate. Here it is the sequence of its rows, and
//! its part in a request is the answer it gives to an insert.

use crate::response::HttpOutcome;
use crate::routes::subscription::{
    carries, decode_form, form_pairs, once, position, present, repeats, select_fields, transition,
    value_of, ActionView, EventView, Field, Pairs, Phase,
};
use crate::storage::{rows_after_insert, Rows, StorageError};
use vstd::prelude::*;

verus! {

/// The table once the caller has carried out `action`, the store answering
/// `reply` where the action is an insert. An answer to the client leaves the
/// table alone.
pub open spec fn rows_after(rows: Rows, action: ActionView, reply: Result<(), StorageError>) -> Rows {
    match action {
        ActionView::Insert(record) => rows_after_insert(rows, record, reply),
        ActionView::Respond(_) => rows,
    }
}

/// Pairs make a submission if and only if each of the two fields comes exactly
/// once; the submission then holds the value that comes with each.
pub proof fn submission_needs_each_field_once(pairs: Pairs)
    ensures
        select_fields(pairs) is Ok <==> once(pairs, Field::Email) && once(pairs, Field::Name),
        select_fields(pairs) matches Ok(form) ==> form.email == value_of(pairs, Field::Email)
            && form.name == value_of(pairs, Field::Name),
{
    if once(pairs, Field::Email) && once(pairs, Field::Name) {
        assert forall|j: int| !repeats(pairs, j) by {
            if repeats(pairs, j) {
                let (i, field) = choose|i: int, field: Field|
                    i < j && carries(pairs, i, field) && carries(pairs, j, field);
                assert(once(pairs, field));
            }
        }
    }
    if select_fields(pairs) is Ok {
        assert forall|field: Field| once(pairs, field) by {
            let at = position(pairs, field);
            assert forall|j: int| carries(pairs, j, field) implies j == at by {
                if j < at {
                    assert(repeats(pairs, at));
                } else if at < j {
                    assert(repeats(pairs, j));
                }
            }
        }
    }
}

/// A body that carries each field once is taken in. The step from `Received`
/// asks for one insert, of a row with the two values that the body carries.
/// Where the store takes the row, the table has that one row more and the
/// request ends `Stored`, answered with 200.
pub proof fn complete_submission_is_stored(
    rows: Rows,
    body: Seq<u8>,
    pairs: Pairs,
    first: Option<(Phase, ActionView)>,
    reply: Result<(), StorageError>,
    second: Option<(Phase, ActionView)>,
)
    requires
        form_pairs(body) == Some(pairs),
        once(pairs, Field::Email),
        once(pairs, Field::Name),
        transition(Phase::Received, EventView::Body(body), first),
        reply is Ok,
        transition(Phase::Parsed, EventView::Inserted(reply), second),
    ensures
        first matches Some((Phase::Parsed, ActionView::Insert(record))) && record.email
            == value_of(pairs, Field::Email) && record.name == value_of(pairs, Field::Name)
            && rows_after(rows, ActionView::Insert(record), reply) == rows.push(record),
        second == Some((Phase::Stored, ActionView::Respond(HttpOutcome::Success))),
        HttpOutcome::Success.status_code() == 200,
{
    submission_needs_each_field_once(pairs);
}

/// A body that lacks `email`, `name` or both is turned away, and so is one
/// that does not come apart into pairs at all: the step from `Received` ends
/// the request, answered with 400, no insert is asked for, and the table is as
/// it was, whatever the store would have said.
pub proof fn incomplete_submission_is_rejected(
    rows: Rows,
    body: Seq<u8>,
    first: Option<(Phase, ActionView)>,
    reply: Result<(), StorageError>,
)
    requires
        form_pairs(body) matches Some(pairs) ==> !present(pairs, Field::Email) || !present(
            pairs,
            Field::Name,
        ),
        transition(Phase::Received, EventView::Body(body), first),
    ensures
        first matches Some((phase, action)) && phase is Rejected && phase.is_final() && action
            == ActionView::Respond(HttpOutcome::BadRequest) && rows_after(rows, action, reply)
            == rows,
        HttpOutcome::BadRequest.status_code() == 400,
{
    if let Some(pairs) = form_pairs(body) {
        submission_needs_each_field_once(pairs);
    }
}

/// Nothing is remembered from one request to the next, so a submission is not
/// held against an earlier one with the same `email`: each of the two is given
/// to the store, and where the store takes both, the table has two rows more,
/// one after the other, both with that `email`.
pub proof fn same_email_is_stored_again(
    rows: Rows,
    earlier: Seq<u8>,
    later: Seq<u8>,
    first: Option<(Phase, ActionView)>,
    second: Option<(Phase, ActionView)>,
)
    requires
        decode_form(earlier) matches Ok(one) && decode_form(later) matches Ok(other) && one.email
            == other.email,
        transition(Phase::Received, EventView::Body(earlier), first),
        transition(Phase::Received, EventView::Body(later), second),
    ensures
        first matches Some((Phase::Parsed, ActionView::Insert(a))) && second matches Some(
            (Phase::Parsed, ActionView::Insert(b)),
        ) && a.email == b.email && rows_after(
            rows_after(rows, ActionView::Insert(a), Ok(())),
            ActionView::Insert(b),
            Ok(()),
        ) == rows.push(a).push(b) && rows.push(a).push(b).len() == rows.len() + 2,
        decode_form(earlier) matches Ok(one) && first matches Some((_, ActionView::Insert(a)))
            && a.email == one.email,
{
}

/// Every step ends in a phase that goes with what the caller is told to do: an
/// insert is asked for on the way to `Parsed` and nowhere else, and an answer
/// is sent exactly when the request becomes final, and is the answer of that
/// phase. No step leads back to `Received`, and a final phase takes no further
/// step.
pub proof fn answer_goes_with_phase(
    phase: Phase,
    event: EventView,
    next: Option<(Phase, ActionView)>,
)
    requires
        transition(phase, event, next),
    ensures
        phase.is_final() ==> next is None,
        next matches Some((after, action)) ==> after != Phase::Received && (after == Phase::Parsed
            <==> action is Insert) && (after.is_final() <==> action is Respond),
        next matches Some((after, ActionView::Respond(outcome))) ==> after.answer() == Some(
            outcome,
        ),
{
}

} // verus!
