//! `POST /subscriptions`: taking in one submission.

use crate::record::{is_version_4, RecordView, SubscriptionId, SubscriptionRecord, Timestamp};
use crate::response::HttpOutcome;
use crate::storage::StorageError;
use vstd::prelude::*;

verus! {

/// A decoded form body: its pairs of key and value, in the order in which
/// the body gives them.
pub type Pairs = Seq<(Seq<char>, Seq<char>)>;

/// The two fields of a submission.
#[derive(Clone, Copy, Debug, PartialEq, Eq, Structural)]
pub enum Field {
    Email,
    Name,
}

impl Field {
    /// The key under which the form carries the field.
    pub open spec fn key(self) -> Seq<char> {
        match self {
            Field::Email => "email"@,
            Field::Name => "name"@,
        }
    }

    /// The key as text.
    pub fn as_str(&self) -> (key: &'static str)
        ensures
            key@ == self.key(),
    {
        match self {
            Field::Email => "email",
            Field::Name => "name",
        }
    }
}

/// The two keys differ, so a pair is for at most one field.
pub proof fn keys_differ()
    ensures
        Field::Email.key() != Field::Name.key(),
{
    reveal_strlit("email");
    reveal_strlit("name");
    assert(Field::Email.key().len() == 5);
    assert(Field::Name.key().len() == 4);
}

/// Why a body is not a submission.
#[derive(Clone, Copy, Debug, PartialEq, Eq, Structural)]
pub enum FormError {
    /// The body could not be taken apart into pairs.
    Malformed,
    /// No pair carries the field.
    MissingField(Field),
    /// A second pair carries the field.
    DuplicateField(Field),
}

/// A submission: what the form of `POST /subscriptions` must carry. Both
/// fields are required; neither is looked into.
#[derive(Clone, Debug, PartialEq, Eq)]
pub struct FormData {
    pub email: String,
    pub name: String,
}

/// A submission as two sequences of characters.
pub struct FormDataView {
    pub email: Seq<char>,
    pub name: Seq<char>,
}

impl View for FormData {
    type V = FormDataView;

    open spec fn view(&self) -> FormDataView {
        FormDataView { email: self.email@, name: self.name@ }
    }
}

/// Whether the pair at `i` carries `field`.
pub open spec fn carries(pairs: Pairs, i: int, field: Field) -> bool {
    0 <= i < pairs.len() && pairs[i].0 == field.key()
}

/// Whether some pair carries `field`.
pub open spec fn present(pairs: Pairs, field: Field) -> bool {
    exists|i: int| carries(pairs, i, field)
}

/// Whether exactly one pair carries `field`.
pub open spec fn once(pairs: Pairs, field: Field) -> bool {
    exists|i: int| #[trigger]
        carries(pairs, i, field) && forall|j: int| carries(pairs, j, field) ==> j == i
}

/// Whether the pair at `j` carries a field that an earlier pair carries too.
pub open spec fn repeats(pairs: Pairs, j: int) -> bool {
    exists|i: int, field: Field| i < j && carries(pairs, i, field) && carries(pairs, j, field)
}

/// Whether `j` is the first place at which a field comes a second time.
pub open spec fn is_first_repeat(pairs: Pairs, j: int) -> bool {
    repeats(pairs, j) && forall|k: int| k < j ==> !repeats(pairs, k)
}

/// The first place at which a field comes a second time, where there is one.
pub open spec fn first_repeat(pairs: Pairs) -> int {
    choose|j: int| is_first_repeat(pairs, j)
}

/// A place at which `field` is carried, where there is one.
pub open spec fn position(pairs: Pairs, field: Field) -> int {
    choose|i: int| carries(pairs, i, field)
}

/// The value that comes with `field`, where a pair carries it.
pub open spec fn value_of(pairs: Pairs, field: Field) -> Seq<char> {
    pairs[position(pairs, field)].1
}

/// The field that the pair at `i` carries, where it carries one.
pub open spec fn field_at(pairs: Pairs, i: int) -> Field {
    if pairs[i].0 == Field::Email.key() {
        Field::Email
    } else {
        Field::Name
    }
}

/// The submission that a sequence of pairs makes.
///
/// Pairs under other keys are passed over. A field that comes twice spoils the
/// form, and the first pair to bring a field a second time decides which field
/// is reported. Otherwise each field must be there, `email` being looked for
/// before `name`, and the submission holds the value of each.
pub open spec fn select_fields(pairs: Pairs) -> Result<FormDataView, FormError> {
    if exists|j: int| repeats(pairs, j) {
        Err(FormError::DuplicateField(field_at(pairs, first_repeat(pairs))))
    } else if !present(pairs, Field::Email) {
        Err(FormError::MissingField(Field::Email))
    } else if !present(pairs, Field::Name) {
        Err(FormError::MissingField(Field::Name))
    } else {
        Ok(
            FormDataView {
                email: value_of(pairs, Field::Email),
                name: value_of(pairs, Field::Name),
            },
        )
    }
}

/// What decoding leaves of a result: the submission by its view, the error
/// as it is.
pub open spec fn decoded_view(decoded: Result<FormData, FormError>) -> Result<
    FormDataView,
    FormError,
> {
    match decoded {
        Ok(form) => Ok(form@),
        Err(e) => Err(e),
    }
}

/// The error with which `serde_urlencoded` refuses a body.
#[verifier::external_type_specification]
#[verifier::external_body]
pub struct ExUrlencodedError(serde_urlencoded::de::Error);

/// The pairs that `serde_urlencoded` reads out of a body, percent-decoded, or
/// `None` where it refuses the body. Where the body is cut at `&` and `=`, and
/// what a percent sign or a plus sign turns into, is the decoder's business;
/// the same bytes always give the same pairs.
pub uninterp spec fn form_pairs(body: Seq<u8>) -> Option<Seq<(Seq<char>, Seq<char>)>>;

/// Decodes a body with `serde_urlencoded::from_bytes`, asked for a vector of
/// pairs of strings. The claim is that the result is a function of the bytes,
/// named [`form_pairs`]: the pairs where the decoder succeeds, `None` where it
/// fails. Nothing is claimed of what the pairs hold.
#[verifier::external_body]
fn url_decode(body: &[u8]) -> (decoded: Result<Vec<(String, String)>, serde_urlencoded::de::Error>)
    ensures
        (match decoded {
            Ok(pairs) => form_pairs(body@) == Some(pairs.deep_view()),
            Err(_) => form_pairs(body@) is None,
        }),
{
    serde_urlencoded::from_bytes::<Vec<(String, String)>>(body)
}

/// The submission that a body makes: that of its pairs, where it has any.
pub open spec fn decode_form(body: Seq<u8>) -> Result<FormDataView, FormError> {
    match form_pairs(body) {
        Some(pairs) => select_fields(pairs),
        None => Err(FormError::Malformed),
    }
}

/// A place before which nothing repeats, and at which something does, is the
/// first repeat.
proof fn first_repeat_is(pairs: Pairs, j: int)
    requires
        is_first_repeat(pairs, j),
    ensures
        first_repeat(pairs) == j,
{
    let chosen = first_repeat(pairs);
    assert(is_first_repeat(pairs, chosen));
    if chosen < j {
        assert(!repeats(pairs, chosen));
    } else if j < chosen {
        assert(!repeats(pairs, j));
    }
}

/// Where nothing repeats, a field is carried at one place at most.
proof fn position_is(pairs: Pairs, field: Field, i: int)
    requires
        carries(pairs, i, field),
        forall|j: int| !repeats(pairs, j),
    ensures
        position(pairs, field) == i,
{
    let chosen = position(pairs, field);
    assert(carries(pairs, chosen, field));
    if chosen < i {
        assert(repeats(pairs, i));
    } else if i < chosen {
        assert(repeats(pairs, chosen));
    }
}

impl FormData {
    /// Picks the submission out of the pairs of a decoded form.
    pub fn from_pairs(pairs: &[(String, String)]) -> (decoded: Result<FormData, FormError>)
        ensures
            decoded_view(decoded) == select_fields(pairs.deep_view()),
    {
        let ghost all = pairs.deep_view();
        let email_key = Field::Email.as_str().to_owned();
        let name_key = Field::Name.as_str().to_owned();
        let mut email: Option<String> = None;
        let mut name: Option<String> = None;
        let ghost mut email_at: int = 0;
        let ghost mut name_at: int = 0;
        let mut i: usize = 0;
        proof {
            keys_differ();
        }
        while i < pairs.len()
            invariant
                i <= pairs.len(),
                all == pairs.deep_view(),
                all.len() == pairs.len(),
                email_key@ == Field::Email.key(),
                name_key@ == Field::Name.key(),
                Field::Email.key() != Field::Name.key(),
                forall|k: int| k < i ==> !repeats(all, k),
                match email {
                    Some(value) => email_at < i && carries(all, email_at, Field::Email) && value@
                        == all[email_at].1,
                    None => forall|k: int| k < i ==> !carries(all, k, Field::Email),
                },
                match name {
                    Some(value) => name_at < i && carries(all, name_at, Field::Name) && value@
                        == all[name_at].1,
                    None => forall|k: int| k < i ==> !carries(all, k, Field::Name),
                },
            decreases pairs.len() - i,
        {
            let pair = &pairs[i];
            if pair.0 == email_key {
                if email.is_some() {
                    proof {
                        first_repeat_is(all, i as int);
                    }
                    return Err(FormError::DuplicateField(Field::Email));
                }
                email = Some(pair.1.clone());
                proof {
                    email_at = i as int;
                }
            } else if pair.0 == name_key {
                if name.is_some() {
                    proof {
                        first_repeat_is(all, i as int);
                    }
                    return Err(FormError::DuplicateField(Field::Name));
                }
                name = Some(pair.1.clone());
                proof {
                    name_at = i as int;
                }
            }
            i += 1;
        }
        match (email, name) {
            (None, _) => Err(FormError::MissingField(Field::Email)),
            (Some(_), None) => Err(FormError::MissingField(Field::Name)),
            (Some(email), Some(name)) => {
                proof {
                    position_is(all, Field::Email, email_at);
                    position_is(all, Field::Name, name_at);
                }
                Ok(FormData { email, name })
            },
        }
    }

    /// Decodes the body of a request into a submission.
    pub fn parse(body: &[u8]) -> (decoded: Result<FormData, FormError>)
        ensures
            decoded_view(decoded) == decode_form(body@),
    {
        match url_decode(body) {
            Ok(pairs) => {
                let slice = pairs.as_slice();
                assert(slice.deep_view() =~= pairs.deep_view());
                FormData::from_pairs(slice)
            },
            Err(_) => Err(FormError::Malformed),
        }
    }
}

/// Where a request stands.
#[derive(Clone, Copy, Debug, PartialEq, Eq, Structural)]
pub enum Phase {
    /// The request has come in; its body has not been looked at.
    Received,
    /// The body was a submission, and its row is with the store.
    Parsed,
    /// The body was no submission. Final.
    Rejected(FormError),
    /// The store took the row. Final.
    Stored,
    /// The store did not take the row. Final.
    StoreFailed(StorageError),
}

impl Phase {
    /// The answer that goes with a final phase; none before that.
    pub open spec fn answer(self) -> Option<HttpOutcome> {
        match self {
            Phase::Received | Phase::Parsed => None,
            Phase::Rejected(_) => Some(HttpOutcome::BadRequest),
            Phase::Stored => Some(HttpOutcome::Success),
            Phase::StoreFailed(_) => Some(HttpOutcome::InternalServerError),
        }
    }

    /// Whether the request has been answered.
    pub open spec fn is_final(self) -> bool {
        self.answer() is Some
    }

    /// The answer to send once the request is in this phase, if it is final.
    pub fn outcome(&self) -> (outcome: Option<HttpOutcome>)
        ensures
            outcome == self.answer(),
    {
        match self {
            Phase::Received | Phase::Parsed => None,
            Phase::Rejected(_) => Some(HttpOutcome::BadRequest),
            Phase::Stored => Some(HttpOutcome::Success),
            Phase::StoreFailed(_) => Some(HttpOutcome::InternalServerError),
        }
    }
}

/// What happens to a request from outside.
#[derive(Debug, PartialEq, Eq)]
pub enum Event {
    /// The body has been read in full.
    Body(Vec<u8>),
    /// The store has answered the insert.
    Inserted(Result<(), StorageError>),
}

/// An event, with the body as a sequence of bytes.
pub enum EventView {
    Body(Seq<u8>),
    Inserted(Result<(), StorageError>),
}

impl View for Event {
    type V = EventView;

    open spec fn view(&self) -> EventView {
        match self {
            Event::Body(body) => EventView::Body(body@),
            Event::Inserted(reply) => EventView::Inserted(*reply),
        }
    }
}

/// What the caller is to do next.
#[derive(Clone, Debug, PartialEq, Eq)]
pub enum Action {
    /// Insert the row, once, and come back with the store's answer.
    Insert(SubscriptionRecord),
    /// Send the answer. The request is done.
    Respond(HttpOutcome),
}

/// An action, with the row as plain values.
pub enum ActionView {
    Insert(RecordView),
    Respond(HttpOutcome),
}

impl View for Action {
    type V = ActionView;

    open spec fn view(&self) -> ActionView {
        match self {
            Action::Insert(record) => ActionView::Insert(record@),
            Action::Respond(outcome) => ActionView::Respond(*outcome),
        }
    }
}

/// A step by its views.
pub open spec fn step_view(step: Option<(Phase, Action)>) -> Option<(Phase, ActionView)> {
    match step {
        Some((phase, action)) => Some((phase, action@)),
        None => None,
    }
}

/// The steps that a request may take: whether, in `phase`, `event` leads to
/// `next`.
///
/// A request that has just come in needs its body. A body that decodes goes to
/// the store as one row that holds the two fields as decoded, under a version
/// 4 identifier; which identifier and which time is not laid down. A body that
/// does not decode is answered with 400. A request whose row is with the store
/// needs the store's answer, and is answered with 200 where the row was taken
/// and with 500 where it was not. No other event goes with a phase, and there
/// is then no step.
pub open spec fn transition(phase: Phase, event: EventView, next: Option<(Phase, ActionView)>) -> bool {
    match (phase, event) {
        (Phase::Received, EventView::Body(body)) => match decode_form(body) {
            Ok(form) => {
                &&& next matches Some((Phase::Parsed, ActionView::Insert(record)))
                &&& record.email == form.email
                &&& record.name == form.name
                &&& is_version_4(record.id)
            },
            Err(e) => next == Some(
                (Phase::Rejected(e), ActionView::Respond(HttpOutcome::BadRequest)),
            ),
        },
        (Phase::Parsed, EventView::Inserted(Ok(_))) => next == Some(
            (Phase::Stored, ActionView::Respond(HttpOutcome::Success)),
        ),
        (Phase::Parsed, EventView::Inserted(Err(e))) => next == Some(
            (Phase::StoreFailed(e), ActionView::Respond(HttpOutcome::InternalServerError)),
        ),
        _ => next is None,
    }
}

/// Takes a request one step further. Given the phase that the request is in
/// and what has happened to it, returns the phase that it is in now and what
/// the caller is to do next; `None` where the event does not go with the
/// phase. A final phase takes no event.
///
/// The caller starts in `Received` with the body, carries out each action, and
/// comes back with the store's answer after an insert. Two steps at most end a
/// request.
pub fn subscribe(phase: Phase, event: Event) -> (next: Option<(Phase, Action)>)
    ensures
        transition(phase, event@, step_view(next)),
{
    match (phase, event) {
        (Phase::Received, Event::Body(body)) => match FormData::parse(body.as_slice()) {
            Ok(form) => {
                let id = SubscriptionId::generate();
                let record = SubscriptionRecord::new(id, form, Timestamp::now());
                Some((Phase::Parsed, Action::Insert(record)))
            },
            Err(e) => Some((Phase::Rejected(e), Action::Respond(HttpOutcome::BadRequest))),
        },
        (Phase::Parsed, Event::Inserted(Ok(_))) => Some(
            (Phase::Stored, Action::Respond(HttpOutcome::Success)),
        ),
        (Phase::Parsed, Event::Inserted(Err(e))) => Some(
            (Phase::StoreFailed(e), Action::Respond(HttpOutcome::InternalServerError)),
        ),
        _ => None,
    }
}

} // verus!
