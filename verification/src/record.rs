//! The row that an accepted submission becomes: the two fields of the form, an
//! identifier drawn for it and the time at which it was taken.

use crate::routes::subscription::FormData;
use vstd::prelude::*;

verus! {

/// The bits of a 128-bit identifier that hold its version and its variant.
pub const VERSION_AND_VARIANT_MASK: u128 = 0x0000_0000_0000_f000_c000_0000_0000_0000;

/// What those bits hold in a random (version 4) identifier of the usual
/// variant: version `0100`, variant `10`.
pub const VERSION_4_VARIANT_1: u128 = 0x0000_0000_0000_4000_8000_0000_0000_0000;

/// Nanoseconds in a second.
pub const NANOS_PER_SEC: u32 = 1_000_000_000;

/// Whether `value`, read as the sixteen bytes of a UUID from the most
/// significant down, is a version 4 identifier.
pub open spec fn is_version_4(value: u128) -> bool {
    value & VERSION_AND_VARIANT_MASK == VERSION_4_VARIANT_1
}

/// Draws an identifier with `uuid::Uuid::new_v4` and hands it out as the
/// number that `Uuid::as_u128` packs its bytes into. `new_v4` takes 128 bits
/// from the operating system's generator and overwrites the version and
/// variant bits, which is all that is claimed here: nothing is said of the
/// other 122 bits, and two draws may or may not differ. `new_v4` panics when
/// the operating system has no randomness to give.
#[verifier::external_body]
fn random_uuid() -> (value: u128)
    ensures
        is_version_4(value),
{
    uuid::Uuid::new_v4().as_u128()
}

/// Reads the clock with `chrono::Utc::now`, as `sqlx::types::chrono` hands it
/// on, and returns what `DateTime::timestamp` and
/// `DateTime::timestamp_subsec_nanos` give for it: whole seconds since the
/// Unix epoch and the nanoseconds within the second. `now` builds its value
/// from a `std::time::Duration`, whose subsecond part is below one second;
/// nothing else is claimed. `now` panics when the system clock stands before
/// 1970.
#[verifier::external_body]
fn utc_now() -> (now: (i64, u32))
    ensures
        now.1 < NANOS_PER_SEC,
{
    let now = sqlx::types::chrono::Utc::now();
    (now.timestamp(), now.timestamp_subsec_nanos())
}

/// The identifier of one row: a version 4 UUID, held as a number.
#[derive(Clone, Copy, Debug, PartialEq, Eq)]
pub struct SubscriptionId {
    value: u128,
}

impl View for SubscriptionId {
    type V = u128;

    closed spec fn view(&self) -> u128 {
        self.value
    }
}

impl SubscriptionId {
    #[verifier::type_invariant]
    spec fn well_formed(self) -> bool {
        is_version_4(self.value)
    }

    /// A freshly drawn identifier. Which one is up to the generator of random
    /// numbers; that it is of version 4 is all that is known of it.
    pub fn generate() -> (id: SubscriptionId)
        ensures
            is_version_4(id@),
    {
        SubscriptionId { value: random_uuid() }
    }

    /// The identifier with the given bits, where they are those of a version
    /// 4 UUID.
    pub fn from_u128(value: u128) -> (id: Option<SubscriptionId>)
        ensures
            (match id {
                Some(found) => is_version_4(value) && found@ == value,
                None => !is_version_4(value),
            }),
    {
        if value & VERSION_AND_VARIANT_MASK == VERSION_4_VARIANT_1 {
            Some(SubscriptionId { value })
        } else {
            None
        }
    }

    /// The identifier's bits, most significant byte first.
    pub fn as_u128(&self) -> (value: u128)
        ensures
            value == self@,
            is_version_4(value),
    {
        proof {
            use_type_invariant(self);
        }
        self.value
    }
}

/// A point in time, to the nanosecond, in UTC. Its view is the number of
/// nanoseconds since the Unix epoch.
#[derive(Clone, Copy, Debug, PartialEq, Eq)]
pub struct Timestamp {
    secs: i64,
    nanos: u32,
}

impl View for Timestamp {
    type V = int;

    closed spec fn view(&self) -> int {
        self.secs * NANOS_PER_SEC + self.nanos
    }
}

impl Timestamp {
    #[verifier::type_invariant]
    spec fn well_formed(self) -> bool {
        self.nanos < NANOS_PER_SEC
    }

    /// The nanoseconds since the epoch of the instant `nanos` nanoseconds
    /// after the whole second `secs`.
    pub open spec fn instant(secs: int, nanos: int) -> int {
        secs * NANOS_PER_SEC + nanos
    }

    /// The current time by the system's clock. Nothing is known of it but that
    /// it is a point in time.
    pub fn now() -> (now: Timestamp) {
        let (secs, nanos): (i64, u32) = utc_now();
        Timestamp { secs, nanos }
    }

    /// The instant `nanos` nanoseconds after second `secs` of the epoch,
    /// where `nanos` is less than a second.
    pub fn new(secs: i64, nanos: u32) -> (at: Option<Timestamp>)
        ensures
            (match at {
                Some(t) => nanos < NANOS_PER_SEC && t@ == Self::instant(secs as int, nanos as int),
                None => nanos >= NANOS_PER_SEC,
            }),
    {
        if nanos < NANOS_PER_SEC {
            Some(Timestamp { secs, nanos })
        } else {
            None
        }
    }

    /// Whole seconds since the epoch, rounded down.
    pub fn secs(&self) -> (secs: i64)
        ensures
            Self::instant(secs as int, 0) <= self@ < Self::instant(secs + 1, 0),
    {
        proof {
            use_type_invariant(self);
        }
        self.secs
    }

    /// Nanoseconds since the last whole second.
    pub fn subsec_nanos(&self) -> (nanos: u32)
        ensures
            nanos < NANOS_PER_SEC,
            nanos == self@ % (NANOS_PER_SEC as int),
    {
        proof {
            use_type_invariant(self);
            vstd::arithmetic::div_mod::lemma_fundamental_div_mod_converse(
                self@,
                NANOS_PER_SEC as int,
                self.secs as int,
                self.nanos as int,
            );
        }
        self.nanos
    }
}

/// One row of the subscription table. A row is made once and not changed
/// afterwards: its parts can be read, not written.
#[derive(Clone, Debug, PartialEq, Eq)]
pub struct SubscriptionRecord {
    id: SubscriptionId,
    email: String,
    name: String,
    subscribed_at: Timestamp,
}

/// A row as plain values: the identifier's bits, the two fields as sequences
/// of characters, and the nanoseconds since the epoch at which it was taken.
pub struct RecordView {
    pub id: u128,
    pub email: Seq<char>,
    pub name: Seq<char>,
    pub subscribed_at: int,
}

impl View for SubscriptionRecord {
    type V = RecordView;

    closed spec fn view(&self) -> RecordView {
        RecordView {
            id: self.id@,
            email: self.email@,
            name: self.name@,
            subscribed_at: self.subscribed_at@,
        }
    }
}

impl SubscriptionRecord {
    /// The row for a submission, under the given identifier and time.
    pub fn new(id: SubscriptionId, form: FormData, subscribed_at: Timestamp) -> (record: Self)
        ensures
            record@.id == id@,
            record@.email == form@.email,
            record@.name == form@.name,
            record@.subscribed_at == subscribed_at@,
            is_version_4(record@.id),
    {
        proof {
            use_type_invariant(id);
        }
        SubscriptionRecord { id, email: form.email, name: form.name, subscribed_at }
    }

    /// The identifier under which the row is stored.
    pub fn id(&self) -> (id: SubscriptionId)
        ensures
            id@ == self@.id,
    {
        self.id
    }

    /// The address, as the form gave it.
    pub fn email(&self) -> (email: &str)
        ensures
            email@ == self@.email,
    {
        self.email.as_str()
    }

    /// The name, as the form gave it.
    pub fn name(&self) -> (name: &str)
        ensures
            name@ == self@.name,
    {
        self.name.as_str()
    }

    /// The time at which the submission was taken.
    pub fn subscribed_at(&self) -> (at: Timestamp)
        ensures
            at@ == self@.subscribed_at,
    {
        self.subscribed_at
    }
}

} // verus!
