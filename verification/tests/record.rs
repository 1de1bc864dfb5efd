use dispatch::record::{SubscriptionId, SubscriptionRecord, Timestamp};
use dispatch::routes::subscription::FormData;

#[test]
fn generated_id_is_a_version_4_uuid() {
    let id = SubscriptionId::generate();
    let uuid = uuid::Uuid::from_u128(id.as_u128());

    assert_eq!(uuid.get_version_num(), 4);
    assert_eq!(uuid.get_variant(), uuid::Variant::RFC4122);
    assert_eq!(SubscriptionId::from_u128(id.as_u128()), Some(id));
}

#[test]
fn id_round_trips_through_its_bits() {
    let bits: u128 = 0xa1a2a3a4_b1b2_41c2_91d2_d3d4d5d6d7d8;
    let id = SubscriptionId::from_u128(bits).expect("version 4, variant 1");

    assert_eq!(id.as_u128(), bits);
    assert_eq!(
        uuid::Uuid::from_u128(id.as_u128()).hyphenated().to_string(),
        "a1a2a3a4-b1b2-41c2-91d2-d3d4d5d6d7d8"
    );
}

#[test]
fn id_of_another_version_is_refused() {
    let version_1: u128 = 0xa1a2a3a4_b1b2_11c2_91d2_d3d4d5d6d7d8;
    let version_7: u128 = 0xa1a2a3a4_b1b2_71c2_91d2_d3d4d5d6d7d8;

    assert_eq!(SubscriptionId::from_u128(version_1), None);
    assert_eq!(SubscriptionId::from_u128(version_7), None);
    assert_eq!(SubscriptionId::from_u128(0), None);
    assert_eq!(SubscriptionId::from_u128(u128::MAX), None);
}

#[test]
fn id_of_another_variant_is_refused() {
    let variant_0: u128 = 0xa1a2a3a4_b1b2_41c2_11d2_d3d4d5d6d7d8;
    let variant_2: u128 = 0xa1a2a3a4_b1b2_41c2_d1d2_d3d4d5d6d7d8;

    assert_eq!(SubscriptionId::from_u128(variant_0), None);
    assert_eq!(SubscriptionId::from_u128(variant_2), None);
}

#[test]
fn every_variant_1_nibble_is_accepted() {
    let nibbles: [u128; 4] = [0x8, 0x9, 0xa, 0xb];

    for nibble in nibbles {
        let bits: u128 = 0x00000000_0000_4000_0000_000000000000 | (nibble << 60);
        assert!(SubscriptionId::from_u128(bits).is_some());
    }
}

#[test]
fn timestamp_keeps_seconds_and_nanoseconds() {
    let at = Timestamp::new(1_431_648_000, 999_999_999).expect("less than a second");

    assert_eq!(at.secs(), 1_431_648_000);
    assert_eq!(at.subsec_nanos(), 999_999_999);
}

#[test]
fn timestamp_before_the_epoch_counts_from_the_second_below() {
    let at = Timestamp::new(-1, 250_000_000).expect("less than a second");

    assert_eq!(at.secs(), -1);
    assert_eq!(at.subsec_nanos(), 250_000_000);
}

#[test]
fn timestamp_refuses_a_full_second_of_nanoseconds() {
    assert_eq!(Timestamp::new(0, 1_000_000_000), None);
    assert_eq!(Timestamp::new(0, u32::MAX), None);
    assert!(Timestamp::new(0, 0).is_some());
}

#[test]
fn now_is_within_its_second() {
    let now = Timestamp::now();

    assert!(now.subsec_nanos() < 1_000_000_000);
    assert_eq!(Timestamp::new(now.secs(), now.subsec_nanos()), Some(now));
}

#[test]
fn record_holds_what_it_was_made_of() {
    let id = SubscriptionId::from_u128(0x00000000_0000_4000_8000_000000000001).expect("version 4");
    let at = Timestamp::new(1_700_000_000, 5).expect("less than a second");
    let form = FormData { email: "ursula_le_guin@gmail.com".to_string(), name: "le guin".to_string() };

    let record = SubscriptionRecord::new(id, form, at);

    assert_eq!(record.id(), id);
    assert_eq!(record.email(), "ursula_le_guin@gmail.com");
    assert_eq!(record.name(), "le guin");
    assert_eq!(record.subscribed_at(), at);
}
