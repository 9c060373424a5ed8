use openclaw_state_engine::ids::{id_text, parse_id};
use openclaw_state_engine::models::entity::EntityBase;
use openclaw_state_engine::persistence::rows::{read_instant, read_optional_instant, write_instant};
use openclaw_state_engine::time::Timestamp;

#[test]
fn id_text_is_hyphenated_lower_case() {
    let id: u128 = 0x67e5504410b1426f9247bb680e5fe0c8;
    assert_eq!(id_text(id), "67e55044-10b1-426f-9247-bb680e5fe0c8");
    assert_eq!(id_text(0), "00000000-0000-0000-0000-000000000000");
}

#[test]
fn id_text_reads_back() {
    let id: u128 = 0x0123456789abcdef0011223344556677;
    assert_eq!(parse_id(&id_text(id)), Some(id));
}

#[test]
fn parse_id_accepts_other_forms_and_refuses_garbage() {
    assert_eq!(parse_id("67E55044-10B1-426F-9247-BB680E5FE0C8"), Some(0x67e5504410b1426f9247bb680e5fe0c8));
    assert_eq!(parse_id("67e5504410b1426f9247bb680e5fe0c8"), Some(0x67e5504410b1426f9247bb680e5fe0c8));
    assert_eq!(parse_id("not-a-uuid"), None);
    assert_eq!(parse_id(""), None);
}

#[test]
fn new_ids_are_random_version_four() {
    let a = EntityBase::new().id;
    let b = EntityBase::new().id;
    assert_ne!(a, b);
    assert_eq!((a >> 76) & 0xf, 4);
    assert_eq!((a >> 62) & 0x3, 2);
}

#[test]
fn from_unix_checks_the_range() {
    assert!(Timestamp::from_unix(0, 0).is_some());
    assert!(Timestamp::from_unix(59, 1_500_000_000).is_some());
    assert!(Timestamp::from_unix(58, 1_500_000_000).is_none());
    assert!(Timestamp::from_unix(0, 2_000_000_000).is_none());
    assert!(Timestamp::from_unix(8_210_266_876_799, 0).is_some());
    assert!(Timestamp::from_unix(8_210_266_876_800, 0).is_none());
    assert!(Timestamp::from_unix(-8_334_601_228_800, 0).is_some());
    assert!(Timestamp::from_unix(-8_334_601_228_801, 0).is_none());
    assert!(Timestamp::from_unix(-1, 1_000_000_000).is_some());
}

#[test]
fn instants_are_written_as_rfc3339() {
    assert_eq!(write_instant(Timestamp { secs: 0, nanos: 0 }), "1970-01-01T00:00:00+00:00");
    assert_eq!(write_instant(Timestamp { secs: 1, nanos: 500_000_000 }), "1970-01-01T00:00:01.500+00:00");
}

#[test]
fn written_instants_read_back() {
    let t = Timestamp { secs: 1_710_460_800, nanos: 123_456_789 };
    let back = read_instant(&write_instant(t));
    assert_eq!((back.secs, back.nanos), (t.secs, t.nanos));
}

#[test]
fn instants_with_an_offset_read_as_utc() {
    let t = read_instant(&"1996-12-19T16:39:57-08:00".to_string());
    assert_eq!((t.secs, t.nanos), (851_042_397, 0));
    assert!(read_optional_instant(&Some("yesterday".to_string())).is_none());
    assert!(read_optional_instant(&None).is_none());
}

#[test]
fn unreadable_instants_read_as_now() {
    let t = read_instant(&"yesterday".to_string());
    assert!(t.secs > 1_577_836_800);
}

#[test]
fn new_entities_are_stamped_now() {
    let b = EntityBase::new();
    assert!(b.created_at.secs > 1_577_836_800);
    assert_eq!((b.created_at.secs, b.created_at.nanos), (b.updated_at.secs, b.updated_at.nanos));
}

#[test]
fn representable_range_agrees_with_chrono() {
    for secs in [-8_334_601_228_801i64, -8_334_601_228_800, 8_210_266_876_799, 8_210_266_876_800] {
        assert_eq!(
            Timestamp::from_unix(secs, 0).is_some(),
            chrono::DateTime::from_timestamp(secs, 0).is_some(),
            "at {}",
            secs
        );
    }
}
