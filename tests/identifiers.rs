use std::collections::HashSet;

use stowr::common::{IdParseError, RepositoryId};
use stowr::foo::FooId;
use stowr::location::LocationId;
use uuid::Uuid;

#[test]
fn dummy_id_new_produces_unique_ids() {
    let a = FooId::new();
    let b = FooId::new();
    assert_ne!(a, b, "sequential new() calls should yield different IDs");
}

#[test]
fn roundtrip_uuid_via_into_and_from() {
    let original = FooId::new();
    let uuid: Uuid = Uuid::from_u128(original.clone().into());
    let reconstructed: FooId = uuid.as_u128().into();
    assert_eq!(original, reconstructed);
}

#[test]
fn parse_from_string_roundtrip() {
    let original = FooId::new();
    let s = original.to_string();
    let parsed = FooId::from_str(&s).expect("valid uuid string");
    assert_eq!(original, parsed);
}

#[test]
fn ten_thousand_new_ids_are_distinct() {
    let mut seen: HashSet<u128> = HashSet::new();
    for _ in 0..10_000 {
        assert!(seen.insert(FooId::new().as_u128()));
    }
}

#[test]
fn new_ids_carry_version_and_variant_bits() {
    for _ in 0..100 {
        let v = FooId::new().as_u128();
        assert_eq!((v >> 76) & 0xf, 4);
        assert_eq!((v >> 62) & 0x3, 2);
    }
}

#[test]
fn default_id_is_random_too() {
    let a: FooId = Default::default();
    let b: FooId = Default::default();
    assert_ne!(a, b);
    assert_eq!((a.as_u128() >> 76) & 0xf, 4);
}

#[test]
fn text_form_is_lower_case_hyphenated() {
    let id = FooId::from_u128(0x936DA01F9ABD4D9D80C702AF85C822A8);
    assert_eq!(id.to_string(), "936da01f-9abd-4d9d-80c7-02af85c822a8");
    let zero = FooId::from_u128(0);
    assert_eq!(zero.to_string(), "00000000-0000-0000-0000-000000000000");
}

#[test]
fn parse_reads_either_case_and_other_forms() {
    let want: u128 = 0x936DA01F9ABD4D9D80C702AF85C822A8;
    let upper = FooId::from_str("936DA01F-9ABD-4D9D-80C7-02AF85C822A8").unwrap();
    assert_eq!(upper.as_u128(), want);
    let simple = FooId::from_str("936da01f9abd4d9d80c702af85c822a8").unwrap();
    assert_eq!(simple.as_u128(), want);
    let braced = FooId::from_str("{936da01f-9abd-4d9d-80c7-02af85c822a8}").unwrap();
    assert_eq!(braced.as_u128(), want);
}

#[test]
fn parse_rejects_malformed_text() {
    assert_eq!(FooId::from_str("not a uuid"), Err(IdParseError::Malformed));
    assert_eq!(FooId::from_str(""), Err(IdParseError::Malformed));
    assert_eq!(
        FooId::from_str("936da01f-9abd-4d9d-80c7-02af85c822ag"),
        Err(IdParseError::Malformed)
    );
}

#[test]
fn text_of_one_entity_reads_as_another() {
    let foo = FooId::new();
    let text = foo.to_string();
    let location = LocationId::from_str(&text).unwrap();
    assert_eq!(location.as_u128(), foo.as_u128());
    assert_eq!(location.to_string(), text);
}

#[test]
fn equality_follows_the_value() {
    let a: RepositoryId<u8> = RepositoryId::from_u128(7);
    let b: RepositoryId<u8> = RepositoryId::from_u128(7);
    let c: RepositoryId<u8> = RepositoryId::from_u128(8);
    assert_eq!(a, b);
    assert_ne!(a, c);
}

#[test]
fn parse_reads_urn_form_in_either_case() {
    let want: u128 = 0x936DA01F9ABD4D9D80C702AF85C822A8;
    let urn = FooId::from_str("urn:uuid:936da01f-9abd-4d9d-80c7-02af85c822a8").unwrap();
    assert_eq!(urn.as_u128(), want);
    let upper = FooId::from_str("URN:UUID:936DA01F-9ABD-4D9D-80C7-02AF85C822A8").unwrap();
    assert_eq!(upper.as_u128(), want);
}

#[test]
fn parse_rejects_misshapen_forms() {
    // braces of the wrong length, a misplaced hyphen, a bad prefix
    assert!(FooId::from_str("{936da01f9abd4d9d80c702af85c822a8}").is_err());
    assert!(FooId::from_str("936da01f9-abd-4d9d-80c7-02af85c822a8").is_err());
    assert!(FooId::from_str("urn:uuix:936da01f-9abd-4d9d-80c7-02af85c822a8").is_err());
    assert!(FooId::from_str("936da01f-9abd-4d9d-80c7-02af85c822a").is_err());
}

#[test]
fn std_parse_reads_identifiers() {
    let id = FooId::new();
    let parsed: FooId = id.to_string().parse().unwrap();
    assert_eq!(parsed, id);
    assert_eq!("nope".parse::<FooId>(), Err(IdParseError::Malformed));
}
