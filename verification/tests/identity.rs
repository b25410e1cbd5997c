use newport_imgui::id::{hash_bytes, FNV_OFFSET};
use newport_imgui::Id;

#[test]
fn same_label_same_identity() {
    assert_eq!(Id::make("ok-button"), Id::make("ok-button"));
    let built = String::from("ok-") + "button";
    assert_eq!(Id::make(&built), Id::make("ok-button"));
}

#[test]
fn distinct_labels_give_distinct_identities_here() {
    assert_ne!(Id::make("ok-button"), Id::make("cancel-button"));
    assert_ne!(Id::make("a"), Id::make("b"));
    assert_ne!(Id::make(""), Id::make("a"));
    assert_ne!(Id::make("ab"), Id::make("ba"));
}

#[test]
fn empty_label_hashes_to_the_offset_basis() {
    assert_eq!(Id::make("").token, 0xcbf29ce484222325);
    assert_eq!(FNV_OFFSET, 0xcbf29ce484222325);
    assert_eq!(hash_bytes(&[]), 0xcbf29ce484222325);
}

#[test]
fn known_hashes() {
    assert_eq!(Id::make("a").token, 0xaf63dc4c8601ec8c);
    assert_eq!(Id::make("foobar").token, 0x85944171f73967e8);
    assert_eq!(hash_bytes(b"foobar"), 0x85944171f73967e8);
}

#[test]
fn labels_are_hashed_by_their_utf8_bytes() {
    assert_eq!(Id::make("é").token, hash_bytes(&[0xc3, 0xa9]));
    assert_ne!(Id::make("é"), Id::make("e"));
}

#[test]
fn identities_compare_by_token() {
    assert_eq!(Id { token: 7 }, Id { token: 7 });
    assert_ne!(Id { token: 7 }, Id { token: 8 });
}

#[test]
fn labels_one_byte_apart_differ() {
    let base = "widget-0";
    for last in b'1'..=b'9' {
        let mut bytes = base.as_bytes().to_vec();
        bytes[7] = last;
        let other = String::from_utf8(bytes).unwrap();
        assert_ne!(Id::make(base), Id::make(&other));
    }
    for first in b'a'..=b'v' {
        let mut bytes = base.as_bytes().to_vec();
        bytes[0] = first;
        assert_ne!(hash_bytes(base.as_bytes()), hash_bytes(&bytes));
    }
}
