use tktkgo_app::hashing::content_hash;
use tktkgo_app::ids::Id;

#[test]
fn identifiers_are_shown_with_hyphens() {
    let id = Id { value: 0x67e55044_10b1_426f_9247_bb680e5fe0c8 };
    assert_eq!(id.text(), "67e55044-10b1-426f-9247-bb680e5fe0c8");
    assert_eq!(Id { value: 0 }.text(), "00000000-0000-0000-0000-000000000000");
    assert_eq!(Id { value: u128::MAX }.text(), "ffffffff-ffff-ffff-ffff-ffffffffffff");
}

#[test]
fn identifiers_are_shown_as_uuid_shows_them() {
    for value in [1u128, 0x10, 0xdead_beef << 64, u128::MAX - 5, 1 << 127] {
        assert_eq!(Id { value }.text(), uuid::Uuid::from_u128(value).to_string());
    }
}

#[test]
fn identifiers_are_parsed_in_every_form() {
    let id = Id { value: 0x67e55044_10b1_426f_9247_bb680e5fe0c8 };
    for text in [
        "67e55044-10b1-426f-9247-bb680e5fe0c8",
        "67E55044-10B1-426F-9247-BB680E5FE0C8",
        "67e5504410b1426f9247bb680e5fe0c8",
        "{67e55044-10b1-426f-9247-bb680e5fe0c8}",
        "urn:uuid:67e55044-10b1-426f-9247-bb680e5fe0c8",
    ] {
        assert_eq!(Id::parse(text), Ok(id));
    }
}

#[test]
fn what_is_no_identifier_is_refused_with_a_reason() {
    for text in ["", "x", "../../etc/passwd", "67e55044-10b1-426f-9247-bb680e5fe0c"] {
        let expected = uuid::Uuid::parse_str(text).unwrap_err().to_string();
        assert_eq!(Id::parse(text), Err(expected));
    }
}

#[test]
fn fresh_identifiers_are_random_and_differ() {
    let a = Id::random();
    let b = Id::random();
    assert_ne!(a, b);
    let uuid = uuid::Uuid::from_u128(a.value);
    assert_eq!(uuid.get_version_num(), 4);
    assert_eq!(uuid.get_variant(), uuid::Variant::RFC4122);
}

#[test]
fn hashes_are_those_of_blake3() {
    assert_eq!(
        content_hash(b""),
        "af1349b9f5f9a1a6a0404dea36dcc9499bcb25c9adc112b7cc9a93cae41f3262"
    );
    assert_eq!(
        content_hash(b"abc"),
        "6437b3ac38465133ffb63b75273a8db548c558465d79db03fd359c6cd5bd9d85"
    );
    assert_eq!(content_hash("文稿".as_bytes()).len(), 64);
}
