use rusty_board::ident::Id;

#[test]
fn id_text_is_hyphenated_lower_hex() {
    let id = Id { value: 0xa1a2a3a4b1b2c1c2d1d2d3d4d5d6d7d8 };
    assert_eq!(id.to_text(), "a1a2a3a4-b1b2-c1c2-d1d2-d3d4d5d6d7d8");
    assert_eq!(Id { value: 0 }.to_text(), "00000000-0000-0000-0000-000000000000");
    assert_eq!(Id { value: 1 }.to_text(), "00000000-0000-0000-0000-000000000001");
    assert_eq!(Id { value: u128::MAX }.to_text(), "ffffffff-ffff-ffff-ffff-ffffffffffff");
    assert_eq!(
        Id { value: 0x0123456789abcdef0123456789abcdef }.to_text(),
        "01234567-89ab-cdef-0123-456789abcdef"
    );
}

#[test]
fn id_parses_the_forms_of_an_identifier() {
    let expected = Some(Id { value: 0x550e8400e29b41d4a716446655440000 });
    assert_eq!(Id::parse("550e8400-e29b-41d4-a716-446655440000"), expected);
    assert_eq!(Id::parse("550E8400-E29B-41D4-A716-446655440000"), expected);
    assert_eq!(Id::parse("550e8400e29b41d4a716446655440000"), expected);
    assert_eq!(Id::parse("{550e8400-e29b-41d4-a716-446655440000}"), expected);
    assert_eq!(Id::parse("urn:uuid:550e8400-e29b-41d4-a716-446655440000"), expected);
}

#[test]
fn id_rejects_what_is_no_identifier() {
    assert_eq!(Id::parse(""), None);
    assert_eq!(Id::parse("not-an-id"), None);
    assert_eq!(Id::parse("550e8400-e29b-41d4-a716-44665544000"), None);
    assert_eq!(Id::parse("550e8400-e29b-41d4-a716-4466554400000"), None);
    assert_eq!(Id::parse("550e8400-e29b-41d4-a716-44665544000g"), None);
    assert_eq!(Id::parse("550e8400e29b-41d4-a716-4466-55440000"), None);
    assert_eq!(Id::parse(" 550e8400-e29b-41d4-a716-446655440000"), None);
}

#[test]
fn id_text_reads_back() {
    for value in [0u128, 1, 0xdead_beef, u128::MAX, 0x550e8400e29b41d4a716446655440000] {
        let id = Id { value };
        assert_eq!(Id::parse(&id.to_text()), Some(id));
    }
    let fresh = Id::generate();
    assert_eq!(Id::parse(&fresh.to_text()), Some(fresh));
}

#[test]
fn generated_id_has_the_random_form() {
    for _ in 0..100 {
        let id = Id::generate();
        assert_eq!((id.value >> 76) & 0xf, 4);
        assert_eq!((id.value >> 62) & 0x3, 2);
        let text = id.to_text();
        assert_eq!(text.len(), 36);
        assert_eq!(text.as_bytes()[14], b'4');
        assert!(matches!(text.as_bytes()[19], b'8' | b'9' | b'a' | b'b'));
    }
}

#[test]
fn nil_id_is_all_zero() {
    assert_eq!(Id::nil(), Id { value: 0 });
    assert_eq!(Id::nil().to_text(), "00000000-0000-0000-0000-000000000000");
}
