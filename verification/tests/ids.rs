use app_server::ids::Uuid;

#[test]
fn identifier_text_is_hyphenated_lower_case() {
    let id = Uuid { bits: 0x67e55044_10b1_426f_9247_bb680e5fe0c8 };
    assert_eq!(id.to_string(), "67e55044-10b1-426f-9247-bb680e5fe0c8");
}

#[test]
fn identifier_text_keeps_leading_zeros() {
    assert_eq!(Uuid { bits: 0 }.to_string(), "00000000-0000-0000-0000-000000000000");
    assert_eq!(Uuid { bits: 0xab }.to_string(), "00000000-0000-0000-0000-0000000000ab");
    assert_eq!(
        Uuid { bits: u128::MAX }.to_string(),
        "ffffffff-ffff-ffff-ffff-ffffffffffff"
    );
}

#[test]
fn identifier_text_is_what_the_uuid_crate_reads_back() {
    let bits = 0x0123_4567_89ab_cdef_fedc_ba98_7654_3210;
    let text = Uuid { bits }.to_string();
    assert_eq!(uuid::Uuid::parse_str(&text).unwrap().as_u128(), bits);
}

#[test]
fn different_identifiers_have_different_texts() {
    for place in 0..128 {
        let bits = 1u128 << place;
        assert_ne!(Uuid { bits }.to_string(), Uuid { bits: 0 }.to_string());
    }
}
