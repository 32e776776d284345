use objdir::wide::{string_to_wstring, text_from_wide};

#[test]
fn lone_high_surrogate_becomes_replacement() {
    let units = [0x41, 0xD800, 0x42];
    assert_eq!(text_from_wide(&units, 6), "A\u{FFFD}B");
}

#[test]
fn lone_low_surrogate_becomes_replacement() {
    let units = [0xDC00, 0x43];
    assert_eq!(text_from_wide(&units, 4), "\u{FFFD}C");
}

#[test]
fn high_surrogate_at_the_end_becomes_replacement() {
    let units = [0x44, 0xDBFF];
    assert_eq!(text_from_wide(&units, 4), "D\u{FFFD}");
}

#[test]
fn surrogate_pair_decodes_to_one_character() {
    let units = [0xD83D, 0xDE00];
    assert_eq!(text_from_wide(&units, 4), "\u{1F600}");
}

#[test]
fn byte_length_limits_the_decoded_span() {
    let units = [0x61, 0x62, 0x63, 0x64];
    assert_eq!(text_from_wide(&units, 4), "ab");
    assert_eq!(text_from_wide(&units, 5), "ab");
    assert_eq!(text_from_wide(&units, 0), "");
}

#[test]
fn wide_name_is_zero_terminated() {
    assert_eq!(string_to_wstring("\\Global??"), vec![0x5C, 0x47, 0x6C, 0x6F, 0x62, 0x61, 0x6C, 0x3F, 0x3F, 0]);
    assert_eq!(string_to_wstring(""), vec![0]);
    assert_eq!(string_to_wstring("\u{1F600}"), vec![0xD83D, 0xDE00, 0]);
}
