use winshape::wide::{
    encode_wide, encode_wide_null, push_utf16, wchar_to_string, REPLACEMENT_CHARACTER,
};

#[test]
fn class_name_as_wide_string() {
    assert_eq!(
        encode_wide_null("Window Class"),
        vec![0x57, 0x69, 0x6E, 0x64, 0x6F, 0x77, 0x20, 0x43, 0x6C, 0x61, 0x73, 0x73, 0]
    );
}

#[test]
fn empty_text_is_the_terminator_alone() {
    assert_eq!(encode_wide(""), Vec::<u16>::new());
    assert_eq!(encode_wide_null(""), vec![0]);
}

#[test]
fn characters_below_and_above_the_surrogates_take_one_unit() {
    assert_eq!(encode_wide("\u{0}"), vec![0]);
    assert_eq!(encode_wide("\u{e9}"), vec![0x00E9]);
    assert_eq!(encode_wide("\u{4e2d}"), vec![0x4E2D]);
    assert_eq!(encode_wide("\u{d7ff}"), vec![0xD7FF]);
    assert_eq!(encode_wide("\u{e000}"), vec![0xE000]);
    assert_eq!(encode_wide("\u{ffff}"), vec![0xFFFF]);
}

#[test]
fn characters_from_u10000_on_take_a_surrogate_pair() {
    assert_eq!(encode_wide("\u{10000}"), vec![0xD800, 0xDC00]);
    assert_eq!(encode_wide("\u{1D11E}"), vec![0xD834, 0xDD1E]);
    assert_eq!(encode_wide("\u{1F600}"), vec![0xD83D, 0xDE00]);
    assert_eq!(encode_wide("\u{10FFFF}"), vec![0xDBFF, 0xDFFF]);
}

#[test]
fn push_utf16_appends() {
    let mut wide = vec![1, 2];
    push_utf16(&mut wide, 'a');
    push_utf16(&mut wide, '\u{1F600}');
    assert_eq!(wide, vec![1, 2, 0x61, 0xD83D, 0xDE00]);
}

#[test]
fn encoding_agrees_with_the_standard_library() {
    let texts = [
        "",
        "winit window",
        "na\u{ef}ve caf\u{e9}",
        "\u{65e5}\u{672c}\u{8a9e}",
        "a\u{1F600}b\u{10000}\u{10FFFF}\u{ffff}\u{e000}\u{d7ff}",
        "\r\n\t\0",
    ];
    for text in texts {
        let expected: Vec<u16> = text.encode_utf16().collect();
        assert_eq!(encode_wide(text), expected);
        let mut with_null = expected.clone();
        with_null.push(0);
        assert_eq!(encode_wide_null(text), with_null);
    }
}

#[test]
fn decoding_plain_units() {
    assert_eq!(wchar_to_string(&[]), "");
    assert_eq!(wchar_to_string(&[0x48, 0x69]), "Hi");
    assert_eq!(wchar_to_string(&[0xD7FF, 0xE000, 0xFFFF]), "\u{d7ff}\u{e000}\u{ffff}");
    assert_eq!(wchar_to_string(&[0x41, 0, 0x42]), "A\0B");
}

#[test]
fn decoding_surrogate_pairs() {
    assert_eq!(wchar_to_string(&[0xD800, 0xDC00]), "\u{10000}");
    assert_eq!(wchar_to_string(&[0xD834, 0xDD1E]), "\u{1D11E}");
    assert_eq!(wchar_to_string(&[0xDBFF, 0xDFFF]), "\u{10FFFF}");
}

#[test]
fn a_surrogate_without_partner_becomes_the_replacement_character() {
    assert_eq!(REPLACEMENT_CHARACTER, '\u{FFFD}');
    assert_eq!(wchar_to_string(&[0xD800]), "\u{FFFD}");
    assert_eq!(wchar_to_string(&[0xDC00]), "\u{FFFD}");
    assert_eq!(wchar_to_string(&[0xD800, 0x41]), "\u{FFFD}A");
    assert_eq!(wchar_to_string(&[0xDC00, 0xD800]), "\u{FFFD}\u{FFFD}");
    assert_eq!(wchar_to_string(&[0xD800, 0xD800, 0xDC00]), "\u{FFFD}\u{10000}");
    assert_eq!(wchar_to_string(&[0xD800, 0xDC00, 0xDC00]), "\u{10000}\u{FFFD}");
    assert_eq!(
        wchar_to_string(&[0xD834, 0xDD1E, 0x6d, 0x75, 0x73, 0xDD1E, 0x69, 0x63, 0xD834]),
        "\u{1D11E}mus\u{FFFD}ic\u{FFFD}"
    );
}

#[test]
fn decoding_agrees_with_the_standard_library() {
    let interesting = [
        0x0000u16, 0x0041, 0x00E9, 0xD7FF, 0xD800, 0xD801, 0xDBFF, 0xDC00, 0xDC01, 0xDFFF,
        0xE000, 0xFFFD, 0xFFFF,
    ];
    for a in interesting {
        assert_eq!(wchar_to_string(&[a]), String::from_utf16_lossy(&[a]));
        for b in interesting {
            assert_eq!(wchar_to_string(&[a, b]), String::from_utf16_lossy(&[a, b]));
            for c in interesting {
                assert_eq!(wchar_to_string(&[a, b, c]), String::from_utf16_lossy(&[a, b, c]));
                for d in interesting {
                    let units = [a, b, c, d];
                    assert_eq!(wchar_to_string(&units), String::from_utf16_lossy(&units));
                }
            }
        }
    }
}

#[test]
fn decoding_the_units_of_a_text_gives_the_text_back() {
    let texts = [
        "",
        "The operation completed successfully.\r\n",
        "\u{1F600}\u{10000}a\u{10FFFF}",
        "\u{fffd}",
    ];
    for text in texts {
        assert_eq!(wchar_to_string(&encode_wide(text)), text);
    }
    for scalar in (0..=0x10_FFFFu32).step_by(0x101) {
        if let Some(c) = char::from_u32(scalar) {
            let text = c.to_string();
            assert_eq!(wchar_to_string(&encode_wide(&text)), text);
        }
    }
}
