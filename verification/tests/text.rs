use luminashot::error::SelectionError;
use luminashot::text::{is_white_space, read_selection, trim};

#[test]
fn white_space_is_what_the_standard_library_calls_so() {
    for code in 0u32..=0x10ffff {
        if let Some(c) = char::from_u32(code) {
            assert_eq!(is_white_space(c), c.is_whitespace(), "U+{:04X}", code);
        }
    }
}

#[test]
fn white_space_by_name() {
    for c in [' ', '\t', '\n', '\r', '\u{0b}', '\u{0c}', '\u{85}', '\u{a0}', '\u{1680}', '\u{2000}',
        '\u{200a}', '\u{2028}', '\u{2029}', '\u{202f}', '\u{205f}', '\u{3000}']
    {
        assert!(is_white_space(c));
    }
    for c in ['a', '0', 'x', ',', '\u{0}', '\u{8}', '\u{e}', '\u{1f}', '\u{200b}', '\u{feff}', '\u{180e}'] {
        assert!(!is_white_space(c));
    }
}

#[test]
fn trim_strips_both_ends_and_nothing_inside() {
    assert_eq!(trim("0x55e0c1a2b3c0\n"), "0x55e0c1a2b3c0");
    assert_eq!(trim("  \t10,20 300x400 \r\n"), "10,20 300x400");
    assert_eq!(trim("a b"), "a b");
    assert_eq!(trim("abc"), "abc");
    assert_eq!(trim(""), "");
    assert_eq!(trim(" \n\t "), "");
    assert_eq!(trim("\u{3000}é \u{a0}"), "é");
    assert_eq!(trim("x"), "x");
    assert_eq!(trim(" x"), "x");
    assert_eq!(trim("x "), "x");
}

#[test]
fn trim_agrees_with_the_standard_library() {
    let samples = [
        "",
        " ",
        "\n",
        "0x1\n",
        "\n0x1",
        " a  b ",
        "\u{2003}wide\u{2003}",
        "\u{200b}zero width is kept\u{200b}",
        "日本語 \t",
        "\r\n\r\n1,2 3x4\r\n",
        "\u{85}\u{1680}x\u{2028}\u{2029}",
    ];
    for sample in samples {
        assert_eq!(trim(sample), sample.trim());
    }
}

#[test]
fn a_selection_is_decoded_and_trimmed() {
    assert_eq!(read_selection(b"0x5581c2d3\n".to_vec()), Ok("0x5581c2d3".to_string()));
    assert_eq!(read_selection(b"  12,34 56x78  ".to_vec()), Ok("12,34 56x78".to_string()));
    assert_eq!(read_selection(Vec::new()), Ok(String::new()));
    assert_eq!(read_selection("fenêtre\n".as_bytes().to_vec()), Ok("fenêtre".to_string()));
}

#[test]
fn a_selection_that_is_no_utf8_is_a_decode_error() {
    assert_eq!(read_selection(vec![0xff, 0xfe, 0xfd]), Err(SelectionError::Decode));
    assert_eq!(read_selection(vec![b'0', b'x', 0xc3]), Err(SelectionError::Decode));
    assert_eq!(read_selection(vec![0xed, 0xa0, 0x80]), Err(SelectionError::Decode));
    assert_eq!(read_selection(vec![0xc0, 0x80]), Err(SelectionError::Decode));
}
