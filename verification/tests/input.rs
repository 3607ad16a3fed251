use workbook::dv_winapi::to_wstring;
use workbook::input::parse_window;
use workbook::input::trim_bounds;
use workbook::input::white;

#[test]
fn white_space_is_what_the_standard_library_takes_for_it() {
    let mut code: u32 = 0;
    while code <= 0x10FFFF {
        if let Some(c) = char::from_u32(code) {
            assert_eq!(white(c), c.is_whitespace());
        }
        code += 1;
    }
}

#[test]
fn trimming_agrees_with_the_standard_library() {
    let texts = [
        "", " ", "  a  ", "a", "\n\ta b\r\n", "\u{2003}x\u{2003}", "x \u{200b}", "\u{feff}x",
        " \u{1680}\u{2028}\u{2029}\u{202f}\u{205f}\u{3000}",
    ];
    for text in texts {
        let chars: Vec<char> = text.chars().collect();
        let (start, end) = trim_bounds(&chars);
        let kept: String = chars[start..end].iter().collect();
        assert_eq!(kept, text.trim());
    }
}

#[test]
fn a_window_is_parsed_on_its_own() {
    let chars: Vec<char> = "ab-12cd".chars().collect();
    assert_eq!(parse_window(&chars, 2, 5), Some(-12));
    assert_eq!(parse_window(&chars, 3, 5), Some(12));
    assert_eq!(parse_window(&chars, 2, 3), None);
    assert_eq!(parse_window(&chars, 2, 6), None);
    assert_eq!(parse_window(&chars, 4, 4), None);
    assert_eq!(parse_window(&chars, 0, 7), None);
}

#[test]
fn every_number_near_the_ends_is_read_back() {
    let mut n: i64 = -2147483700;
    while n <= -2147483600 {
        let text = format!("{}", n);
        let chars: Vec<char> = text.chars().collect();
        assert_eq!(parse_window(&chars, 0, chars.len()), text.parse::<i32>().ok());
        n += 1;
    }
    let mut n: i64 = 2147483600;
    while n <= 2147483700 {
        let text = format!("{}", n);
        let chars: Vec<char> = text.chars().collect();
        assert_eq!(parse_window(&chars, 0, chars.len()), text.parse::<i32>().ok());
        n += 1;
    }
}

#[test]
fn every_plane_is_encoded_as_the_standard_library_encodes_it() {
    let mut code: u32 = 0;
    while code <= 0x10FFFF {
        if let Some(c) = char::from_u32(code) {
            let text = c.to_string();
            let mut expected: Vec<u16> = text.encode_utf16().collect();
            expected.push(0);
            assert_eq!(to_wstring(&text), expected);
        }
        code += 13;
    }
}
