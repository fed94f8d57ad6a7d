use just_a_simple_wayland_screenshot_tool::cli::{parse_region, parse_size};
use just_a_simple_wayland_screenshot_tool::parse::{parse_i32, parse_u32, split_fields};
use just_a_simple_wayland_screenshot_tool::{Region, ScreenshotError};

const SAMPLES: [&str; 40] = [
    "",
    "0",
    "7",
    "007",
    "+7",
    "-7",
    "+",
    "-",
    "++7",
    "--7",
    "+-7",
    "-+7",
    "-0",
    "+0",
    " 7",
    "7 ",
    "7a",
    "a7",
    "1_000",
    "1.5",
    "0x10",
    "2147483647",
    "2147483648",
    "+2147483647",
    "-2147483648",
    "-2147483649",
    "4294967295",
    "4294967296",
    "+4294967295",
    "-4294967295",
    "00000000004294967295",
    "00000000004294967296",
    "99999999999999999999999999",
    "-99999999999999999999999999",
    "99999999999999999999999999x",
    "12,3",
    "\u{663}",
    "1\u{0}",
    "\t1",
    "1+",
];

#[test]
fn parse_u32_reads_what_the_standard_parser_reads() {
    for text in SAMPLES {
        assert_eq!(parse_u32(text.as_bytes()), text.parse::<u32>().ok(), "{:?}", text);
    }
}

#[test]
fn parse_i32_reads_what_the_standard_parser_reads() {
    for text in SAMPLES {
        assert_eq!(parse_i32(text.as_bytes()), text.parse::<i32>().ok(), "{:?}", text);
    }
}

#[test]
fn parse_u32_exact_values() {
    assert_eq!(parse_u32(b"0"), Some(0));
    assert_eq!(parse_u32(b"+42"), Some(42));
    assert_eq!(parse_u32(b"4294967295"), Some(u32::MAX));
    assert_eq!(parse_u32(b"4294967296"), None);
    assert_eq!(parse_u32(b"-1"), None);
    assert_eq!(parse_u32(b""), None);
}

#[test]
fn parse_i32_exact_values() {
    assert_eq!(parse_i32(b"-2147483648"), Some(i32::MIN));
    assert_eq!(parse_i32(b"2147483647"), Some(i32::MAX));
    assert_eq!(parse_i32(b"2147483648"), None);
    assert_eq!(parse_i32(b"-2147483649"), None);
    assert_eq!(parse_i32(b"-0"), Some(0));
    assert_eq!(parse_i32(b"-"), None);
}

#[test]
fn split_fields_cuts_at_every_comma() {
    assert_eq!(split_fields(b""), vec![b"".to_vec()]);
    assert_eq!(split_fields(b"abc"), vec![b"abc".to_vec()]);
    assert_eq!(split_fields(b","), vec![b"".to_vec(), b"".to_vec()]);
    assert_eq!(split_fields(b"a,b"), vec![b"a".to_vec(), b"b".to_vec()]);
    assert_eq!(
        split_fields(b",a,,b,"),
        vec![b"".to_vec(), b"a".to_vec(), b"".to_vec(), b"b".to_vec(), b"".to_vec()]
    );
}

#[test]
fn split_fields_agrees_with_the_standard_split() {
    for text in ["", ",", "1,2,3,4", "a,,b", ",,,", "no comma", "x,\u{e9},y"] {
        let expected: Vec<Vec<u8>> = text.split(',').map(|p| p.as_bytes().to_vec()).collect();
        assert_eq!(split_fields(text.as_bytes()), expected);
    }
}

#[test]
fn parse_region_reads_four_numbers() {
    assert_eq!(parse_region("100,100,200,150"), Some(Region::new(100, 100, 200, 150)));
    assert_eq!(parse_region("-5,+6,7,8"), Some(Region::new(-5, 6, 7, 8)));
    assert_eq!(parse_region("0,0,0,0"), Some(Region::new(0, 0, 0, 0)));
    assert_eq!(
        parse_region("-2147483648,2147483647,4294967295,0"),
        Some(Region::new(i32::MIN, i32::MAX, u32::MAX, 0))
    );
}

#[test]
fn parse_region_refuses_anything_else() {
    for text in [
        "",
        "1,2,3",
        "1,2,3,4,5",
        "1,2,3,",
        ",1,2,3",
        "1, 2,3,4",
        "1,2,-3,4",
        "1,2,3,-4",
        "1,2,3,4294967296",
        "2147483648,2,3,4",
        "a,b,c,d",
        "1;2;3;4",
        "1,2,3,4 ",
    ] {
        assert_eq!(parse_region(text), None, "{:?}", text);
    }
}

#[test]
fn a_written_region_is_read_back() {
    for r in [
        Region::new(2020, 100, 200, 150),
        Region::new(-1, -2, 3, 4),
        Region::new(i32::MIN, i32::MAX, u32::MAX, 0),
    ] {
        let text = format!("{},{},{},{}", r.x, r.y, r.width, r.height);
        assert_eq!(parse_region(&text), Some(r));
    }
}

#[test]
fn parse_size_reads_two_numbers() {
    assert_eq!(parse_size("800,600"), Ok(Some((800, 600))));
    assert_eq!(parse_size("+1,0"), Ok(Some((1, 0))));
}

#[test]
fn parse_size_asks_for_nothing_without_two_fields() {
    assert_eq!(parse_size("800"), Ok(None));
    assert_eq!(parse_size("800x600"), Ok(None));
    assert_eq!(parse_size("1,2,3"), Ok(None));
    assert_eq!(parse_size(""), Ok(None));
}

#[test]
fn parse_size_names_the_field_that_is_no_number() {
    assert_eq!(
        parse_size("wide,600"),
        Err(ScreenshotError::Config("Invalid width".to_string()))
    );
    assert_eq!(
        parse_size("800,tall"),
        Err(ScreenshotError::Config("Invalid height".to_string()))
    );
    assert_eq!(parse_size(","), Err(ScreenshotError::Config("Invalid width".to_string())));
    assert_eq!(
        parse_size("-1,-1"),
        Err(ScreenshotError::Config("Invalid width".to_string()))
    );
    assert_eq!(
        parse_size("1,4294967296"),
        Err(ScreenshotError::Config("Invalid height".to_string()))
    );
}
