use lilypalooza::text::parse_u32;
use lilypalooza::svg::{
    SvgUnit, find_chars, is_svg_file, split_svg_dimension, svg_attribute_value, svg_page_index,
    view_box_tokens,
};

fn chars(text: &str) -> Vec<char> {
    text.chars().collect()
}

#[test]
fn finds_the_first_occurrence() {
    assert_eq!(find_chars(&chars("abcabc"), &chars("bc")), Some(1));
    assert_eq!(find_chars(&chars("abc"), &chars("")), Some(0));
    assert_eq!(find_chars(&chars("abc"), &chars("abcd")), None);
    assert_eq!(find_chars(&chars("abc"), &chars("x")), None);
}

#[test]
fn reads_quoted_attribute_values() {
    let source = r#"<svg width="210mm" height='297mm' viewBox="0 0 119.5 169.0">"#;
    assert_eq!(svg_attribute_value(source, "width"), Some("210mm".to_string()));
    assert_eq!(svg_attribute_value(source, "height"), Some("297mm".to_string()));
    assert_eq!(
        svg_attribute_value(source, "viewBox"),
        Some("0 0 119.5 169.0".to_string())
    );
    assert_eq!(svg_attribute_value(source, "depth"), None);
    assert_eq!(svg_attribute_value(r#"width="open"#, "width"), None);
}

#[test]
fn recognizes_svg_files_in_any_case() {
    assert!(is_svg_file("/build/song.svg"));
    assert!(is_svg_file("/build/song.SVG"));
    assert!(!is_svg_file("/build/song.midi"));
    assert!(!is_svg_file("/build/svg"));
}

#[test]
fn numbers_pages_of_the_score() {
    assert_eq!(svg_page_index("song", "song"), Some(1));
    assert_eq!(svg_page_index("song-page2", "song"), Some(2));
    assert_eq!(svg_page_index("song-3", "song"), Some(3));
    assert_eq!(svg_page_index("song-pagex", "song"), None);
    assert_eq!(svg_page_index("songs-2", "song"), None);
    assert_eq!(svg_page_index("other", "song"), None);
}

#[test]
fn splits_lengths_into_number_and_unit() {
    assert_eq!(
        split_svg_dimension(" 210mm "),
        Some(("210".to_string(), SvgUnit::Millimeters))
    );
    assert_eq!(
        split_svg_dimension("12.5 PT"),
        Some(("12.5".to_string(), SvgUnit::Points))
    );
    assert_eq!(split_svg_dimension("100"), Some(("100".to_string(), SvgUnit::Points)));
    assert_eq!(split_svg_dimension("2in"), Some(("2".to_string(), SvgUnit::Inches)));
    assert_eq!(split_svg_dimension("3pc"), Some(("3".to_string(), SvgUnit::Picas)));
    assert_eq!(split_svg_dimension("1cm"), Some(("1".to_string(), SvgUnit::Centimeters)));
    assert_eq!(split_svg_dimension("4em"), Some(("4".to_string(), SvgUnit::Unknown)));
    assert_eq!(split_svg_dimension("auto"), None);
    assert_eq!(split_svg_dimension("   "), None);
}

#[test]
fn splits_view_boxes_on_spaces_and_commas() {
    assert_eq!(
        view_box_tokens("0 0, 119.5  169.0"),
        vec!["0", "0", "119.5", "169.0"]
    );
    assert_eq!(view_box_tokens(" ,, "), Vec::<String>::new());
    assert_eq!(view_box_tokens("1"), vec!["1"]);
}

#[test]
fn numbers_parse_as_unsigned_decimal() {
    assert_eq!(parse_u32("42"), Some(42));
    assert_eq!(parse_u32("+7"), Some(7));
    assert_eq!(parse_u32("4294967295"), Some(u32::MAX));
    assert_eq!(parse_u32("4294967296"), None);
    assert_eq!(parse_u32(""), None);
    assert_eq!(parse_u32("-1"), None);
    assert_eq!(parse_u32("1a"), None);
}
