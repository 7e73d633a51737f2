use blackforge::assets::recolor;

#[test]
fn every_hex_color_takes_the_tint() {
    let svg = r##"<path stroke="#112233" fill="#aabbcc"/>"##;
    assert_eq!(
        recolor(svg, "#ff0000"),
        r##"<path stroke="#ff0000" fill="#ff0000"/>"##
    );
}

#[test]
fn other_quoted_values_stay() {
    let svg = r##"<path fill="#fff" stroke="none" d="#123456789"/>"##;
    assert_eq!(recolor(svg, "#ff0000"), svg);
}

#[test]
fn a_text_without_colors_is_unchanged() {
    assert_eq!(recolor("<svg></svg>", "#000000"), "<svg></svg>");
    assert_eq!(recolor("", "#000000"), "");
}

#[test]
fn an_unclosed_color_at_the_end_counts() {
    assert_eq!(recolor("x=\"#123456", "#abcdef"), "x=\"#abcdef");
}

#[test]
fn seven_bytes_not_seven_characters() {
    // The hash, two characters of two bytes each and two ASCII letters
    // make seven bytes in five characters.
    let svg = "a=\"#ééab\"";
    assert_eq!(recolor(svg, "#000000"), "a=\"#000000\"");
    // Seven characters, but eight bytes.
    let svg = "a=\"#é12345\"";
    assert_eq!(recolor(svg, "#000000"), svg);
}

#[test]
fn tinted_icons_are_named_by_their_tint() {
    assert_eq!(blackforge::assets::tinted_name("trash.svg", "#ff0000"), "trash.svg:#ff0000");
}

#[test]
fn the_page_icons_are_embedded() {
    let names = blackforge::assets::embedded();
    assert_eq!(names.len(), 24);
    for page in blackforge::page::Page::all() {
        assert!(names.contains(&page.icon()));
    }
}
