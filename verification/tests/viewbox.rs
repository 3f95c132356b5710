use vector_lowering::viewbox::{
    find_viewbox_attr, normalize_viewbox, rewrite_viewbox, scan_event, ByteSpan,
    FindViewBoxResult, Scan, XmlEvent,
};

fn normalize(markup: &str, view_box: &str) -> Option<String> {
    normalize_viewbox(markup.as_bytes(), view_box).map(|out| String::from_utf8(out).unwrap())
}

#[test]
fn inserts_the_view_box_behind_the_root_name() {
    assert_eq!(
        normalize(
            "<svg xmlns=\"http://www.w3.org/2000/svg\"><path d=\"M0 0\"/></svg>",
            "0 -800 1000 1000"
        ),
        Some(
            "<svg viewBox=\"0 -800 1000 1000\" xmlns=\"http://www.w3.org/2000/svg\"><path d=\"M0 0\"/></svg>"
                .to_string()
        )
    );
}

#[test]
fn inserts_into_a_root_without_attributes() {
    assert_eq!(normalize("<svg/>", "0 0 1 1"), Some("<svg viewBox=\"0 0 1 1\"/>".to_string()));
    assert_eq!(
        normalize("<svg></svg>", "0 0 1 1"),
        Some("<svg viewBox=\"0 0 1 1\"></svg>".to_string())
    );
}

#[test]
fn replaces_only_the_value_of_an_existing_view_box() {
    assert_eq!(
        normalize(
            "<svg  id='g1' viewBox=\"1 2 3 4\"\twidth=\"3\">\n<g viewBox=\"9 9 9 9\"/></svg>\n",
            "0 -800 1000 1000"
        ),
        Some(
            "<svg  id='g1' viewBox=\"0 -800 1000 1000\"\twidth=\"3\">\n<g viewBox=\"9 9 9 9\"/></svg>\n"
                .to_string()
        )
    );
}

#[test]
fn keeps_the_quotes_of_an_existing_view_box() {
    assert_eq!(
        normalize("<svg viewBox='1 2 3 4'/>", "5 6 7 8"),
        Some("<svg viewBox='5 6 7 8'/>".to_string())
    );
    assert_eq!(normalize("<svg viewBox=\"\"/>", "5 6 7 8"), Some("<svg viewBox=\"5 6 7 8\"/>".to_string()));
}

#[test]
fn replaces_the_first_of_two_view_boxes() {
    assert_eq!(
        normalize("<svg viewBox=\"1 2 3 4\" viewBox=\"5 6 7 8\"/>", "0 0 9 9"),
        Some("<svg viewBox=\"0 0 9 9\" viewBox=\"5 6 7 8\"/>".to_string())
    );
}

#[test]
fn looks_only_at_the_root_start_tag() {
    assert_eq!(
        normalize("<svg><g viewBox=\"1 2 3 4\"/></svg>", "0 0 9 9"),
        Some("<svg viewBox=\"0 0 9 9\"><g viewBox=\"1 2 3 4\"/></svg>".to_string())
    );
}

#[test]
fn skips_what_stands_before_the_root() {
    assert_eq!(
        normalize("<?xml version=\"1.0\"?>\n<!-- glyph -->\n<svg a=\"b\"/>", "0 0 9 9"),
        Some("<?xml version=\"1.0\"?>\n<!-- glyph -->\n<svg viewBox=\"0 0 9 9\" a=\"b\"/>".to_string())
    );
}

#[test]
fn goes_by_the_local_name() {
    assert_eq!(
        normalize("<s:svg s:viewBox=\"1 2 3 4\"/>", "0 0 9 9"),
        Some("<s:svg s:viewBox=\"0 0 9 9\"/>".to_string())
    );
    assert_eq!(normalize("<s:svg/>", "0 0 9 9"), Some("<s:svg viewBox=\"0 0 9 9\"/>".to_string()));
}

#[test]
fn keeps_bytes_beyond_ascii() {
    assert_eq!(
        normalize("<svg title=\"\u{e9}\u{4e2d}\"><text>\u{1f600}</text></svg>", "0 0 9 9"),
        Some("<svg viewBox=\"0 0 9 9\" title=\"\u{e9}\u{4e2d}\"><text>\u{1f600}</text></svg>".to_string())
    );
    assert_eq!(
        normalize("<svg title=\"\u{e9}\" viewBox=\"1 2 3 4\">\u{1f600}</svg>", "0 0 9 9"),
        Some("<svg title=\"\u{e9}\" viewBox=\"0 0 9 9\">\u{1f600}</svg>".to_string())
    );
}

#[test]
fn replaces_a_view_box_on_a_root_of_another_name() {
    assert_eq!(
        normalize("<g viewBox=\"1 2 3 4\"/>", "0 0 9 9"),
        Some("<g viewBox=\"0 0 9 9\"/>".to_string())
    );
}

#[test]
fn fails_without_view_box_and_svg_root() {
    assert_eq!(normalize("<g a=\"b\"/>", "0 0 9 9"), None);
    assert_eq!(normalize("", "0 0 9 9"), None);
    assert_eq!(normalize("   ", "0 0 9 9"), None);
}

#[test]
fn fails_on_a_malformed_root() {
    assert_eq!(normalize("<svg a=b>", "0 0 9 9"), None);
    assert_eq!(normalize("<svg a=\"1\"b=\"2\"/>", "0 0 9 9"), None);
    assert_eq!(normalize("<!DOCTYPE>", "0 0 9 9"), None);
}

#[test]
fn inserts_where_the_document_ends_within_the_root_start_tag() {
    assert_eq!(normalize("<svg", "0 0 9 9"), Some("<svg viewBox=\"0 0 9 9\"".to_string()));
}

#[test]
fn ignores_what_is_malformed_behind_the_root_start_tag() {
    assert_eq!(
        normalize("<svg><g a=b></svg>", "0 0 9 9"),
        Some("<svg viewBox=\"0 0 9 9\"><g a=b></svg>".to_string())
    );
}

#[test]
fn fails_on_bytes_that_are_no_utf8() {
    assert_eq!(normalize_viewbox(&[0x3c, 0x73, 0x76, 0x67, 0xff, 0x2f, 0x3e], "0 0 9 9"), None);
    assert_eq!(normalize_viewbox(&[0xc3], "0 0 9 9"), None);
}

#[test]
fn finds_the_spans() {
    assert_eq!(
        find_viewbox_attr("<svg viewBox=\"1 2 3 4\"/>"),
        Some(FindViewBoxResult {
            start_span: Some(4),
            first_viewbox: Some(ByteSpan { start: 14, end: 21 }),
        })
    );
    assert_eq!(
        find_viewbox_attr("  <svg a=\"b\">"),
        Some(FindViewBoxResult { start_span: Some(6), first_viewbox: None })
    );
    assert_eq!(
        find_viewbox_attr("<g a=\"b\">"),
        Some(FindViewBoxResult { start_span: None, first_viewbox: None })
    );
    assert_eq!(find_viewbox_attr("<svg a=b>"), None);
    assert_eq!(
        find_viewbox_attr(""),
        Some(FindViewBoxResult { start_span: None, first_viewbox: None })
    );
}

#[test]
fn rewrites_by_the_spans_it_is_given() {
    let markup = b"0123456789";
    let replace = FindViewBoxResult {
        start_span: Some(1),
        first_viewbox: Some(ByteSpan { start: 3, end: 6 }),
    };
    assert_eq!(rewrite_viewbox(markup, &replace, b"ab"), Some(b"012ab6789".to_vec()));
    let empty_value = FindViewBoxResult {
        start_span: None,
        first_viewbox: Some(ByteSpan { start: 10, end: 10 }),
    };
    assert_eq!(rewrite_viewbox(markup, &empty_value, b"ab"), Some(b"0123456789ab".to_vec()));
    let insert = FindViewBoxResult { start_span: Some(2), first_viewbox: None };
    assert_eq!(
        rewrite_viewbox(markup, &insert, b"ab"),
        Some(b"01 viewBox=\"ab\"23456789".to_vec())
    );
}

#[test]
fn refuses_spans_outside_the_document() {
    let markup = b"0123456789";
    let reversed = FindViewBoxResult {
        start_span: Some(1),
        first_viewbox: Some(ByteSpan { start: 6, end: 3 }),
    };
    assert_eq!(rewrite_viewbox(markup, &reversed, b"ab"), None);
    let beyond = FindViewBoxResult {
        start_span: Some(1),
        first_viewbox: Some(ByteSpan { start: 3, end: 11 }),
    };
    assert_eq!(rewrite_viewbox(markup, &beyond, b"ab"), None);
    let insert_beyond = FindViewBoxResult { start_span: Some(11), first_viewbox: None };
    assert_eq!(rewrite_viewbox(markup, &insert_beyond, b"ab"), None);
    let nothing = FindViewBoxResult { start_span: None, first_viewbox: None };
    assert_eq!(rewrite_viewbox(markup, &nothing, b"ab"), None);
}

#[test]
fn an_svg_start_tag_is_remembered() {
    let markup = b"<svg><g/>";
    let svg = XmlEvent::ElementStart { local: ByteSpan { start: 1, end: 4 }, end: 4 };
    assert_eq!(scan_event(markup, None, svg), Scan::Continue(Some(4)));
    assert_eq!(scan_event(markup, Some(9), svg), Scan::Continue(Some(4)));
    let g = XmlEvent::ElementStart { local: ByteSpan { start: 6, end: 7 }, end: 7 };
    assert_eq!(scan_event(markup, None, g), Scan::Continue(None));
    assert_eq!(scan_event(markup, Some(4), g), Scan::Continue(Some(4)));
}

#[test]
fn a_name_must_match_in_full() {
    let markup = b"<svgx svg sv viewBo viewBoxx viewBox";
    let start = |from: usize, to: usize| XmlEvent::ElementStart {
        local: ByteSpan { start: from, end: to },
        end: to,
    };
    assert_eq!(scan_event(markup, None, start(1, 5)), Scan::Continue(None));
    assert_eq!(scan_event(markup, None, start(6, 9)), Scan::Continue(Some(9)));
    assert_eq!(scan_event(markup, None, start(10, 12)), Scan::Continue(None));
    let attribute = |from: usize, to: usize| XmlEvent::Attribute {
        local: ByteSpan { start: from, end: to },
        value: ByteSpan { start: 0, end: 1 },
    };
    assert_eq!(scan_event(markup, Some(3), attribute(13, 19)), Scan::Continue(Some(3)));
    assert_eq!(scan_event(markup, Some(3), attribute(20, 28)), Scan::Continue(Some(3)));
    assert_eq!(
        scan_event(markup, Some(3), attribute(29, 36)),
        Scan::Done(Some(FindViewBoxResult {
            start_span: Some(3),
            first_viewbox: Some(ByteSpan { start: 0, end: 1 }),
        }))
    );
}

#[test]
fn a_span_outside_the_document_names_nothing() {
    let markup = b"svg";
    let start = |from: usize, to: usize| XmlEvent::ElementStart {
        local: ByteSpan { start: from, end: to },
        end: to,
    };
    assert_eq!(scan_event(markup, None, start(0, 3)), Scan::Continue(Some(3)));
    assert_eq!(scan_event(markup, None, start(0, 4)), Scan::Continue(None));
    assert_eq!(scan_event(markup, None, start(3, 0)), Scan::Continue(None));
    assert_eq!(scan_event(markup, None, start(usize::MAX, usize::MAX)), Scan::Continue(None));
}

#[test]
fn the_scan_ends_at_an_element_end_and_fails_at_a_malformed_piece() {
    let markup = b"<svg>";
    assert_eq!(
        scan_event(markup, Some(4), XmlEvent::ElementEnd),
        Scan::Done(Some(FindViewBoxResult { start_span: Some(4), first_viewbox: None }))
    );
    assert_eq!(scan_event(markup, Some(4), XmlEvent::Other), Scan::Continue(Some(4)));
    assert_eq!(scan_event(markup, Some(4), XmlEvent::Malformed), Scan::Done(None));
}
