use vellogd::color::Rgba;
use vellogd::geometry::Point;
use vellogd::protocol::{
    gradient_from_r, pattern_index_of, window_sizes_of, ColorStop, GradientKind, UnexpectedResponse,
};
use vellogd::protocol::{
    accept_connection_ready, extend_from_r, fontface_to_weight_and_style, gc_to_fill_params,
    gc_to_fill_params_with_flag, gc_to_stroke_params, server_name_of, Cap, Extend, FillBrush,
    FillParams, FontStyle, GlyphParams, HandshakeError, Join, Request, Response, StrokeParams,
    WEIGHT_BOLD, WEIGHT_NORMAL,
};

#[test]
fn transparent_or_blank_line_has_no_stroke() {
    assert!(gc_to_stroke_params(0, 0, 64, 1, 1, 640).is_none());
    assert!(gc_to_stroke_params(0xff000000, -1, 64, 1, 1, 640).is_none());
}

#[test]
fn solid_line_stroke() {
    let s = gc_to_stroke_params(0xff0000ff, 0, 128, 2, 3, 640).unwrap();
    assert_eq!(s.color, Rgba { r: 0xff, g: 0, b: 0, a: 0xff });
    assert_eq!(s.width, 128);
    assert_eq!(s.join, Join::Miter);
    assert_eq!(s.cap, Cap::Square);
    assert_eq!(s.miter_limit, 640);
    assert!(s.dash_pattern.is_empty());
    assert_eq!(s.dash_offset, 0);
}

#[test]
fn dashed_line_pattern() {
    // R's "44": dash 4, gap 4; "1343": dash 3 gap 4, dash 1 gap 3.
    let s = gc_to_stroke_params(0xff000000, 0x44, 64, 1, 1, 640).unwrap();
    assert_eq!(s.dash_pattern, vec![256, 256]);
    let s = gc_to_stroke_params(0xff000000, 0x3143, 2, 1, 2, 640).unwrap();
    assert_eq!(s.dash_pattern, vec![6, 8, 2, 6]);
    assert_eq!(s.join, Join::Round);
    assert_eq!(s.cap, Cap::Butt);
}

#[test]
fn dash_pattern_uses_all_four_bytes() {
    let s = StrokeParams::from_request(0xff000000, 0x1111_1111, 1, 3, 1, 0);
    assert_eq!(s.dash_pattern, vec![1, 1, 1, 1, 1, 1, 1, 1]);
    assert_eq!(s.join, Join::Bevel);
    assert_eq!(s.cap, Cap::Round);
    // A negative line type other than blank is read as its bit pattern.
    let s = StrokeParams::from_request(0xff000000, 0xF1F1_F1F1_u32 as i32, 1, 1, 1, 0);
    assert_eq!(s.dash_pattern, vec![1, 15, 1, 15, 1, 15, 1, 15]);
}

#[test]
fn fill_params_from_context() {
    assert!(gc_to_fill_params(0, None).is_none());
    assert!(gc_to_fill_params(0, Some(3)).is_none());
    let f = gc_to_fill_params(0x80402010, None).unwrap();
    assert_eq!(f.brush, FillBrush::Color(Rgba { r: 0x10, g: 0x20, b: 0x40, a: 0x80 }));
    assert!(f.use_nonzero_rule);
    let f = gc_to_fill_params_with_flag(0xff000000, Some(2), false).unwrap();
    assert_eq!(f.brush, FillBrush::PatternRef(2));
    assert!(!f.use_nonzero_rule);
    let f = FillParams::from_request(0xff00ff00);
    assert_eq!(f.brush, FillBrush::Color(Rgba { r: 0, g: 0xff, b: 0, a: 0xff }));
}

#[test]
fn font_faces() {
    assert_eq!(fontface_to_weight_and_style(1), (WEIGHT_NORMAL, FontStyle::Normal));
    assert_eq!(fontface_to_weight_and_style(2), (WEIGHT_BOLD, FontStyle::Normal));
    assert_eq!(fontface_to_weight_and_style(3), (WEIGHT_NORMAL, FontStyle::Italic));
    assert_eq!(fontface_to_weight_and_style(4), (WEIGHT_BOLD, FontStyle::Italic));
    assert_eq!(fontface_to_weight_and_style(5), (WEIGHT_NORMAL, FontStyle::Normal));
}

#[test]
fn glyph_styles() {
    let mut g = GlyphParams {
        fontfile: String::from("a.ttf"),
        index: 0,
        family: String::from("sans"),
        weight_raw: 400,
        style_raw: 1,
        angle: 0,
        size: 12 * 64,
        color: Rgba { r: 0, g: 0, b: 0, a: 255 },
    };
    assert_eq!(g.style(), FontStyle::Normal);
    g.style_raw = 2;
    assert_eq!(g.style(), FontStyle::Italic);
    g.style_raw = 3;
    assert_eq!(g.style(), FontStyle::Oblique);
    g.style_raw = 9;
    assert_eq!(g.style(), FontStyle::Normal);
}

#[test]
fn extend_codes() {
    assert_eq!(extend_from_r(1), Extend::Pad);
    assert_eq!(extend_from_r(2), Extend::Repeat);
    assert_eq!(extend_from_r(3), Extend::Reflect);
    assert_eq!(extend_from_r(4), Extend::Pad);
}

#[test]
fn handshake_checks() {
    assert_eq!(accept_connection_ready(&Request::ConnectionReady), Ok(()));
    assert_eq!(
        accept_connection_ready(&Request::NewWindow),
        Err(HandshakeError::ExpectedConnectionReady)
    );
    assert_eq!(
        server_name_of(Response::Connect { server_name: String::from("srv") }),
        Ok(String::from("srv"))
    );
    assert_eq!(
        server_name_of(Response::WindowSizes { width: 1, height: 1 }),
        Err(HandshakeError::ExpectedConnect)
    );
}

#[test]
fn gradient_from_r_pairs_stops() {
    let kind = GradientKind::Linear { start: Point { x: 0, y: 0 }, end: Point { x: 640, y: 0 } };
    let g = gradient_from_r(kind, 3, &[0, 32, 64], &[0xff0000ff, 0xff00ff00]);
    assert_eq!(g.kind, kind);
    assert_eq!(g.extend, Extend::Reflect);
    assert_eq!(
        g.stops,
        vec![
            ColorStop { offset: 0, color: Rgba { r: 255, g: 0, b: 0, a: 255 } },
            ColorStop { offset: 32, color: Rgba { r: 0, g: 255, b: 0, a: 255 } },
        ]
    );
    let g = gradient_from_r(kind, 4, &[], &[1]);
    assert_eq!(g.extend, Extend::Pad);
    assert!(g.stops.is_empty());
}

#[test]
fn replies_to_rpc_requests() {
    assert_eq!(window_sizes_of(Response::WindowSizes { width: 640, height: 480 }), Ok((640, 480)));
    assert_eq!(
        window_sizes_of(Response::PatternRegistered { index: 1 }),
        Err(UnexpectedResponse)
    );
    assert_eq!(pattern_index_of(Response::PatternRegistered { index: 3 }), Ok(3));
    assert_eq!(
        pattern_index_of(Response::Connect { server_name: String::from("x") }),
        Err(UnexpectedResponse)
    );
}
