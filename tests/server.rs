use vellogd::color::Rgba;
use vellogd::geometry::{Point, YTransform};
use vellogd::protocol::{
    Extend, FillBrush, FillParams, Gradient, GradientKind, ColorStop, Request, Response,
    StrokeParams, Cap, Join,
};
use vellogd::scene::{Brush, DrawOp, Fill, FillRule, Pattern, Shape};
use vellogd::server::{Action, RenderState, RendererSlots, RequestError, VelloApp, WindowEvent};

const RED: Rgba = Rgba { r: 255, g: 0, b: 0, a: 255 };

fn p(x: i32, y: i32) -> Point {
    Point { x, y }
}

fn red_fill() -> Option<FillParams> {
    Some(FillParams { brush: FillBrush::Color(RED), use_nonzero_rule: true })
}

fn stroke() -> StrokeParams {
    StrokeParams {
        color: RED,
        width: 64,
        join: Join::Round,
        cap: Cap::Round,
        miter_limit: 640,
        dash_pattern: vec![],
        dash_offset: 0,
    }
}

fn circle() -> Request {
    Request::DrawCircle { center: p(50 * 64, 50 * 64), radius: 10 * 64, fill_params: red_fill(), stroke_params: None }
}

fn active_app(width: u32, height: u32) -> VelloApp {
    let mut app = VelloApp::new(width, height, 0xffffffff);
    assert!(matches!(app.user_event(Request::NewWindow), Ok(Action::CreateWindow { .. })));
    app.window_created(width, height);
    app
}

fn ok_nothing(r: Result<Action, RequestError>) -> bool {
    matches!(r, Ok(Action::Nothing))
}

#[test]
fn draws_while_suspended_change_nothing() {
    let mut app = VelloApp::new(100, 100, 0);
    assert!(ok_nothing(app.user_event(circle())));
    assert!(ok_nothing(app.user_event(Request::DrawLine { p0: p(0, 0), p1: p(64, 64), stroke_params: stroke() })));
    assert!(ok_nothing(app.user_event(Request::DrawRect { p0: p(0, 0), p1: p(64, 64), fill_params: red_fill(), stroke_params: Some(stroke()) })));
    assert!(app.drawer().scene().ops().is_empty());
    assert!(!app.drawer().needs_redraw());
    assert!(ok_nothing(app.user_event(Request::RedrawWindow)));
    assert_eq!(app.state(), RenderState::Suspended { cached_window: false });
}

#[test]
fn redraw_flag_until_present() {
    let mut app = active_app(100, 100);
    assert!(ok_nothing(app.user_event(Request::RedrawWindow)));
    app.user_event(circle()).unwrap();
    assert!(app.drawer().needs_redraw());
    assert!(matches!(app.user_event(Request::RedrawWindow), Ok(Action::RequestRedraw)));
    assert!(matches!(app.window_event(WindowEvent::Resized { width: 120, height: 90 }), Action::ResizeSurface { width: 120, height: 90 }));
    assert!(app.drawer().needs_redraw());
    assert!(matches!(app.window_event(WindowEvent::RedrawRequested), Action::Present));
    app.frame_presented();
    assert!(!app.drawer().needs_redraw());
    assert!(ok_nothing(app.user_event(Request::RedrawWindow)));
}

#[test]
fn host_drawing_pauses_refresh() {
    let mut app = active_app(100, 100);
    assert!(app.refresh_tick());
    app.set_drawing_mode(1);
    assert!(!app.refresh_tick());
    app.user_event(circle()).unwrap();
    assert!(ok_nothing(app.user_event(Request::RedrawWindow)));
    app.set_drawing_mode(0);
    assert!(app.refresh_tick());
    assert!(matches!(app.user_event(Request::RedrawWindow), Ok(Action::RequestRedraw)));
}

#[test]
fn clip_pairs_balance() {
    let mut app = active_app(100, 100);
    let inner = Request::Clip { p0: p(10 * 64, 10 * 64), p1: p(50 * 64, 50 * 64) };
    let full = || Request::Clip { p0: p(0, 0), p1: p(100 * 64, 100 * 64) };
    app.user_event(Request::Clip { p0: p(1, 1), p1: p(64, 64) }).unwrap();
    let before = app.drawer().scene().clip_depth();
    assert_eq!(before, 1);
    for _ in 0..3 {
        app.user_event(Request::Clip { p0: p(10 * 64, 10 * 64), p1: p(50 * 64, 50 * 64) }).unwrap();
        assert_eq!(app.drawer().scene().clip_depth(), before + 1);
        app.user_event(full()).unwrap();
        assert_eq!(app.drawer().scene().clip_depth(), before);
    }
    app.user_event(inner).unwrap();
    app.user_event(inner_clone()).unwrap();
    assert_eq!(app.drawer().scene().clip_depth(), before + 2);
    let ops = app.drawer().scene().ops();
    assert!(matches!(ops[ops.len() - 1], DrawOp::PushClip { .. }));
}

fn inner_clone() -> Request {
    Request::Clip { p0: p(10 * 64, 10 * 64), p1: p(50 * 64, 50 * 64) }
}

#[test]
fn full_canvas_clip_without_open_clip_is_ignored() {
    let mut app = active_app(100, 100);
    app.user_event(Request::Clip { p0: p(-64, -64), p1: p(200 * 64, 200 * 64) }).unwrap();
    assert_eq!(app.drawer().scene().clip_depth(), 0);
    assert!(app.drawer().scene().ops().is_empty());
}

fn gradient() -> Gradient {
    Gradient {
        kind: GradientKind::Linear { start: p(0, 0), end: p(64 * 100, 0) },
        extend: Extend::Reflect,
        stops: vec![
            ColorStop { offset: 0, color: RED },
            ColorStop { offset: 64, color: Rgba { r: 0, g: 0, b: 255, a: 255 } },
        ],
    }
}

#[test]
fn gradient_round_trip() {
    let mut app = active_app(100, 100);
    let r = app.user_event(Request::RegisterGradient { gradient: gradient() });
    let index = match r {
        Ok(Action::Respond(Response::PatternRegistered { index })) => index,
        _ => panic!("no index"),
    };
    assert_eq!(index, 0);
    app.user_event(Request::DrawRect {
        p0: p(0, 0),
        p1: p(64, 64),
        fill_params: Some(FillParams { brush: FillBrush::PatternRef(index as u32), use_nonzero_rule: false }),
        stroke_params: None,
    })
    .unwrap();
    let ops = app.drawer().scene().ops();
    match &ops[0] {
        DrawOp::Draw { shape: Shape::Rect { .. }, fill, stroke, .. } => {
            assert_eq!(*fill, Some(Fill { brush: Brush::Pattern(0), rule: FillRule::NonZero }));
            assert!(stroke.is_none());
        }
        _ => panic!("not a rectangle"),
    }
    match &app.drawer().patterns()[0] {
        Pattern::Gradient(g) => {
            assert_eq!(g.extend, Extend::Reflect);
            assert_eq!(g.stops, gradient().stops);
            assert_eq!(g.kind, gradient().kind);
        }
        _ => panic!("not a gradient"),
    }
}

#[test]
fn stale_pattern_is_skipped() {
    let mut app = active_app(100, 100);
    app.user_event(Request::RegisterGradient { gradient: gradient() }).unwrap();
    app.user_event(Request::ReleasePattern { index: 0 }).unwrap();
    let fill = Some(FillParams { brush: FillBrush::PatternRef(0), use_nonzero_rule: true });
    app.user_event(Request::DrawPolygon { path: vec![], fill_params: fill, stroke_params: None }).unwrap();
    assert!(app.drawer().scene().ops().is_empty());
    let fill = Some(FillParams { brush: FillBrush::PatternRef(7), use_nonzero_rule: true });
    app.user_event(Request::DrawPolygon { path: vec![], fill_params: fill, stroke_params: Some(stroke()) }).unwrap();
    match &app.drawer().scene().ops()[0] {
        DrawOp::Draw { fill, stroke, .. } => {
            assert!(fill.is_none());
            assert!(stroke.is_some());
        }
        _ => panic!("not a shape"),
    }
}

#[test]
fn tile_capture_keeps_original_scene() {
    let mut app = active_app(100, 100);
    app.user_event(circle()).unwrap();
    let transform = app.y_transform();
    assert!(ok_nothing(app.user_event(Request::PrepareForSaveAsTile { x: 640, y: 640, height: 320 })));
    assert!(!app.refresh_tick());
    assert_eq!(app.y_transform(), YTransform { shift_x: -640, flip_at: 960 });
    assert!(app.drawer().scene().ops().is_empty());
    app.user_event(circle()).unwrap();
    app.user_event(Request::DrawLine { p0: p(0, 0), p1: p(64, 64), stroke_params: stroke() }).unwrap();
    assert!(ok_nothing(app.user_event(Request::RedrawWindow)));
    assert!(matches!(app.window_event(WindowEvent::RedrawRequested), Action::Nothing));
    assert_eq!(
        app.user_event(Request::PrepareForSaveAsTile { x: 0, y: 0, height: 1 }).err(),
        Some(RequestError::CaptureInProgress)
    );
    let r = app.user_event(Request::SaveAsTile { width: 320, height: 320, extend: Extend::Repeat });
    assert!(matches!(r, Ok(Action::Respond(Response::PatternRegistered { index: 0 }))));
    assert!(app.refresh_tick());
    assert_eq!(app.y_transform(), transform);
    assert_eq!(app.drawer().scene().ops().len(), 1);
    assert!(matches!(app.drawer().scene().ops()[0], DrawOp::Draw { shape: Shape::Circle { .. }, .. }));
    assert_eq!(app.drawer().patterns().len(), 1);
    match &app.drawer().patterns()[0] {
        Pattern::Tile { scene, width, height, extend } => {
            assert_eq!(scene.ops().len(), 2);
            assert_eq!((*width, *height, *extend), (320, 320, Extend::Repeat));
        }
        _ => panic!("not a tile"),
    }
}

#[test]
fn tile_finish_without_start_is_rejected() {
    let mut app = active_app(100, 100);
    app.user_event(circle()).unwrap();
    app.set_drawing_mode(1);
    let r = app.user_event(Request::SaveAsTile { width: 1, height: 1, extend: Extend::Pad });
    assert_eq!(r.err(), Some(RequestError::NoCaptureInProgress));
    assert!(app.refresh_tick());
    assert_eq!(app.drawer().scene().ops().len(), 1);
    assert!(app.drawer().patterns().is_empty());
}

#[test]
fn handshake_after_connect_is_refused() {
    let mut app = active_app(10, 10);
    assert_eq!(app.user_event(Request::ConnectionReady).err(), Some(RequestError::UnexpectedHandshake));
}

#[test]
fn window_sizes_are_real_after_new_window() {
    let mut app = VelloApp::new(0, 0, 0);
    match app.user_event(Request::GetWindowSizes) {
        Ok(Action::Respond(Response::WindowSizes { width: 0, height: 0 })) => {}
        _ => panic!("expected zero sizes"),
    }
    match app.user_event(Request::NewWindow) {
        Ok(Action::CreateWindow { reuse_cached: false, .. }) => {}
        _ => panic!("expected a new window"),
    }
    app.window_created(640, 480);
    app.user_event(circle()).unwrap();
    match app.user_event(Request::GetWindowSizes) {
        Ok(Action::Respond(Response::WindowSizes { width: 640, height: 480 })) => {}
        _ => panic!("expected the materialized size"),
    }
}

#[test]
fn lifecycle_reuses_cached_window() {
    let mut app = active_app(100, 100);
    assert!(matches!(app.resumed(), Action::Nothing));
    assert!(matches!(app.suspended(), Action::ReleaseSurface));
    assert_eq!(app.state(), RenderState::Suspended { cached_window: true });
    assert!(matches!(app.resumed(), Action::CreateWindow { reuse_cached: true, width: 100, height: 100 }));
    app.window_created(100, 100);
    assert!(matches!(app.window_event(WindowEvent::CloseRequested), Action::CloseWindow));
    assert_eq!(app.state(), RenderState::Suspended { cached_window: false });
    assert!(matches!(app.window_event(WindowEvent::RedrawRequested), Action::Nothing));
    assert!(matches!(app.user_event(Request::CloseWindow), Ok(Action::CloseWindow)));
}

#[test]
fn resize_updates_size_and_transform() {
    let mut app = active_app(100, 100);
    app.window_event(WindowEvent::Resized { width: 300, height: 200 });
    assert_eq!(app.size(), (300, 200));
    assert_eq!(app.y_transform(), YTransform { shift_x: 0, flip_at: 200 * 64 });
}

#[test]
fn new_page_clears_scene_and_text_is_recorded() {
    let mut app = active_app(100, 100);
    app.user_event(Request::DrawText {
        pos: p(64, 64),
        text: String::from("hi"),
        color: RED,
        size: 12 * 64,
        lineheight: 64,
        family: String::from("sans"),
        face: 1,
        angle: 0,
        hadj: 32,
    })
    .unwrap();
    assert!(matches!(app.drawer().scene().ops()[0], DrawOp::Text { .. }));
    app.frame_presented();
    app.user_event(Request::NewPage).unwrap();
    assert!(app.drawer().scene().ops().is_empty());
    assert!(app.drawer().needs_redraw());
}

#[test]
fn base_color_and_export() {
    let mut app = VelloApp::new(30, 20, 0);
    app.user_event(Request::SetBaseColor { color: 0xff00ff00 }).unwrap();
    assert_eq!(app.base_color(), 0xff00ff00);
    match app.user_event(Request::SaveAsPng { filename: String::from("out.png") }) {
        Ok(Action::ExportPng { filename, width: 30, height: 20 }) => assert_eq!(filename, "out.png"),
        _ => panic!("expected an export"),
    }
}

#[test]
fn renderer_made_once_per_device() {
    let mut slots = RendererSlots::new();
    assert!(slots.claim(2, 1));
    assert!(!slots.claim(2, 1));
    assert!(slots.claim(2, 0));
    assert!(!slots.claim(3, 0));
    // A table cut to fewer devices forgets the devices that went away.
    assert!(!slots.claim(1, 0));
    assert!(slots.claim(2, 1));
}
