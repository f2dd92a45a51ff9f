//! What holds of the server over several requests and events.
use crate::geometry::{apply, canvas_transform, Point, ONE};
use crate::protocol::{
    is_draw_request, Extend, FillBrush, FillParams, Gradient, Request, Response, StrokeParams,
};
use crate::scene::{Brush, DrawOp, Fill, FillRule, PatternModel, Shape};
use crate::server::{
    covers_canvas, frame_presented_spec, is_active, new_window_action, presenting, resumed_spec,
    suspended_spec, user_event_spec, window_created_spec, window_event_spec, Action, AppModel,
    RequestError, WindowEvent,
};
use vstd::prelude::*;

verus! {

/// The server after the requests `rs`, handled in order.
pub open spec fn run(m: AppModel, rs: Seq<Request>) -> AppModel
    decreases rs.len(),
{
    if rs.len() == 0 {
        m
    } else {
        run(user_event_spec(m, rs[0]).0, rs.drop_first())
    }
}

/// Whether the registry's two lists have one entry per pattern.
pub open spec fn registry_valid(m: AppModel) -> bool {
    m.drawer.released.len() == m.drawer.patterns.len()
}

/// While no window is shown, a drawing request leaves the server as it was
/// and answers nothing, and no redraw is requested.
pub proof fn lemma_suspended_draw_is_noop(m: AppModel, r: Request)
    requires
        m.state is Suspended,
        is_draw_request(r),
    ensures
        user_event_spec(m, r).0 == m,
        user_event_spec(m, r).1 == Ok::<Action, RequestError>(Action::Nothing),
        user_event_spec(m, Request::RedrawWindow).1 == Ok::<Action, RequestError>(Action::Nothing),
{
}

/// A drawing request on a shown window sets the redraw flag; once set, the
/// flag stays set through every request and every window event, and only
/// a presented frame clears it.
pub proof fn lemma_redraw_flag(m: AppModel, r: Request, e: WindowEvent, width: u32, height: u32)
    ensures
        is_active(m) && is_draw_request(r) ==> user_event_spec(m, r).0.drawer.needs_redraw,
        m.drawer.needs_redraw ==> user_event_spec(m, r).0.drawer.needs_redraw,
        m.drawer.needs_redraw ==> window_event_spec(m, e).0.drawer.needs_redraw,
        m.drawer.needs_redraw ==> resumed_spec(m).0.drawer.needs_redraw,
        m.drawer.needs_redraw ==> suspended_spec(m).0.drawer.needs_redraw,
        m.drawer.needs_redraw ==> window_created_spec(m, width, height).drawer.needs_redraw,
        !frame_presented_spec(m).drawer.needs_redraw,
{
}

/// With a window shown and no tile capture running, a repaint event asks
/// for exactly one present and changes nothing; the presented frame then
/// clears the redraw flag and leaves the scene as it was.
pub proof fn lemma_present_clears_flag(m: AppModel)
    requires
        is_active(m),
        m.capture is None,
    ensures
        window_event_spec(m, WindowEvent::RedrawRequested).1 is Present,
        window_event_spec(m, WindowEvent::RedrawRequested).0 == m,
        !frame_presented_spec(m).drawer.needs_redraw,
        frame_presented_spec(m).drawer.scene == m.drawer.scene,
        frame_presented_spec(m).drawer.patterns == m.drawer.patterns,
{
}

/// Whether `rs` is a run of clip pairs: each a rectangle smaller than the
/// canvas followed by one that covers it.
pub open spec fn matched_clip_pairs(m: AppModel, rs: Seq<Request>) -> bool {
    &&& rs.len() % 2 == 0
    &&& forall|k: int|
        0 <= k < rs.len() ==> (#[trigger] rs[k] matches Request::Clip { p0, p1 } && (
        covers_canvas(m, p0, p1) <==> k % 2 == 1))
}

/// Each clip rectangle that covers the canvas pops the clip that the one
/// before it pushed: after matched pairs the clip depth is what it was.
pub proof fn lemma_clip_balance(m: AppModel, rs: Seq<Request>)
    requires
        is_active(m),
        matched_clip_pairs(m, rs),
    ensures
        run(m, rs).drawer.scene.clip_depth == m.drawer.scene.clip_depth,
        run(m, rs).width == m.width,
        run(m, rs).height == m.height,
        run(m, rs).state == m.state,
    decreases rs.len(),
{
    if rs.len() > 0 {
        let r0 = rs[0];
        let r1 = rs[1];
        let m1 = user_event_spec(m, r0).0;
        let m2 = user_event_spec(m1, r1).0;
        assert(m1.drawer.scene.clip_depth == m.drawer.scene.clip_depth + 1);
        assert(m2.drawer.scene.clip_depth == m.drawer.scene.clip_depth);
        let rest = rs.subrange(2, rs.len() as int);
        assert forall|k: int| 0 <= k < rest.len() implies (#[trigger] rest[k] matches Request::Clip {
            p0,
            p1,
        } && (covers_canvas(m2, p0, p1) <==> k % 2 == 1)) by {
            assert(rest[k] == rs[k + 2]);
        }
        lemma_clip_balance(m2, rest);
        assert(rs.drop_first().drop_first() =~= rest);
        assert(run(m, rs) == run(m1, rs.drop_first()));
        assert(run(m1, rs.drop_first()) == run(m2, rest));
    }
}

/// A gradient that was registered is what a fill that names its index
/// paints: the recorded fill refers to that index, and the registry holds
/// the gradient there exactly as it was sent.
pub proof fn lemma_pattern_round_trip(
    m: AppModel,
    gradient: Gradient,
    p0: Point,
    p1: Point,
    use_nonzero_rule: bool,
    stroke_params: Option<StrokeParams>,
)
    requires
        is_active(m),
        registry_valid(m),
        m.drawer.patterns.len() < u32::MAX,
    ensures
        ({
            let index = m.drawer.patterns.len();
            let (m1, a1) = user_event_spec(m, Request::RegisterGradient { gradient });
            let fill = FillParams {
                brush: FillBrush::PatternRef(index as u32),
                use_nonzero_rule,
            };
            let m2 = user_event_spec(
                m1,
                Request::DrawRect { p0, p1, fill_params: Some(fill), stroke_params },
            ).0;
            &&& a1 == Ok::<Action, RequestError>(
                Action::Respond(Response::PatternRegistered { index: index as usize }),
            )
            &&& m2.drawer.scene.ops.last() == DrawOp::Draw {
                shape: Shape::Rect { p0, p1 },
                transform: m.drawer.transform,
                fill: Some(Fill { brush: Brush::Pattern(index as usize), rule: FillRule::NonZero }),
                stroke: stroke_params,
            }
            &&& m2.drawer.patterns[index as int] == PatternModel::Gradient(gradient)
        }),
{
}

/// The requests that the host can make while a tile is being captured.
pub open spec fn capture_time_request(r: Request) -> bool {
    is_draw_request(r) || r is Clip || r is RedrawWindow || r is GetWindowSizes
}

proof fn lemma_capture_step(m: AppModel, r: Request)
    requires
        m.capture is Some,
        capture_time_request(r),
    ensures
        user_event_spec(m, r).0.capture == m.capture,
        user_event_spec(m, r).0.drawer.patterns == m.drawer.patterns,
        user_event_spec(m, r).0.drawer.released == m.drawer.released,
        user_event_spec(m, r).0.stop_rendering == m.stop_rendering,
        !(user_event_spec(m, r).1 matches Ok(Action::RequestRedraw)),
        !(window_event_spec(m, WindowEvent::RedrawRequested).1 is Present),
        !presenting(m),
{
}

proof fn lemma_capture_run(m: AppModel, rs: Seq<Request>)
    requires
        m.capture is Some,
        forall|k: int| 0 <= k < rs.len() ==> capture_time_request(#[trigger] rs[k]),
    ensures
        run(m, rs).capture == m.capture,
        run(m, rs).drawer.patterns == m.drawer.patterns,
        run(m, rs).drawer.released == m.drawer.released,
    decreases rs.len(),
{
    if rs.len() > 0 {
        lemma_capture_step(m, rs[0]);
        let rest = rs.drop_first();
        assert forall|k: int| 0 <= k < rest.len() implies capture_time_request(#[trigger] rest[k]) by {
            assert(rest[k] == rs[k + 1]);
        }
        lemma_capture_run(user_event_spec(m, rs[0]).0, rest);
    }
}

/// Between the start of a tile capture and its end, no request makes the
/// screen show a scene; after the end the live scene and transform are
/// the ones from before the capture, and the registry has gained exactly
/// one pattern, the tile.
pub proof fn lemma_tile_capture(
    m: AppModel,
    x: i32,
    y: i32,
    tile_height: i32,
    rs: Seq<Request>,
    width: i32,
    height: i32,
    extend: Extend,
)
    requires
        m.capture is None,
        registry_valid(m),
        forall|k: int| 0 <= k < rs.len() ==> capture_time_request(#[trigger] rs[k]),
    ensures
        ({
            let m1 = user_event_spec(m, Request::PrepareForSaveAsTile { x, y, height: tile_height }).0;
            let m2 = run(m1, rs);
            let (m3, a3) = user_event_spec(m2, Request::SaveAsTile { width, height, extend });
            &&& forall|k: int|
                0 <= k < rs.len() ==> !(#[trigger] user_event_spec(run(m1, rs.take(k)), rs[k]).1 matches Ok(
                    Action::RequestRedraw,
                ))
            &&& forall|k: int| 0 <= k <= rs.len() ==> !presenting(#[trigger] run(m1, rs.take(k)))
            &&& forall|k: int|
                0 <= k <= rs.len() ==> !(#[trigger] window_event_spec(
                    run(m1, rs.take(k)),
                    WindowEvent::RedrawRequested,
                ).1 is Present)
            &&& m3.drawer.scene == m.drawer.scene
            &&& m3.drawer.transform == m.drawer.transform
            &&& m3.drawer.patterns.len() == m.drawer.patterns.len() + 1
            &&& m3.drawer.patterns.take(m.drawer.patterns.len() as int) == m.drawer.patterns
            &&& m3.drawer.patterns.last() is Tile
            &&& a3 == Ok::<Action, RequestError>(
                Action::Respond(
                    Response::PatternRegistered { index: m.drawer.patterns.len() as usize },
                ),
            )
            &&& m3.capture is None
        }),
{
    let m1 = user_event_spec(m, Request::PrepareForSaveAsTile { x, y, height: tile_height }).0;
    lemma_capture_run(m1, rs);
    assert forall|k: int|
        0 <= k < rs.len() implies !(#[trigger] user_event_spec(run(m1, rs.take(k)), rs[k]).1 matches Ok(
        Action::RequestRedraw,
    )) by {
        assert forall|j: int| 0 <= j < rs.take(k).len() implies capture_time_request(
            #[trigger] rs.take(k)[j],
        ) by {
            assert(rs.take(k)[j] == rs[j]);
        }
        lemma_capture_run(m1, rs.take(k));
        lemma_capture_step(run(m1, rs.take(k)), rs[k]);
    }
    assert forall|k: int| 0 <= k <= rs.len() implies !presenting(#[trigger] run(m1, rs.take(k)))
        && !(window_event_spec(run(m1, rs.take(k)), WindowEvent::RedrawRequested).1 is Present) by {
        assert forall|j: int| 0 <= j < rs.take(k).len() implies capture_time_request(
            #[trigger] rs.take(k)[j],
        ) by {
            assert(rs.take(k)[j] == rs[j]);
        }
        lemma_capture_run(m1, rs.take(k));
    }
    let m2 = run(m1, rs);
    let m3 = user_event_spec(m2, Request::SaveAsTile { width, height, extend }).0;
    assert(m3.drawer.patterns.take(m.drawer.patterns.len() as int) =~= m.drawer.patterns);
}

/// The canvas transform puts the bottom edge of the canvas at the top of
/// the surface and the top edge at its bottom, for every canvas height.
pub proof fn lemma_y_flip(height: u32, x: i32)
    ensures
        apply(canvas_transform(height as int), Point { x, y: 0 }) == (x as int, height * ONE),
        forall|p: Point|
            p.y == height * ONE ==> (#[trigger] apply(canvas_transform(height as int), p)).1 == 0,
{
}

/// Once the window that `NewWindow` asked for exists, the size query
/// answers the window's own size, also after drawing.
pub proof fn lemma_materialized_size(
    m: AppModel,
    width: u32,
    height: u32,
    center: Point,
    radius: i32,
    fill_params: Option<FillParams>,
    stroke_params: Option<StrokeParams>,
)
    requires
        m.state is Suspended,
    ensures
        ({
            let (m1, a1) = user_event_spec(m, Request::NewWindow);
            let m2 = window_created_spec(m1, width, height);
            let m3 = user_event_spec(
                m2,
                Request::DrawCircle { center, radius, fill_params, stroke_params },
            ).0;
            &&& a1 == Ok::<Action, RequestError>(new_window_action(m))
            &&& new_window_action(m) is CreateWindow
            &&& user_event_spec(m3, Request::GetWindowSizes).1 == Ok::<Action, RequestError>(
                Action::Respond(Response::WindowSizes { width, height }),
            )
        }),
{
}

} // verus!
