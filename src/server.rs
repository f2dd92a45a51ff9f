//! The rendering server's decisions: the window lifecycle, the handling of
//! each request, redraw scheduling and the tile capture protocol.
//!
//! The server owns no window, surface or GPU object. Each entry point takes
//! an event and returns the `Action` that whoever drives the event loop
//! must perform with those objects.
use crate::geometry::{
    calc_y_translate, canvas_transform, tile_transform, tile_transform_of, Point, YTransform, ONE,
};
use crate::protocol::{is_draw_request, Extend, Request, Response};
use crate::scene::{
    empty_scene, pop_clip_spec, push_clip_spec, register_spec, release_spec, resolve_fill,
    paint_spec, with_op, DrawOp, DrawerModel, Pattern, PatternModel, Scene, SceneDrawer,
    SceneModel, Shape,
};
use vstd::prelude::*;

verus! {

/// Whether a window is shown.
#[derive(Clone, Copy, Debug, PartialEq, Eq, Structural)]
pub enum RenderState {
    /// A window with its surface is shown.
    Active,
    /// No surface; `cached_window` tells whether the window itself was kept.
    Suspended { cached_window: bool },
}

/// An event of the windowing toolkit about the server's window.
#[derive(Clone, Copy, Debug, PartialEq, Eq, Structural)]
pub enum WindowEvent {
    CloseRequested,
    Resized { width: u32, height: u32 },
    RedrawRequested,
}

/// What the event loop must do after an event.
#[derive(Debug)]
pub enum Action {
    Nothing,
    /// Make the window (reuse the kept one when `reuse_cached`) and its
    /// surface, then report the window's size with `window_created`.
    CreateWindow { reuse_cached: bool, width: u32, height: u32 },
    /// Drop the surface and the window.
    CloseWindow,
    /// Drop the surface, keep the window.
    ReleaseSurface,
    /// Resize the surface in place.
    ResizeSurface { width: u32, height: u32 },
    /// Ask the toolkit to repaint the window.
    RequestRedraw,
    /// Render the scene to the surface and present it; report success
    /// with `frame_presented`.
    Present,
    /// Send this reply to the client.
    Respond(Response),
    /// Render the scene off-screen at this size and write it as a PNG file.
    ExportPng { filename: String, width: u32, height: u32 },
}

/// A request that the server refuses.
#[derive(Clone, Copy, Debug, PartialEq, Eq, Structural)]
pub enum RequestError {
    /// A handshake message after the handshake.
    UnexpectedHandshake,
    /// A tile capture was started while another one was running.
    CaptureInProgress,
    /// A tile capture was finished that was never started.
    NoCaptureInProgress,
}

/// A running tile capture: the scene and transform it put aside.
pub struct CaptureModel {
    pub original: SceneModel,
    pub transform: YTransform,
}

/// The state of the server.
pub struct AppModel {
    pub state: RenderState,
    pub drawer: DrawerModel,
    pub width: u32,
    pub height: u32,
    pub base_color: u32,
    /// Set by the host while it draws, so that the refresh timer pauses.
    pub stop_rendering: bool,
    pub capture: Option<CaptureModel>,
}

pub open spec fn is_active(m: AppModel) -> bool {
    m.state is Active
}

/// Whether the scene may reach the screen: the host is not in the middle
/// of drawing and no tile capture is running.
pub open spec fn presenting(m: AppModel) -> bool {
    !m.stop_rendering && m.capture is None
}

/// Whether a clip rectangle covers the whole canvas.
pub open spec fn covers_canvas(m: AppModel, p0: Point, p1: Point) -> bool {
    &&& p0.x <= 0
    &&& p0.y <= 0
    &&& p1.x >= m.width * ONE
    &&& p1.y >= m.height * ONE
}

pub open spec fn with_drawer(m: AppModel, d: DrawerModel) -> AppModel {
    AppModel { drawer: d, ..m }
}

/// The server after the canvas became `width` by `height`: the transform
/// follows the new height (the put-aside one while a capture runs).
pub open spec fn set_size_spec(m: AppModel, width: u32, height: u32) -> AppModel {
    match m.capture {
        None => AppModel {
            width,
            height,
            drawer: DrawerModel { transform: canvas_transform(height as int), ..m.drawer },
            ..m
        },
        Some(c) => AppModel {
            width,
            height,
            capture: Some(CaptureModel { transform: canvas_transform(height as int), ..c }),
            ..m
        },
    }
}

/// What showing the window takes: nothing while one is shown.
pub open spec fn new_window_action(m: AppModel) -> Action {
    match m.state {
        RenderState::Suspended { cached_window } => Action::CreateWindow {
            reuse_cached: cached_window,
            width: m.width,
            height: m.height,
        },
        RenderState::Active => Action::Nothing,
    }
}

/// The drawer after a draw request; the request must be one.
pub open spec fn draw_spec(d: DrawerModel, r: Request) -> DrawerModel {
    match r {
        Request::DrawCircle { center, radius, fill_params, stroke_params } => paint_spec(
            d,
            Shape::Circle { center, radius },
            resolve_fill(d, fill_params, true),
            stroke_params,
        ),
        Request::DrawLine { p0, p1, stroke_params } => paint_spec(
            d,
            Shape::Line { p0, p1 },
            None,
            Some(stroke_params),
        ),
        Request::DrawPolyline { path, stroke_params } => paint_spec(
            d,
            Shape::Path(path),
            None,
            Some(stroke_params),
        ),
        Request::DrawPolygon { path, fill_params, stroke_params } => paint_spec(
            d,
            Shape::Path(path),
            resolve_fill(d, fill_params, false),
            stroke_params,
        ),
        Request::DrawRect { p0, p1, fill_params, stroke_params } => paint_spec(
            d,
            Shape::Rect { p0, p1 },
            resolve_fill(d, fill_params, true),
            stroke_params,
        ),
        Request::DrawText { pos, text, color, size, lineheight, family, face, angle, hadj } => {
            let op = DrawOp::Text {
                pos,
                transform: d.transform,
                text,
                color,
                size,
                lineheight,
                family,
                face,
                angle,
                hadj,
            };
            DrawerModel { needs_redraw: true, ..with_op(d, op) }
        },
        _ => d,
    }
}

/// The server after a request, and what it answers.
///
/// While no window is shown, drawing requests change nothing and the size
/// query answers zero; pattern registration, export and the capture
/// protocol work in any state.
pub open spec fn user_event_spec(m: AppModel, r: Request) -> (AppModel, Result<
    Action,
    RequestError,
>) {
    match r {
        Request::ConnectionReady => (m, Err(RequestError::UnexpectedHandshake)),
        Request::NewWindow => (m, Ok(new_window_action(m))),
        Request::RedrawWindow => (
            m,
            Ok(
                if is_active(m) && m.drawer.needs_redraw && presenting(m) {
                    Action::RequestRedraw
                } else {
                    Action::Nothing
                },
            ),
        ),
        Request::CloseWindow => (
            AppModel { state: RenderState::Suspended { cached_window: false }, ..m },
            Ok(Action::CloseWindow),
        ),
        Request::NewPage => if is_active(m) {
            (
                with_drawer(
                    m,
                    DrawerModel { scene: empty_scene(), needs_redraw: true, ..m.drawer },
                ),
                Ok(Action::Nothing),
            )
        } else {
            (m, Ok(Action::Nothing))
        },
        Request::SaveAsPng { filename } => (
            m,
            Ok(Action::ExportPng { filename, width: m.width, height: m.height }),
        ),
        Request::PrepareForSaveAsTile { x, y, height } => if m.capture is Some {
            (m, Err(RequestError::CaptureInProgress))
        } else {
            (
                AppModel {
                    capture: Some(
                        CaptureModel { original: m.drawer.scene, transform: m.drawer.transform },
                    ),
                    drawer: DrawerModel {
                        scene: empty_scene(),
                        transform: tile_transform_of(x, y, height),
                        ..m.drawer
                    },
                    ..m
                },
                Ok(Action::Nothing),
            )
        },
        Request::SaveAsTile { width, height, extend } => match m.capture {
            None => (AppModel { stop_rendering: false, ..m }, Err(RequestError::NoCaptureInProgress)),
            Some(c) => {
                let restored = DrawerModel {
                    scene: c.original,
                    transform: c.transform,
                    ..m.drawer
                };
                let tile = PatternModel::Tile { ops: m.drawer.scene.ops, width, height, extend };
                (
                    AppModel {
                        drawer: register_spec(restored, tile),
                        capture: None,
                        stop_rendering: false,
                        ..m
                    },
                    Ok(
                        Action::Respond(
                            Response::PatternRegistered { index: m.drawer.patterns.len() as usize },
                        ),
                    ),
                )
            },
        },
        Request::RegisterGradient { gradient } => (
            with_drawer(m, register_spec(m.drawer, PatternModel::Gradient(gradient))),
            Ok(
                Action::Respond(
                    Response::PatternRegistered { index: m.drawer.patterns.len() as usize },
                ),
            ),
        ),
        Request::ReleasePattern { index } => (
            with_drawer(m, release_spec(m.drawer, index as int)),
            Ok(Action::Nothing),
        ),
        Request::SetBaseColor { color } => (AppModel { base_color: color, ..m }, Ok(Action::Nothing)),
        Request::GetWindowSizes => (
            m,
            Ok(
                Action::Respond(
                    if is_active(m) {
                        Response::WindowSizes { width: m.width, height: m.height }
                    } else {
                        Response::WindowSizes { width: 0, height: 0 }
                    },
                ),
            ),
        ),
        Request::Clip { p0, p1 } => if !is_active(m) {
            (m, Ok(Action::Nothing))
        } else if covers_canvas(m, p0, p1) {
            (with_drawer(m, pop_clip_spec(m.drawer)), Ok(Action::Nothing))
        } else {
            (with_drawer(m, push_clip_spec(m.drawer, p0, p1)), Ok(Action::Nothing))
        },
        _ => if is_active(m) {
            (with_drawer(m, draw_spec(m.drawer, r)), Ok(Action::Nothing))
        } else {
            (m, Ok(Action::Nothing))
        },
    }
}

/// The server after the host resumed it, and what that takes.
pub open spec fn resumed_spec(m: AppModel) -> (AppModel, Action) {
    (m, new_window_action(m))
}

/// The server after the host suspended it: the window is kept, the surface
/// is dropped.
pub open spec fn suspended_spec(m: AppModel) -> (AppModel, Action) {
    if is_active(m) {
        (
            AppModel { state: RenderState::Suspended { cached_window: true }, ..m },
            Action::ReleaseSurface,
        )
    } else {
        (m, Action::Nothing)
    }
}

/// The server once its window exists, `width` by `height` large.
pub open spec fn window_created_spec(m: AppModel, width: u32, height: u32) -> AppModel {
    set_size_spec(AppModel { state: RenderState::Active, ..m }, width, height)
}

/// The server after an event of its window; without a window, events
/// change nothing.
pub open spec fn window_event_spec(m: AppModel, e: WindowEvent) -> (AppModel, Action) {
    if !is_active(m) {
        (m, Action::Nothing)
    } else {
        match e {
            WindowEvent::CloseRequested => (
                AppModel { state: RenderState::Suspended { cached_window: false }, ..m },
                Action::CloseWindow,
            ),
            WindowEvent::Resized { width, height } => (
                set_size_spec(m, width, height),
                Action::ResizeSurface { width, height },
            ),
            WindowEvent::RedrawRequested => (
                m,
                if m.capture is None {
                    Action::Present
                } else {
                    Action::Nothing
                },
            ),
        }
    }
}

/// The server after a frame was presented: the scene is up to date.
pub open spec fn frame_presented_spec(m: AppModel) -> AppModel {
    with_drawer(m, DrawerModel { needs_redraw: false, ..m.drawer })
}

/// The renderer table after device `dev_id` of `n_devices` got one: the
/// table has one slot per device (cut or padded with empty slots), and
/// that device's slot is filled.
pub open spec fn claim_spec(made: Seq<bool>, n_devices: int, dev_id: int) -> Seq<bool> {
    Seq::new(n_devices as nat, |i: int| i == dev_id || (i < made.len() && made[i]))
}

/// Which GPU devices already have a renderer: one is made lazily, on the
/// first surface of each device.
pub struct RendererSlots {
    made: Vec<bool>,
}

impl View for RendererSlots {
    type V = Seq<bool>;

    closed spec fn view(&self) -> Seq<bool> {
        self.made@
    }
}

impl RendererSlots {
    /// No renderer yet.
    pub fn new() -> (s: RendererSlots)
        ensures
            s@ == Seq::<bool>::empty(),
    {
        RendererSlots { made: Vec::new() }
    }

    /// Makes room for `n_devices` devices and claims the slot of `dev_id`;
    /// true when that device had no renderer, so that one must be made.
    pub fn claim(&mut self, n_devices: usize, dev_id: usize) -> (fresh: bool)
        requires
            dev_id < n_devices,
        ensures
            final(self)@ == claim_spec(old(self)@, n_devices as int, dev_id as int),
            fresh == !(dev_id < old(self)@.len() && old(self)@[dev_id as int]),
    {
        let ghost before = self.made@;
        let fresh = !(dev_id < self.made.len() && self.made[dev_id]);
        let mut made: Vec<bool> = Vec::new();
        let mut i: usize = 0;
        while i < n_devices
            invariant
                i <= n_devices,
                dev_id < n_devices,
                self.made@ == before,
                made@ =~= claim_spec(before, n_devices as int, dev_id as int).subrange(0, i as int),
            decreases n_devices - i,
        {
            made.push(i == dev_id || (i < self.made.len() && self.made[i]));
            i = i + 1;
        }
        assert(made@ =~= claim_spec(before, n_devices as int, dev_id as int));
        self.made = made;
        fresh
    }
}

struct Capture {
    original: Scene,
    transform: YTransform,
}

/// The rendering server's state.
pub struct VelloApp {
    state: RenderState,
    drawer: SceneDrawer,
    width: u32,
    height: u32,
    base_color: u32,
    stop_rendering: bool,
    capture: Option<Capture>,
}

impl View for VelloApp {
    type V = AppModel;

    closed spec fn view(&self) -> AppModel {
        AppModel {
            state: self.state,
            drawer: self.drawer@,
            width: self.width,
            height: self.height,
            base_color: self.base_color,
            stop_rendering: self.stop_rendering,
            capture: match self.capture {
                Some(c) => Some(CaptureModel { original: c.original@, transform: c.transform }),
                None => None,
            },
        }
    }
}

impl VelloApp {
    pub closed spec fn wf(&self) -> bool {
        &&& self.drawer.wf()
        &&& (self.capture matches Some(c) ==> c.original.wf())
    }

    /// A server without a window, for a canvas `width` by `height` large,
    /// with the given background colour word.
    pub fn new(width: u32, height: u32, base_color: u32) -> (app: VelloApp)
        ensures
            app.wf(),
            app@.state == (RenderState::Suspended { cached_window: false }),
            app@.drawer.scene == empty_scene(),
            app@.drawer.patterns.len() == 0,
            app@.drawer.transform == canvas_transform(height as int),
            !app@.drawer.needs_redraw,
            app@.width == width,
            app@.height == height,
            app@.base_color == base_color,
            !app@.stop_rendering,
            app@.capture is None,
    {
        VelloApp {
            state: RenderState::Suspended { cached_window: false },
            drawer: SceneDrawer::new(height),
            width,
            height,
            base_color,
            stop_rendering: false,
            capture: None,
        }
    }

    /// The scene drawer.
    pub fn drawer(&self) -> (d: &SceneDrawer)
        ensures
            d@ == self@.drawer,
            self.wf() ==> d.wf(),
    {
        &self.drawer
    }

    /// Whether a window is shown.
    pub fn state(&self) -> (s: RenderState)
        ensures
            s == self@.state,
    {
        self.state
    }

    /// The canvas size in pixels.
    pub fn size(&self) -> (s: (u32, u32))
        ensures
            s == (self@.width, self@.height),
    {
        (self.width, self.height)
    }

    /// The background colour word.
    pub fn base_color(&self) -> (c: u32)
        ensures
            c == self@.base_color,
    {
        self.base_color
    }

    /// The transform that new instructions are recorded with.
    pub fn y_transform(&self) -> (t: YTransform)
        ensures
            t == self@.drawer.transform,
    {
        self.drawer.y_transform()
    }

    /// Records a new canvas size.
    pub fn set_size(&mut self, width: u32, height: u32)
        requires
            old(self).wf(),
        ensures
            final(self).wf(),
            final(self)@ == set_size_spec(old(self)@, width, height),
    {
        self.width = width;
        self.height = height;
        let t = calc_y_translate(height);
        match &mut self.capture {
            Some(c) => {
                c.transform = t;
            },
            None => {
                self.drawer.set_y_transform(t);
            },
        }
    }

    /// Whether the refresh timer should post a redraw request now.
    pub fn refresh_tick(&self) -> (post: bool)
        ensures
            post == presenting(self@),
    {
        !self.stop_rendering && self.capture.is_none()
    }

    /// The host starts (`mode == 1`) or stops drawing.
    pub fn set_drawing_mode(&mut self, mode: i32)
        requires
            old(self).wf(),
        ensures
            final(self).wf(),
            final(self)@ == (AppModel { stop_rendering: mode == 1, ..old(self)@ }),
    {
        self.stop_rendering = mode == 1;
    }

    /// The host resumed the application.
    pub fn resumed(&mut self) -> (a: Action)
        requires
            old(self).wf(),
        ensures
            final(self).wf(),
            final(self)@ == resumed_spec(old(self)@).0,
            a == resumed_spec(old(self)@).1,
    {
        self.create_new_window()
    }

    /// What showing the window takes.
    pub fn create_new_window(&self) -> (a: Action)
        ensures
            a == new_window_action(self@),
    {
        match self.state {
            RenderState::Suspended { cached_window } => Action::CreateWindow {
                reuse_cached: cached_window,
                width: self.width,
                height: self.height,
            },
            RenderState::Active => Action::Nothing,
        }
    }

    /// The host suspended the application.
    pub fn suspended(&mut self) -> (a: Action)
        requires
            old(self).wf(),
        ensures
            final(self).wf(),
            final(self)@ == suspended_spec(old(self)@).0,
            a == suspended_spec(old(self)@).1,
    {
        match self.state {
            RenderState::Active => {
                self.state = RenderState::Suspended { cached_window: true };
                Action::ReleaseSurface
            },
            _ => Action::Nothing,
        }
    }

    /// The window and its surface exist, `width` by `height` large.
    pub fn window_created(&mut self, width: u32, height: u32)
        requires
            old(self).wf(),
        ensures
            final(self).wf(),
            final(self)@ == window_created_spec(old(self)@, width, height),
    {
        self.state = RenderState::Active;
        self.set_size(width, height);
    }

    /// An event of the window.
    pub fn window_event(&mut self, event: WindowEvent) -> (a: Action)
        requires
            old(self).wf(),
        ensures
            final(self).wf(),
            final(self)@ == window_event_spec(old(self)@, event).0,
            a == window_event_spec(old(self)@, event).1,
    {
        if self.state != RenderState::Active {
            return Action::Nothing;
        }
        match event {
            WindowEvent::CloseRequested => {
                self.state = RenderState::Suspended { cached_window: false };
                Action::CloseWindow
            },
            WindowEvent::Resized { width, height } => {
                self.set_size(width, height);
                Action::ResizeSurface { width, height }
            },
            WindowEvent::RedrawRequested => {
                if self.capture.is_none() {
                    Action::Present
                } else {
                    Action::Nothing
                }
            },
        }
    }

    /// A frame of the scene reached the screen.
    pub fn frame_presented(&mut self)
        requires
            old(self).wf(),
        ensures
            final(self).wf(),
            final(self)@ == frame_presented_spec(old(self)@),
    {
        self.drawer.mark_presented();
    }

    /// Handles a request of the client.
    pub fn user_event(&mut self, event: Request) -> (r: Result<Action, RequestError>)
        requires
            old(self).wf(),
        ensures
            final(self).wf(),
            final(self)@ == user_event_spec(old(self)@, event).0,
            r == user_event_spec(old(self)@, event).1,
            old(self)@.state is Suspended && is_draw_request(event) ==> final(self)@ == old(
                self,
            )@ && r == Ok::<Action, RequestError>(Action::Nothing),
    {
        let active = self.state == RenderState::Active;
        match event {
            Request::ConnectionReady => Err(RequestError::UnexpectedHandshake),
            Request::NewWindow => Ok(self.create_new_window()),
            Request::RedrawWindow => {
                if active && self.drawer.needs_redraw() && !self.stop_rendering
                    && self.capture.is_none() {
                    Ok(Action::RequestRedraw)
                } else {
                    Ok(Action::Nothing)
                }
            },
            Request::CloseWindow => {
                self.state = RenderState::Suspended { cached_window: false };
                Ok(Action::CloseWindow)
            },
            Request::NewPage => {
                if active {
                    self.drawer.reset();
                }
                Ok(Action::Nothing)
            },
            Request::SaveAsPng { filename } => Ok(
                Action::ExportPng { filename, width: self.width, height: self.height },
            ),
            Request::PrepareForSaveAsTile { x, y, height } => {
                if self.capture.is_some() {
                    return Err(RequestError::CaptureInProgress);
                }
                let transform = self.drawer.y_transform();
                let original = self.drawer.replace_edited_scene(Scene::new());
                self.drawer.set_y_transform(tile_transform(x, y, height));
                self.capture = Some(Capture { original, transform });
                Ok(Action::Nothing)
            },
            Request::SaveAsTile { width, height, extend } => self.save_as_tile(width, height, extend),
            Request::RegisterGradient { gradient } => {
                let index = self.drawer.register_pattern(Pattern::Gradient(gradient));
                Ok(Action::Respond(Response::PatternRegistered { index }))
            },
            Request::ReleasePattern { index } => {
                self.drawer.release_pattern(index as usize);
                Ok(Action::Nothing)
            },
            Request::SetBaseColor { color } => {
                self.base_color = color;
                Ok(Action::Nothing)
            },
            Request::GetWindowSizes => {
                if active {
                    Ok(
                        Action::Respond(
                            Response::WindowSizes { width: self.width, height: self.height },
                        ),
                    )
                } else {
                    Ok(Action::Respond(Response::WindowSizes { width: 0, height: 0 }))
                }
            },
            Request::Clip { p0, p1 } => {
                if active {
                    self.clip(p0, p1);
                }
                Ok(Action::Nothing)
            },
            Request::DrawCircle { center, radius, fill_params, stroke_params } => {
                if active {
                    self.drawer.draw_circle(center, radius, fill_params, stroke_params);
                }
                Ok(Action::Nothing)
            },
            Request::DrawLine { p0, p1, stroke_params } => {
                if active {
                    self.drawer.draw_line(p0, p1, stroke_params);
                }
                Ok(Action::Nothing)
            },
            Request::DrawPolyline { path, stroke_params } => {
                if active {
                    self.drawer.draw_polyline(path, stroke_params);
                }
                Ok(Action::Nothing)
            },
            Request::DrawPolygon { path, fill_params, stroke_params } => {
                if active {
                    self.drawer.draw_polygon(path, fill_params, stroke_params);
                }
                Ok(Action::Nothing)
            },
            Request::DrawRect { p0, p1, fill_params, stroke_params } => {
                if active {
                    self.drawer.draw_rect(p0, p1, fill_params, stroke_params);
                }
                Ok(Action::Nothing)
            },
            Request::DrawText { pos, text, color, size, lineheight, family, face, angle, hadj } => {
                if active {
                    let op = DrawOp::Text {
                        pos,
                        transform: self.drawer.y_transform(),
                        text,
                        color,
                        size,
                        lineheight,
                        family,
                        face,
                        angle,
                        hadj,
                    };
                    self.drawer.draw_text(op);
                }
                Ok(Action::Nothing)
            },
        }
    }

    /// A clip request: a rectangle that covers the canvas closes the
    /// innermost clip, any other opens one.
    fn clip(&mut self, p0: Point, p1: Point)
        requires
            old(self).wf(),
        ensures
            final(self).wf(),
            final(self)@ == with_drawer(
                old(self)@,
                if covers_canvas(old(self)@, p0, p1) {
                    pop_clip_spec(old(self)@.drawer)
                } else {
                    push_clip_spec(old(self)@.drawer, p0, p1)
                },
            ),
    {
        let w = self.width as i64 * ONE as i64;
        let h = self.height as i64 * ONE as i64;
        if p0.x <= 0 && p0.y <= 0 && p1.x as i64 >= w && p1.y as i64 >= h {
            self.drawer.pop_clip();
        } else {
            self.drawer.push_clip(p0, p1);
        }
    }

    /// Ends a tile capture: the live scene and transform come back, the
    /// captured scene becomes a pattern, and presentation resumes.
    fn save_as_tile(&mut self, width: i32, height: i32, extend: Extend) -> (r: Result<
        Action,
        RequestError,
    >)
        requires
            old(self).wf(),
        ensures
            final(self).wf(),
            final(self)@ == user_event_spec(
                old(self)@,
                Request::SaveAsTile { width, height, extend },
            ).0,
            r == user_event_spec(old(self)@, Request::SaveAsTile { width, height, extend }).1,
    {
        let mut capture: Option<Capture> = None;
        std::mem::swap(&mut self.capture, &mut capture);
        self.stop_rendering = false;
        match capture {
            None => Err(RequestError::NoCaptureInProgress),
            Some(c) => {
                let tile = self.drawer.replace_edited_scene(c.original);
                self.drawer.set_y_transform(c.transform);
                let index = self.drawer.register_pattern(
                    Pattern::Tile { scene: tile, width, height, extend },
                );
                Ok(Action::Respond(Response::PatternRegistered { index }))
            },
        }
    }
}

} // verus!
