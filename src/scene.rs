//! The scene accumulator: the draw instructions of the current page, the
//! clip stack, the pattern registry and the redraw flag.
//!
//! Instructions keep their shapes in the host's coordinates together with
//! the transform that was current when they were drawn; whoever replays
//! them applies the transform to placement only.
use crate::color::Rgba;
use crate::geometry::{calc_y_translate, canvas_transform, PathEl, Point, YTransform};
use crate::protocol::{Extend, FillBrush, FillParams, Gradient, GlyphParams, StrokeParams};
use crate::raster::Image;
use vstd::prelude::*;

verus! {

/// Which points a fill covers.
#[derive(Clone, Copy, Debug, PartialEq, Eq, Structural)]
pub enum FillRule {
    NonZero,
    EvenOdd,
}

/// What a recorded fill paints with.
#[derive(Clone, Copy, Debug, PartialEq, Eq, Structural)]
pub enum Brush {
    Solid(Rgba),
    /// The registered pattern with this index.
    Pattern(usize),
}

/// A resolved fill.
#[derive(Clone, Copy, Debug, PartialEq, Eq, Structural)]
pub struct Fill {
    pub brush: Brush,
    pub rule: FillRule,
}

/// The geometry of a primitive.
#[derive(Debug)]
pub enum Shape {
    Circle { center: Point, radius: i32 },
    Line { p0: Point, p1: Point },
    Rect { p0: Point, p1: Point },
    Path(Vec<PathEl>),
}

/// One recorded draw instruction.
#[derive(Debug)]
pub enum DrawOp {
    /// A shape, filled first and then stroked.
    Draw { shape: Shape, transform: YTransform, fill: Option<Fill>, stroke: Option<StrokeParams> },
    /// A text run to be laid out at `pos`.
    Text {
        pos: Point,
        transform: YTransform,
        text: String,
        color: Rgba,
        size: i32,
        lineheight: i32,
        family: String,
        face: i32,
        angle: i32,
        hadj: i32,
    },
    /// Glyphs placed by the host: a glyph id and its position each.
    Glyphs { glyphs: Vec<(u32, Point)>, params: GlyphParams, transform: YTransform },
    /// A raster image whose bottom-left corner is at `pos`, `width` by
    /// `height` large on the canvas.
    Image {
        image: Image,
        pos: Point,
        width: i32,
        height: i32,
        angle: i32,
        transform: YTransform,
    },
    /// Starts clipping to a rectangle.
    PushClip { p0: Point, p1: Point, transform: YTransform },
    /// Ends the innermost clip.
    PopClip,
}

/// The instructions of a scene and how many clips are open in it.
pub struct SceneModel {
    pub ops: Seq<DrawOp>,
    pub clip_depth: nat,
}

/// The empty scene.
pub open spec fn empty_scene() -> SceneModel {
    SceneModel { ops: Seq::empty(), clip_depth: 0 }
}

/// A scene: draw instructions in order, with the number of open clips.
pub struct Scene {
    ops: Vec<DrawOp>,
    clip_depth: usize,
}

impl View for Scene {
    type V = SceneModel;

    closed spec fn view(&self) -> SceneModel {
        SceneModel { ops: self.ops@, clip_depth: self.clip_depth as nat }
    }
}

impl Scene {
    /// Every open clip was pushed by an instruction of the scene.
    pub closed spec fn wf(&self) -> bool {
        self.clip_depth <= self.ops.len()
    }

    /// The empty scene.
    pub fn new() -> (s: Scene)
        ensures
            s.wf(),
            s@ == empty_scene(),
    {
        let s = Scene { ops: Vec::new(), clip_depth: 0 };
        assert(s@.ops =~= Seq::empty());
        s
    }

    /// The instructions, in the order they were drawn.
    pub fn ops(&self) -> (r: &Vec<DrawOp>)
        ensures
            r@ == self@.ops,
    {
        &self.ops
    }

    /// The number of open clips.
    pub fn clip_depth(&self) -> (r: usize)
        ensures
            r == self@.clip_depth,
    {
        self.clip_depth
    }

    fn push(&mut self, op: DrawOp)
        requires
            old(self).wf(),
        ensures
            final(self).wf(),
            final(self)@.ops == old(self)@.ops.push(op),
            final(self)@.clip_depth == old(self)@.clip_depth,
    {
        self.ops.push(op);
    }
}

/// What the registry holds at an index.
pub enum PatternModel {
    Gradient(Gradient),
    Tile { ops: Seq<DrawOp>, width: i32, height: i32, extend: Extend },
}

/// A registered fill pattern.
pub enum Pattern {
    Gradient(Gradient),
    /// A captured scene, `width` by `height` large, repeated as `extend` says.
    Tile { scene: Scene, width: i32, height: i32, extend: Extend },
}

impl View for Pattern {
    type V = PatternModel;

    open spec fn view(&self) -> PatternModel {
        match self {
            Pattern::Gradient(g) => PatternModel::Gradient(*g),
            Pattern::Tile { scene, width, height, extend } => PatternModel::Tile {
                ops: scene@.ops,
                width: *width,
                height: *height,
                extend: *extend,
            },
        }
    }
}

/// The state of a scene drawer.
pub struct DrawerModel {
    pub scene: SceneModel,
    pub patterns: Seq<PatternModel>,
    pub released: Seq<bool>,
    pub transform: YTransform,
    pub needs_redraw: bool,
}

/// Whether `index` names a registered pattern that was not released.
pub open spec fn live_pattern(m: DrawerModel, index: int) -> bool {
    0 <= index < m.patterns.len() && !m.released[index]
}

/// The recorded fill of the given parameters: a colour as it is; a pattern
/// reference as that pattern while it is live, and nothing once it is
/// stale. `nonzero_only` forces the non-zero rule.
pub open spec fn resolve_fill(m: DrawerModel, f: Option<FillParams>, nonzero_only: bool) -> Option<
    Fill,
> {
    match f {
        None => None,
        Some(p) => {
            let rule = if nonzero_only || p.use_nonzero_rule {
                FillRule::NonZero
            } else {
                FillRule::EvenOdd
            };
            match p.brush {
                FillBrush::Color(c) => Some(Fill { brush: Brush::Solid(c), rule }),
                FillBrush::PatternRef(i) => if live_pattern(m, i as int) {
                    Some(Fill { brush: Brush::Pattern(i as usize), rule })
                } else {
                    None
                },
            }
        },
    }
}

/// The drawer after recording `op`.
pub open spec fn with_op(m: DrawerModel, op: DrawOp) -> DrawerModel {
    DrawerModel { scene: SceneModel { ops: m.scene.ops.push(op), ..m.scene }, ..m }
}

/// The drawer after a primitive with this fill and stroke: the shape is
/// recorded when it has any paint left, and the redraw flag is set.
pub open spec fn paint_spec(
    m: DrawerModel,
    shape: Shape,
    fill: Option<Fill>,
    stroke: Option<StrokeParams>,
) -> DrawerModel {
    let m2 = if fill is None && stroke is None {
        m
    } else {
        with_op(m, DrawOp::Draw { shape, transform: m.transform, fill, stroke })
    };
    DrawerModel { needs_redraw: true, ..m2 }
}

/// The drawer after a clip of `p0`..`p1` is pushed.
pub open spec fn push_clip_spec(m: DrawerModel, p0: Point, p1: Point) -> DrawerModel {
    DrawerModel {
        scene: SceneModel {
            ops: m.scene.ops.push(DrawOp::PushClip { p0, p1, transform: m.transform }),
            clip_depth: m.scene.clip_depth + 1,
        },
        ..m
    }
}

/// The drawer after the innermost clip is popped; without an open clip
/// nothing changes.
pub open spec fn pop_clip_spec(m: DrawerModel) -> DrawerModel {
    if m.scene.clip_depth == 0 {
        m
    } else {
        DrawerModel {
            scene: SceneModel {
                ops: m.scene.ops.push(DrawOp::PopClip),
                clip_depth: (m.scene.clip_depth - 1) as nat,
            },
            ..m
        }
    }
}

/// The drawer after `p` is registered: it takes the next index.
pub open spec fn register_spec(m: DrawerModel, p: PatternModel) -> DrawerModel {
    DrawerModel { patterns: m.patterns.push(p), released: m.released.push(false), ..m }
}

/// The drawer after the pattern at `index` is released. Indices are never
/// reused: the slot stays, marked released, so that instructions already
/// recorded can still be replayed.
pub open spec fn release_spec(m: DrawerModel, index: int) -> DrawerModel {
    if 0 <= index < m.patterns.len() {
        DrawerModel { released: m.released.update(index, true), ..m }
    } else {
        m
    }
}

/// The scene drawer: the live scene, the registry and the current transform.
pub struct SceneDrawer {
    scene: Scene,
    patterns: Vec<Pattern>,
    released: Vec<bool>,
    transform: YTransform,
    needs_redraw: bool,
}

impl View for SceneDrawer {
    type V = DrawerModel;

    closed spec fn view(&self) -> DrawerModel {
        DrawerModel {
            scene: self.scene@,
            patterns: self.patterns@.map_values(|p: Pattern| p@),
            released: self.released@,
            transform: self.transform,
            needs_redraw: self.needs_redraw,
        }
    }
}

impl SceneDrawer {
    pub closed spec fn wf(&self) -> bool {
        &&& self.scene.wf()
        &&& self.patterns.len() == self.released.len()
    }

    /// An empty drawer for a canvas `height` pixels high.
    pub fn new(height: u32) -> (d: SceneDrawer)
        ensures
            d.wf(),
            d@.scene == empty_scene(),
            d@.patterns == Seq::<PatternModel>::empty(),
            d@.released == Seq::<bool>::empty(),
            d@.transform == canvas_transform(height as int),
            !d@.needs_redraw,
    {
        let d = SceneDrawer {
            scene: Scene::new(),
            patterns: Vec::new(),
            released: Vec::new(),
            transform: calc_y_translate(height),
            needs_redraw: false,
        };
        assert(d@.patterns =~= Seq::<PatternModel>::empty());
        assert(d@.released =~= Seq::<bool>::empty());
        d
    }

    /// The live scene.
    pub fn scene(&self) -> (s: &Scene)
        ensures
            s@ == self@.scene,
            self.wf() ==> s.wf(),
    {
        &self.scene
    }

    /// The registered patterns.
    pub fn patterns(&self) -> (p: &Vec<Pattern>)
        ensures
            p@.map_values(|p: Pattern| p@) == self@.patterns,
    {
        &self.patterns
    }

    /// Whether the scene has changed since it was last presented.
    pub fn needs_redraw(&self) -> (r: bool)
        ensures
            r == self@.needs_redraw,
    {
        self.needs_redraw
    }

    /// The transform that new instructions are recorded with.
    pub fn y_transform(&self) -> (t: YTransform)
        ensures
            t == self@.transform,
    {
        self.transform
    }

    /// Replaces the current transform.
    pub fn set_y_transform(&mut self, t: YTransform)
        requires
            old(self).wf(),
        ensures
            final(self).wf(),
            final(self)@ == (DrawerModel { transform: t, ..old(self)@ }),
    {
        self.transform = t;
    }

    /// Records that the scene was presented.
    pub fn mark_presented(&mut self)
        requires
            old(self).wf(),
        ensures
            final(self).wf(),
            final(self)@ == (DrawerModel { needs_redraw: false, ..old(self)@ }),
    {
        self.needs_redraw = false;
    }

    /// Empties the scene for a new page; the redraw flag is set so that the
    /// blank page gets presented.
    pub fn reset(&mut self)
        requires
            old(self).wf(),
        ensures
            final(self).wf(),
            final(self)@ == (DrawerModel {
                scene: empty_scene(),
                needs_redraw: true,
                ..old(self)@
            }),
    {
        self.scene = Scene::new();
        self.needs_redraw = true;
    }

    /// Puts `scene` in place of the live scene and hands the live one back.
    pub fn replace_edited_scene(&mut self, scene: Scene) -> (prev: Scene)
        requires
            old(self).wf(),
            scene.wf(),
        ensures
            final(self).wf(),
            prev.wf(),
            prev@ == old(self)@.scene,
            final(self)@ == (DrawerModel { scene: scene@, ..old(self)@ }),
    {
        let mut prev = scene;
        std::mem::swap(&mut self.scene, &mut prev);
        prev
    }

    fn resolve(&self, f: Option<FillParams>, nonzero_only: bool) -> (r: Option<Fill>)
        requires
            self.wf(),
        ensures
            r == resolve_fill(self@, f, nonzero_only),
    {
        match f {
            None => None,
            Some(p) => {
                let rule = if nonzero_only || p.use_nonzero_rule {
                    FillRule::NonZero
                } else {
                    FillRule::EvenOdd
                };
                match p.brush {
                    FillBrush::Color(c) => Some(Fill { brush: Brush::Solid(c), rule }),
                    FillBrush::PatternRef(i) => {
                        let i = i as usize;
                        if i < self.released.len() && !self.released[i] {
                            Some(Fill { brush: Brush::Pattern(i), rule })
                        } else {
                            None
                        }
                    },
                }
            },
        }
    }

    fn paint(&mut self, shape: Shape, fill: Option<Fill>, stroke: Option<StrokeParams>)
        requires
            old(self).wf(),
        ensures
            final(self).wf(),
            final(self)@ == paint_spec(old(self)@, shape, fill, stroke),
    {
        if fill.is_some() || stroke.is_some() {
            let op = DrawOp::Draw { shape, transform: self.transform, fill, stroke };
            self.scene.push(op);
        }
        self.needs_redraw = true;
    }

    /// Draws a circle; a fill always uses the non-zero rule.
    pub fn draw_circle(
        &mut self,
        center: Point,
        radius: i32,
        fill_params: Option<FillParams>,
        stroke_params: Option<StrokeParams>,
    )
        requires
            old(self).wf(),
        ensures
            final(self).wf(),
            final(self)@ == paint_spec(
                old(self)@,
                Shape::Circle { center, radius },
                resolve_fill(old(self)@, fill_params, true),
                stroke_params,
            ),
    {
        let fill = self.resolve(fill_params, true);
        self.paint(Shape::Circle { center, radius }, fill, stroke_params);
    }

    /// Draws a line segment.
    pub fn draw_line(&mut self, p0: Point, p1: Point, stroke_params: StrokeParams)
        requires
            old(self).wf(),
        ensures
            final(self).wf(),
            final(self)@ == paint_spec(
                old(self)@,
                Shape::Line { p0, p1 },
                None,
                Some(stroke_params),
            ),
    {
        self.paint(Shape::Line { p0, p1 }, None, Some(stroke_params));
    }

    /// Strokes an open path.
    pub fn draw_polyline(&mut self, path: Vec<PathEl>, stroke_params: StrokeParams)
        requires
            old(self).wf(),
        ensures
            final(self).wf(),
            final(self)@ == paint_spec(old(self)@, Shape::Path(path), None, Some(stroke_params)),
    {
        self.paint(Shape::Path(path), None, Some(stroke_params));
    }

    /// Fills and strokes a path; the fill follows its own rule.
    pub fn draw_polygon(
        &mut self,
        path: Vec<PathEl>,
        fill_params: Option<FillParams>,
        stroke_params: Option<StrokeParams>,
    )
        requires
            old(self).wf(),
        ensures
            final(self).wf(),
            final(self)@ == paint_spec(
                old(self)@,
                Shape::Path(path),
                resolve_fill(old(self)@, fill_params, false),
                stroke_params,
            ),
    {
        let fill = self.resolve(fill_params, false);
        self.paint(Shape::Path(path), fill, stroke_params);
    }

    /// Draws the rectangle with corners `p0` and `p1`; a fill always uses
    /// the non-zero rule.
    pub fn draw_rect(
        &mut self,
        p0: Point,
        p1: Point,
        fill_params: Option<FillParams>,
        stroke_params: Option<StrokeParams>,
    )
        requires
            old(self).wf(),
        ensures
            final(self).wf(),
            final(self)@ == paint_spec(
                old(self)@,
                Shape::Rect { p0, p1 },
                resolve_fill(old(self)@, fill_params, true),
                stroke_params,
            ),
    {
        let fill = self.resolve(fill_params, true);
        self.paint(Shape::Rect { p0, p1 }, fill, stroke_params);
    }

    /// Records a text run; the layout happens when the scene is replayed.
    pub fn draw_text(&mut self, op: DrawOp)
        requires
            old(self).wf(),
            op is Text,
            op->Text_transform == old(self)@.transform,
        ensures
            final(self).wf(),
            final(self)@ == (DrawerModel { needs_redraw: true, ..with_op(old(self)@, op) }),
    {
        self.scene.push(op);
        self.needs_redraw = true;
    }

    /// Draws glyphs that the host placed: the `i`-th glyph id at
    /// `(x[i], y[i])`, as far as all three lists reach.
    pub fn draw_glyph_raw(&mut self, glyph_ids: &[u32], x: &[i32], y: &[i32], params: GlyphParams)
        requires
            old(self).wf(),
        ensures
            final(self).wf(),
            final(self)@ == (DrawerModel {
                needs_redraw: true,
                ..with_op(old(self)@, final(self)@.scene.ops.last())
            }),
            final(self)@.scene.ops.last() matches DrawOp::Glyphs { glyphs, params: gp, transform: t }
                && glyphs@ == placed_glyphs(glyph_ids@, x@, y@) && gp == params && t == old(
                self,
            )@.transform,
    {
        let mut n = glyph_ids.len();
        if x.len() < n {
            n = x.len();
        }
        if y.len() < n {
            n = y.len();
        }
        let mut glyphs: Vec<(u32, Point)> = Vec::new();
        let mut i: usize = 0;
        while i < n
            invariant
                i <= n,
                n <= glyph_ids.len(),
                n <= x.len(),
                n <= y.len(),
                n == placed_glyphs(glyph_ids@, x@, y@).len(),
                glyphs@ =~= placed_glyphs(glyph_ids@, x@, y@).subrange(0, i as int),
            decreases n - i,
        {
            glyphs.push((glyph_ids[i], Point { x: x[i], y: y[i] }));
            i = i + 1;
        }
        assert(glyphs@ =~= placed_glyphs(glyph_ids@, x@, y@));
        let op = DrawOp::Glyphs { glyphs, params, transform: self.transform };
        self.scene.push(op);
        self.needs_redraw = true;
    }

    /// Draws a raster image whose bottom-left corner is at `pos`, `width`
    /// by `height` large on the canvas, turned by `angle`.
    pub fn draw_raster(
        &mut self,
        image: Image,
        pos: Point,
        width: i32,
        height: i32,
        angle: i32,
    )
        requires
            old(self).wf(),
        ensures
            final(self).wf(),
            final(self)@ == (DrawerModel {
                needs_redraw: true,
                ..with_op(
                    old(self)@,
                    DrawOp::Image {
                        image,
                        pos,
                        width,
                        height,
                        angle,
                        transform: old(self)@.transform,
                    },
                )
            }),
    {
        let op = DrawOp::Image { image, pos, width, height, angle, transform: self.transform };
        self.scene.push(op);
        self.needs_redraw = true;
    }

    /// Opens a clip to the rectangle with corners `p0` and `p1`.
    pub fn push_clip(&mut self, p0: Point, p1: Point)
        requires
            old(self).wf(),
        ensures
            final(self).wf(),
            final(self)@ == push_clip_spec(old(self)@, p0, p1),
    {
        let op = DrawOp::PushClip { p0, p1, transform: self.transform };
        self.scene.ops.push(op);
        let len = self.scene.ops.len();
        assert(self.scene.clip_depth < len);
        self.scene.clip_depth = self.scene.clip_depth + 1;
    }

    /// Closes the innermost clip, if one is open.
    pub fn pop_clip(&mut self)
        requires
            old(self).wf(),
        ensures
            final(self).wf(),
            final(self)@ == pop_clip_spec(old(self)@),
    {
        if self.scene.clip_depth > 0 {
            self.scene.ops.push(DrawOp::PopClip);
            self.scene.clip_depth = self.scene.clip_depth - 1;
        }
    }

    /// Registers a pattern and returns its index.
    pub fn register_pattern(&mut self, pattern: Pattern) -> (index: usize)
        requires
            old(self).wf(),
        ensures
            final(self).wf(),
            index == old(self)@.patterns.len(),
            final(self)@ == register_spec(old(self)@, pattern@),
    {
        let index = self.patterns.len();
        let ghost p = pattern@;
        self.patterns.push(pattern);
        self.released.push(false);
        assert(self@.patterns =~= old(self)@.patterns.push(p));
        index
    }

    /// Releases the pattern at `index`; an unknown index is ignored.
    pub fn release_pattern(&mut self, index: usize)
        requires
            old(self).wf(),
        ensures
            final(self).wf(),
            final(self)@ == release_spec(old(self)@, index as int),
    {
        if index < self.released.len() {
            self.released.set(index, true);
        }
    }
}

/// The glyphs that the host placed: id `ids[i]` at `(x[i], y[i])`, as far
/// as all three lists reach.
pub open spec fn placed_glyphs(ids: Seq<u32>, x: Seq<i32>, y: Seq<i32>) -> Seq<(u32, Point)> {
    let n = if ids.len() <= x.len() && ids.len() <= y.len() {
        ids.len()
    } else if x.len() <= y.len() {
        x.len()
    } else {
        y.len()
    };
    Seq::new(n, |i: int| (ids[i], Point { x: x[i], y: y[i] }))
}

} // verus!
