//! The request and response messages between the drawing client and the
//! rendering server, the paint parameters they carry, and their derivation
//! from R's graphics context.
use crate::color::{packed_rgba, Rgba};
use crate::geometry::{PathEl, Point};
use vstd::prelude::*;

verus! {

/// What a fill paints with.
#[derive(Clone, Copy, Debug, PartialEq, Eq, Structural)]
pub enum FillBrush {
    /// A plain colour.
    Color(Rgba),
    /// The registered pattern with this index.
    PatternRef(u32),
}

/// How to fill a shape.
#[derive(Clone, Copy, Debug, PartialEq, Eq, Structural)]
pub struct FillParams {
    pub brush: FillBrush,
    /// Non-zero winding rule when true, even-odd rule otherwise.
    pub use_nonzero_rule: bool,
}

/// How two stroke segments meet.
#[derive(Clone, Copy, Debug, PartialEq, Eq, Structural)]
pub enum Join {
    Round,
    Miter,
    Bevel,
}

/// How a stroke ends.
#[derive(Clone, Copy, Debug, PartialEq, Eq, Structural)]
pub enum Cap {
    Round,
    Butt,
    Square,
}

/// How to stroke a shape. Lengths are fixed-point pixels.
#[derive(Clone, Debug)]
pub struct StrokeParams {
    pub color: Rgba,
    pub width: i32,
    pub join: Join,
    pub cap: Cap,
    pub miter_limit: i32,
    /// Alternating on and off run lengths; empty for a solid line.
    pub dash_pattern: Vec<i64>,
    pub dash_offset: i64,
}

/// How a pattern continues past its own area.
#[derive(Clone, Copy, Debug, PartialEq, Eq, Structural)]
pub enum Extend {
    Pad,
    Repeat,
    Reflect,
}

/// One colour of a gradient; `offset` is a fixed-point fraction.
#[derive(Clone, Copy, Debug, PartialEq, Eq, Structural)]
pub struct ColorStop {
    pub offset: i32,
    pub color: Rgba,
}

/// The geometry of a gradient.
#[derive(Clone, Copy, Debug, PartialEq, Eq, Structural)]
pub enum GradientKind {
    Linear { start: Point, end: Point },
    Radial { start_center: Point, start_radius: i32, end_center: Point, end_radius: i32 },
}

/// A gradient definition, computed by the client and registered with the
/// server.
#[derive(Clone, Debug)]
pub struct Gradient {
    pub kind: GradientKind,
    pub extend: Extend,
    pub stops: Vec<ColorStop>,
}

/// The slant of a font.
#[derive(Clone, Copy, Debug, PartialEq, Eq, Structural)]
pub enum FontStyle {
    Normal,
    Italic,
    Oblique,
}

/// The weight of a normal font.
pub const WEIGHT_NORMAL: u32 = 400;

/// The weight of a bold font.
pub const WEIGHT_BOLD: u32 = 700;

/// The weight and the slant of R's font face code: 1 plain, 2 bold,
/// 3 italic, 4 bold italic; any other code (symbol, unknown) is plain.
pub open spec fn face_spec(fontface: i32) -> (u32, FontStyle) {
    if fontface == 2 {
        (WEIGHT_BOLD, FontStyle::Normal)
    } else if fontface == 3 {
        (WEIGHT_NORMAL, FontStyle::Italic)
    } else if fontface == 4 {
        (WEIGHT_BOLD, FontStyle::Italic)
    } else {
        (WEIGHT_NORMAL, FontStyle::Normal)
    }
}

/// The weight and the slant that R's font face code asks for.
pub fn fontface_to_weight_and_style(fontface: i32) -> (r: (u32, FontStyle))
    ensures
        r == face_spec(fontface),
{
    match fontface {
        1 => (WEIGHT_NORMAL, FontStyle::Normal),
        2 => (WEIGHT_BOLD, FontStyle::Normal),
        3 => (WEIGHT_NORMAL, FontStyle::Italic),
        4 => (WEIGHT_BOLD, FontStyle::Italic),
        _ => (WEIGHT_NORMAL, FontStyle::Normal),
    }
}

/// A run of glyphs positioned by the host, with the font file they come from.
#[derive(Clone, Debug)]
pub struct GlyphParams {
    pub fontfile: String,
    pub index: u32,
    pub family: String,
    pub weight_raw: i32,
    pub style_raw: u32,
    pub angle: i32,
    pub size: i32,
    pub color: Rgba,
}

impl GlyphParams {
    /// The slant of R's style code: 2 italic, 3 oblique, anything else normal.
    pub fn style(&self) -> (s: FontStyle)
        ensures
            s == (if self.style_raw == 2 {
                FontStyle::Italic
            } else if self.style_raw == 3 {
                FontStyle::Oblique
            } else {
                FontStyle::Normal
            }),
    {
        match self.style_raw {
            2 => FontStyle::Italic,
            3 => FontStyle::Oblique,
            _ => FontStyle::Normal,
        }
    }
}

/// A message from the drawing client to the rendering server.
#[derive(Clone, Debug)]
pub enum Request {
    ConnectionReady,
    NewWindow,
    RedrawWindow,
    CloseWindow,
    NewPage,
    SaveAsPng { filename: String },
    /// Starts capturing a tile whose bottom-left corner is `(x, y)`.
    PrepareForSaveAsTile { x: i32, y: i32, height: i32 },
    /// Ends the capture and registers the tile as a pattern.
    SaveAsTile { width: i32, height: i32, extend: Extend },
    RegisterGradient { gradient: Gradient },
    ReleasePattern { index: u32 },
    SetBaseColor { color: u32 },
    GetWindowSizes,
    /// Clips to a rectangle; one that covers the canvas ends the last clip.
    Clip { p0: Point, p1: Point },
    DrawCircle {
        center: Point,
        radius: i32,
        fill_params: Option<FillParams>,
        stroke_params: Option<StrokeParams>,
    },
    DrawLine { p0: Point, p1: Point, stroke_params: StrokeParams },
    DrawPolyline { path: Vec<PathEl>, stroke_params: StrokeParams },
    DrawPolygon {
        path: Vec<PathEl>,
        fill_params: Option<FillParams>,
        stroke_params: Option<StrokeParams>,
    },
    DrawRect {
        p0: Point,
        p1: Point,
        fill_params: Option<FillParams>,
        stroke_params: Option<StrokeParams>,
    },
    DrawText {
        pos: Point,
        text: String,
        color: Rgba,
        size: i32,
        lineheight: i32,
        family: String,
        face: i32,
        angle: i32,
        hadj: i32,
    },
}

/// Whether the request draws on the scene.
pub open spec fn is_draw_request(r: Request) -> bool {
    ||| r is DrawCircle
    ||| r is DrawLine
    ||| r is DrawPolyline
    ||| r is DrawPolygon
    ||| r is DrawRect
    ||| r is DrawText
}

/// A reply of the rendering server.
#[derive(Clone, Debug)]
pub enum Response {
    WindowSizes { width: u32, height: u32 },
    Connect { server_name: String },
    PatternRegistered { index: usize },
}

/// Whatever carries responses back to the client.
pub trait AppResponseRelay {
    fn respond(&self, response: Response);
}

/// A broken connection handshake.
#[derive(Clone, Copy, Debug, PartialEq, Eq, Structural)]
pub enum HandshakeError {
    /// The server's first message was not its address.
    ExpectedConnect,
    /// The client's first message was not `ConnectionReady`.
    ExpectedConnectionReady,
}

/// The server side of the handshake: the first request must acknowledge
/// the connection.
pub fn accept_connection_ready(first: &Request) -> (r: Result<(), HandshakeError>)
    ensures
        r is Ok <==> first is ConnectionReady,
        r is Err ==> r->Err_0 == HandshakeError::ExpectedConnectionReady,
{
    match first {
        Request::ConnectionReady => Ok(()),
        _ => Err(HandshakeError::ExpectedConnectionReady),
    }
}

/// The client side of the handshake: the first response must carry the
/// server's inbound address.
pub fn server_name_of(first: Response) -> (r: Result<String, HandshakeError>)
    ensures
        r is Ok <==> first is Connect,
        r is Ok ==> r->Ok_0 == first->server_name,
        r is Err ==> r->Err_0 == HandshakeError::ExpectedConnect,
{
    match first {
        Response::Connect { server_name } => Ok(server_name),
        _ => Err(HandshakeError::ExpectedConnect),
    }
}

/// A reply that does not answer the request it was waited for.
#[derive(Clone, Copy, Debug, PartialEq, Eq, Structural)]
pub struct UnexpectedResponse;

/// The client side of the size query: the reply must be the window sizes.
pub fn window_sizes_of(reply: Response) -> (r: Result<(u32, u32), UnexpectedResponse>)
    ensures
        r is Ok <==> reply is WindowSizes,
        r is Ok ==> r->Ok_0 == (reply->WindowSizes_width, reply->WindowSizes_height),
{
    match reply {
        Response::WindowSizes { width, height } => Ok((width, height)),
        _ => Err(UnexpectedResponse),
    }
}

/// The client side of a pattern registration: the reply must carry the
/// pattern's index.
pub fn pattern_index_of(reply: Response) -> (r: Result<usize, UnexpectedResponse>)
    ensures
        r is Ok <==> reply is PatternRegistered,
        r is Ok ==> r->Ok_0 == reply->PatternRegistered_index,
{
    match reply {
        Response::PatternRegistered { index } => Ok(index),
        _ => Err(UnexpectedResponse),
    }
}

/// R's line join code: 1 round, 2 mitre, 3 bevel.
pub open spec fn join_of(code: i32) -> Join {
    if code == 1 {
        Join::Round
    } else if code == 2 {
        Join::Miter
    } else {
        Join::Bevel
    }
}

/// R's line end code: 1 round, 2 butt, 3 square.
pub open spec fn cap_of(code: i32) -> Cap {
    if code == 1 {
        Cap::Round
    } else if code == 2 {
        Cap::Butt
    } else {
        Cap::Square
    }
}

/// The dash runs that R's line type word encodes, read from its lowest
/// byte up over `n` bytes: in each byte the low nibble is a dash and the
/// high nibble the gap after it, both in line widths; a zero dash ends the
/// pattern.
pub open spec fn dashes(rest: int, width: int, n: nat) -> Seq<i64>
    decreases n,
{
    if n == 0 || (rest % 0x100) % 0x10 == 0 {
        Seq::empty()
    } else {
        seq![((rest % 0x100) % 0x10 * width) as i64, ((rest % 0x100) / 0x10 * width) as i64]
            + dashes(rest / 0x100, width, (n - 1) as nat)
    }
}

/// The 32-bit word whose two's-complement reading is `v`.
pub open spec fn unsigned_word(v: i32) -> int {
    if v < 0 {
        v + 0x1_0000_0000
    } else {
        v as int
    }
}

/// The dash pattern of R's line type for lines `width` wide: blank (-1)
/// and solid (0) lines have none.
pub open spec fn dash_pattern_of(lty: i32, width: int) -> Seq<i64> {
    if lty == -1 {
        Seq::empty()
    } else {
        dashes(unsigned_word(lty), width, 4)
    }
}

fn dash_pattern(lty: i32, width: i32) -> (d: Vec<i64>)
    ensures
        d@ == dash_pattern_of(lty, width as int),
{
    let mut d: Vec<i64> = Vec::new();
    if lty == -1 {
        return d;
    }
    let ghost w = unsigned_word(lty);
    let mut rest: u32 = if lty < 0 {
        (lty as i64 + 0x1_0000_0000) as u32
    } else {
        lty as u32
    };
    assert(rest as int == w);
    let mut n: usize = 4;
    while n > 0
        invariant
            n <= 4,
            lty != -1,
            w == unsigned_word(lty),
            d@ + dashes(rest as int, width as int, n as nat) == dashes(w, width as int, 4),
        decreases n,
    {
        let byte = rest % 0x100;
        let dash = byte % 0x10;
        let gap = byte / 0x10;
        if dash == 0 {
            assert(dashes(rest as int, width as int, n as nat) =~= Seq::empty());
            assert(d@ + dashes(rest as int, width as int, n as nat) =~= d@);
            return d;
        }
        let ghost before = d@;
        assert(-15 * 0x8000_0000 <= dash as int * width as int <= 15 * 0x8000_0000)
            by (nonlinear_arith)
            requires
                dash < 16,
        ;
        assert(-15 * 0x8000_0000 <= gap as int * width as int <= 15 * 0x8000_0000)
            by (nonlinear_arith)
            requires
                gap < 16,
        ;
        d.push(dash as i64 * width as i64);
        d.push(gap as i64 * width as i64);
        assert(d@ + dashes((rest / 0x100) as int, width as int, (n - 1) as nat) =~= before
            + dashes(rest as int, width as int, n as nat));
        rest = rest / 0x100;
        n = n - 1;
    }
    assert(d@ + dashes(rest as int, width as int, 0) =~= d@);
    d
}

/// The stroke that R's line parameters describe: colour word `col`, line
/// type `lty`, width `lwd`, join code `ljoin`, end code `lend` and mitre
/// limit `lmitre` (lengths fixed-point).
pub open spec fn stroke_spec(
    col: u32,
    lty: i32,
    lwd: i32,
    ljoin: i32,
    lend: i32,
    lmitre: i32,
    s: StrokeParams,
) -> bool {
    &&& packed_rgba(s.color.r as int, s.color.g as int, s.color.b as int, s.color.a as int)
        == col
    &&& s.width == lwd
    &&& s.join == join_of(ljoin)
    &&& s.cap == cap_of(lend)
    &&& s.miter_limit == lmitre
    &&& s.dash_pattern@ == dash_pattern_of(lty, lwd as int)
    &&& s.dash_offset == 0
}

/// Whether R's join and end codes are among the defined ones.
pub open spec fn valid_line_codes(ljoin: i32, lend: i32) -> bool {
    1 <= ljoin <= 3 && 1 <= lend <= 3
}

impl StrokeParams {
    /// The stroke of the given line parameters, whether or not they draw anything.
    pub fn from_request(
        color: u32,
        linetype: i32,
        width: i32,
        join: i32,
        cap: i32,
        miter_limit: i32,
    ) -> (s: StrokeParams)
        requires
            valid_line_codes(join, cap),
        ensures
            stroke_spec(color, linetype, width, join, cap, miter_limit, s),
    {
        let join = match join {
            1 => Join::Round,
            2 => Join::Miter,
            _ => Join::Bevel,
        };
        let cap = match cap {
            1 => Cap::Round,
            2 => Cap::Butt,
            _ => Cap::Square,
        };
        StrokeParams {
            color: Rgba::from_word(color),
            width,
            join,
            cap,
            miter_limit,
            dash_pattern: dash_pattern(linetype, width),
            dash_offset: 0,
        }
    }
}

/// The stroke of R's graphics context, or none where the line is
/// transparent (`col == 0`) or blank (`lty == -1`).
pub fn gc_to_stroke_params(col: u32, lty: i32, lwd: i32, ljoin: i32, lend: i32, lmitre: i32) -> (r:
    Option<StrokeParams>)
    requires
        valid_line_codes(ljoin, lend),
    ensures
        r is None <==> (col == 0 || lty == -1),
        r is Some ==> stroke_spec(col, lty, lwd, ljoin, lend, lmitre, r->Some_0),
{
    if col == 0 || lty == -1 {
        return None;
    }
    Some(StrokeParams::from_request(col, lty, lwd, ljoin, lend, lmitre))
}

/// The fill of R's graphics context with the given rule: none where the
/// fill colour is transparent, the registered pattern where one is set,
/// else the fill colour.
pub open spec fn fill_spec(fill: u32, pattern_fill: Option<i32>, use_nonzero_rule: bool) -> Option<
    FillParams,
> {
    if fill == 0 {
        None
    } else {
        Some(
            FillParams {
                brush: match pattern_fill {
                    Some(index) => FillBrush::PatternRef(index as u32),
                    None => FillBrush::Color(
                        Rgba {
                            r: (fill % 0x100) as u8,
                            g: ((fill / 0x100) % 0x100) as u8,
                            b: ((fill / 0x1_0000) % 0x100) as u8,
                            a: (fill / 0x100_0000) as u8,
                        },
                    ),
                },
                use_nonzero_rule,
            },
        )
    }
}

/// The fill of R's graphics context (colour word `fill`, pattern index
/// `pattern_fill`) with the given rule.
pub fn gc_to_fill_params_with_flag(
    fill: u32,
    pattern_fill: Option<i32>,
    use_nonzero_rule: bool,
) -> (r: Option<FillParams>)
    ensures
        r == fill_spec(fill, pattern_fill, use_nonzero_rule),
{
    if fill == 0 {
        return None;
    }
    let brush = match pattern_fill {
        Some(index) => FillBrush::PatternRef(index as u32),
        None => FillBrush::Color(Rgba::from_word(fill)),
    };
    Some(FillParams { brush, use_nonzero_rule })
}

/// The fill of R's graphics context with the non-zero winding rule.
pub fn gc_to_fill_params(fill: u32, pattern_fill: Option<i32>) -> (r: Option<FillParams>)
    ensures
        r == fill_spec(fill, pattern_fill, true),
{
    gc_to_fill_params_with_flag(fill, pattern_fill, true)
}

impl FillParams {
    /// A non-zero fill with the colour of word `color`.
    pub fn from_request(color: u32) -> (f: FillParams)
        ensures
            f.use_nonzero_rule,
            f.brush is Color,
            packed_rgba(
                f.brush->Color_0.r as int,
                f.brush->Color_0.g as int,
                f.brush->Color_0.b as int,
                f.brush->Color_0.a as int,
            ) == color,
    {
        FillParams { brush: FillBrush::Color(Rgba::from_word(color)), use_nonzero_rule: true }
    }
}

/// The channels of a colour word.
pub open spec fn rgba_of(w: u32) -> Rgba {
    Rgba {
        r: (w % 0x100) as u8,
        g: ((w / 0x100) % 0x100) as u8,
        b: ((w / 0x1_0000) % 0x100) as u8,
        a: (w / 0x100_0000) as u8,
    }
}

/// The colour stops of a gradient whose `i`-th stop lies at `offsets[i]`
/// with colour word `colours[i]`, as far as both lists reach.
pub open spec fn stops_of(offsets: Seq<i32>, colours: Seq<u32>) -> Seq<ColorStop> {
    Seq::new(
        if offsets.len() <= colours.len() {
            offsets.len()
        } else {
            colours.len()
        },
        |i: int| ColorStop { offset: offsets[i], color: rgba_of(colours[i]) },
    )
}

/// The gradient that an R pattern describes: its geometry, its extend
/// code and its stops (fixed-point offsets and colour words).
pub fn gradient_from_r(kind: GradientKind, extend_code: i32, offsets: &[i32], colours: &[u32]) -> (g:
    Gradient)
    ensures
        g.kind == kind,
        g.extend == extend_of(extend_code),
        g.stops@ == stops_of(offsets@, colours@),
{
    let n: usize = if offsets.len() <= colours.len() {
        offsets.len()
    } else {
        colours.len()
    };
    let mut stops: Vec<ColorStop> = Vec::new();
    let mut i: usize = 0;
    while i < n
        invariant
            i <= n,
            n == stops_of(offsets@, colours@).len(),
            n <= offsets@.len(),
            n <= colours@.len(),
            stops@ =~= stops_of(offsets@, colours@).subrange(0, i as int),
        decreases n - i,
    {
        stops.push(ColorStop { offset: offsets[i], color: Rgba::from_word(colours[i]) });
        i = i + 1;
    }
    assert(stops@ =~= stops_of(offsets@, colours@));
    Gradient { kind, extend: extend_from_r(extend_code), stops }
}

/// R's pattern extend code: 2 repeat, 3 reflect; pad for 1 and for any
/// other code (R's "none" has no counterpart and pads too).
pub open spec fn extend_of(code: i32) -> Extend {
    if code == 2 {
        Extend::Repeat
    } else if code == 3 {
        Extend::Reflect
    } else {
        Extend::Pad
    }
}

/// The extend mode of R's pattern extend code.
pub fn extend_from_r(code: i32) -> (e: Extend)
    ensures
        e == extend_of(code),
{
    match code {
        2 => Extend::Repeat,
        3 => Extend::Reflect,
        _ => Extend::Pad,
    }
}

} // verus!
