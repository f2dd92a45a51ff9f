//! Raster images and the byte-level steps of headless export.
use crate::color::Rgba;
use crate::geometry::ONE;
use vstd::prelude::*;

verus! {

/// An RGBA image with 8 bits per channel, rows top to bottom, tightly packed.
#[derive(Debug)]
pub struct Image {
    pub data: Vec<u8>,
    pub width: u32,
    pub height: u32,
    /// The opacity the whole image is drawn with.
    pub alpha: u8,
    /// Whether the last row and column were repeated once more, so that
    /// the image can be drawn enlarged without fading at its edges.
    pub extended_edge: bool,
}

/// Row `r` of an image whose rows are `pitch` bytes apart and `len` long.
pub open spec fn row(data: Seq<u8>, pitch: int, len: int, r: int) -> Seq<u8> {
    data.subrange(r * pitch, r * pitch + len)
}

/// The first `k` rows of an image stored with `pitch` bytes per row, each
/// cut down to its first `len` bytes, one after another.
pub open spec fn packed_rows(data: Seq<u8>, pitch: int, len: int, k: nat) -> Seq<u8>
    decreases k,
{
    if k == 0 {
        Seq::empty()
    } else {
        packed_rows(data, pitch, len, (k - 1) as nat) + row(data, pitch, len, k - 1)
    }
}

/// Row `r` followed by a second copy of its last pixel.
pub open spec fn row_with_edge(data: Seq<u8>, len: int, r: int) -> Seq<u8> {
    row(data, len, len, r) + data.subrange((r + 1) * len - 4, (r + 1) * len)
}

/// The first `k` rows, each followed by a second copy of its last pixel.
pub open spec fn rows_with_edge(data: Seq<u8>, len: int, k: nat) -> Seq<u8>
    decreases k,
{
    if k == 0 {
        Seq::empty()
    } else {
        rows_with_edge(data, len, (k - 1) as nat) + row_with_edge(data, len, k - 1)
    }
}

/// An image of `height` rows of `len` bytes with its last column and then
/// its last row repeated once more.
pub open spec fn edge_extended(data: Seq<u8>, len: int, height: nat) -> Seq<u8> {
    rows_with_edge(data, len, height) + row_with_edge(data, len, height - 1)
}

fn push_range(out: &mut Vec<u8>, src: &[u8], from: usize, to: usize)
    requires
        from <= to <= src@.len(),
    ensures
        final(out)@ == old(out)@ + src@.subrange(from as int, to as int),
{
    let ghost start = out@;
    let mut i = from;
    while i < to
        invariant
            from <= i <= to,
            to <= src@.len(),
            out@ == start + src@.subrange(from as int, i as int),
        decreases to - i,
    {
        out.push(src[i]);
        i = i + 1;
        assert(out@ =~= start + src@.subrange(from as int, i as int));
    }
}

/// Copies a raster into an image. With `with_extended_edge` the last
/// column and the last row are repeated once more, so that the image is
/// one pixel wider and higher.
pub fn convert_to_image(
    raster: &[u8],
    width: usize,
    height: usize,
    alpha: u8,
    with_extended_edge: bool,
) -> (image: Image)
    requires
        raster@.len() == width * height * 4,
        width < u32::MAX,
        height < u32::MAX,
        with_extended_edge ==> width >= 1 && height >= 1,
    ensures
        image.alpha == alpha,
        image.extended_edge == with_extended_edge,
        !with_extended_edge ==> image.data@ == raster@ && image.width == width && image.height
            == height,
        with_extended_edge ==> image.data@ == edge_extended(
            raster@,
            width * 4,
            height as nat,
        ) && image.width == width + 1 && image.height == height + 1,
{
    let mut data: Vec<u8> = Vec::new();
    if !with_extended_edge {
        push_range(&mut data, raster, 0, raster.len());
        assert(data@ =~= raster@);
        return Image { data, width: width as u32, height: height as u32, alpha, extended_edge: false };
    }
    let total = raster.len();
    assert(width * 4 <= width * height * 4) by (nonlinear_arith)
        requires
            height >= 1,
    ;
    assert(height * (width * 4) == width * height * 4) by (nonlinear_arith);
    let len = width * 4;
    let mut r: usize = 0;
    while r < height
        invariant
            r <= height,
            len == width * 4,
            width >= 1,
            raster@.len() == height * len,
            total == raster@.len(),
            data@ == rows_with_edge(raster@, len as int, r as nat),
        decreases height - r,
    {
        assert(r * len + len <= height * len) by (nonlinear_arith)
            requires
                r < height,
        ;
        assert((r + 1) * len == r * len + len) by (nonlinear_arith);
        let start = r * len;
        push_range(&mut data, raster, start, start + len);
        push_range(&mut data, raster, start + len - 4, start + len);
        r = r + 1;
        assert(data@ =~= rows_with_edge(raster@, len as int, r as nat));
    }
    assert((height - 1) * len + len == height * len) by (nonlinear_arith)
        requires
            height >= 1,
    ;
    assert(row_with_edge(raster@, len as int, height - 1) == raster@.subrange(
        (height - 1) * len,
        (height - 1) * len + len,
    ) + raster@.subrange((height - 1) * len + len - 4, (height - 1) * len + len));
    let start = (height - 1) * len;
    push_range(&mut data, raster, start, start + len);
    push_range(&mut data, raster, start + len - 4, start + len);
    assert(data@ =~= edge_extended(raster@, len as int, height as nat));
    Image { data, width: (width + 1) as u32, height: (height + 1) as u32, alpha, extended_edge: true }
}

/// Whether an image of `pixels` drawn at `size` (fixed-point pixels) is
/// enlarged in either direction, so that its edge needs extending.
pub fn needs_extended_edge(pixels: (u32, u32), size: (i32, i32)) -> (r: bool)
    ensures
        r == (size.0 > pixels.0 * ONE || size.1 > pixels.1 * ONE),
{
    size.0 as i64 > pixels.0 as i64 * 64 || size.1 as i64 > pixels.1 as i64 * 64
}

/// The bytes per row of a GPU read-back buffer for an image `width`
/// pixels wide: four bytes per pixel, rounded up to a multiple of 256.
pub fn padded_bytes_per_row(width: u32) -> (n: u64)
    ensures
        n % 256 == 0,
        width * 4 <= n < width * 4 + 256,
{
    let tight = width as u64 * 4;
    (tight + 255) / 256 * 256
}

/// The tightly packed image of a read-back buffer whose `height` rows are
/// `pitch` bytes apart: the first `width * 4` bytes of each row.
pub fn strip_row_padding(data: &[u8], width: u32, height: u32, pitch: usize) -> (out: Vec<u8>)
    requires
        width * 4 <= pitch,
        pitch * height <= data@.len(),
    ensures
        out@ == packed_rows(data@, pitch as int, width * 4, height as nat),
        out@.len() == width * 4 * height,
{
    let total = data.len();
    let len = width as usize * 4;
    let mut out: Vec<u8> = Vec::new();
    let mut r: usize = 0;
    while r < height as usize
        invariant
            total == data@.len(),
            r <= height,
            len == width * 4,
            len <= pitch,
            pitch * height <= data@.len(),
            out@ == packed_rows(data@, pitch as int, len as int, r as nat),
            out@.len() == len * r,
        decreases height - r,
    {
        assert(r * pitch + pitch <= pitch * height) by (nonlinear_arith)
            requires
                r < height,
        ;
        assert(len * r + len == len * (r + 1)) by (nonlinear_arith);
        let start = r * pitch;
        push_range(&mut out, data, start, start + len);
        r = r + 1;
        assert(out@ =~= packed_rows(data@, pitch as int, len as int, r as nat));
    }
    out
}

#[verifier::external_type_specification]
#[verifier::external_body]
pub struct ExEncodingError(png::EncodingError);

/// The PNG file that the png crate's encoder writes for an RGBA image with
/// 8 bits per channel, `width` by `height` pixels, with default settings.
pub uninterp spec fn png_rgba8(width: u32, height: u32, pixels: Seq<u8>) -> Seq<u8>;

/// Relies on png's `Encoder::new`, `write_header`, `write_image_data` and
/// `finish`, writing into memory: a header with a zero width or height is
/// refused, and so is image data whose length is not `width * height * 4`;
/// RGBA with 8 bits is a valid colour type and depth, the image data is
/// split into chunks below the chunk-length limit, and writing into a
/// `Vec` cannot fail, so any other input is encoded. That length is
/// computed in `usize`, so it must fit there.
#[verifier::external_body]
fn png_encode_rgba8(width: u32, height: u32, pixels: &[u8]) -> (r: Result<
    Vec<u8>,
    png::EncodingError,
>)
    requires
        width * height * 4 <= usize::MAX,
    ensures
        r is Ok ==> r->Ok_0@ == png_rgba8(width, height, pixels@),
        width == 0 || height == 0 ==> r is Err,
        pixels@.len() != width * height * 4 ==> r is Err,
        width != 0 && height != 0 && pixels@.len() == width * height * 4 ==> r is Ok,
{
    let mut out: Vec<u8> = Vec::new();
    let mut encoder = png::Encoder::new(&mut out, width, height);
    encoder.set_color(png::ColorType::Rgba);
    encoder.set_depth(png::BitDepth::Eight);
    let mut writer = encoder.write_header()?;
    writer.write_image_data(pixels)?;
    writer.finish()?;
    Ok(out)
}

/// Why an image could not be exported.
#[derive(Clone, Copy, Debug, PartialEq, Eq, Structural)]
pub enum ExportError {
    /// The image has no pixel.
    EmptyImage,
    /// The pixel data does not fit the image's size.
    SizeMismatch,
    /// The PNG encoder refused the image; with the checks above it never does.
    Encoding,
}

/// Encodes a tightly packed RGBA image as PNG.
pub fn encode_png(pixels: &[u8], width: u32, height: u32) -> (r: Result<Vec<u8>, ExportError>)
    ensures
        r == Err::<Vec<u8>, ExportError>(ExportError::EmptyImage) <==> (width == 0 || height
            == 0),
        r == Err::<Vec<u8>, ExportError>(ExportError::SizeMismatch) <==> (width != 0 && height
            != 0 && pixels@.len() != width * height * 4),
        r is Ok <==> (width != 0 && height != 0 && pixels@.len() == width * height * 4),
        r is Ok ==> r->Ok_0@ == png_rgba8(width, height, pixels@),
{
    if width == 0 || height == 0 {
        return Err(ExportError::EmptyImage);
    }
    assert(width as u128 * height as u128 <= 0xffff_ffff * 0xffff_ffff) by (nonlinear_arith)
        requires
            width <= 0xffff_ffff,
            height <= 0xffff_ffff,
    ;
    let expected: u128 = width as u128 * height as u128 * 4;
    if pixels.len() as u128 != expected {
        return Err(ExportError::SizeMismatch);
    }
    assert(pixels@.len() <= usize::MAX);
    match png_encode_rgba8(width, height, pixels) {
        Ok(bytes) => Ok(bytes),
        Err(_) => Err(ExportError::Encoding),
    }
}

/// Encodes a GPU read-back buffer (rows `pitch` bytes apart) as PNG.
pub fn encode_readback(data: &[u8], width: u32, height: u32, pitch: usize) -> (r: Result<
    Vec<u8>,
    ExportError,
>)
    requires
        width * 4 <= pitch,
        pitch * height <= data@.len(),
    ensures
        r == Err::<Vec<u8>, ExportError>(ExportError::EmptyImage) <==> (width == 0 || height
            == 0),
        r is Ok <==> (width != 0 && height != 0),
        r is Ok ==> r->Ok_0@ == png_rgba8(
            width,
            height,
            packed_rows(data@, pitch as int, width * 4, height as nat),
        ),
{
    let pixels = strip_row_padding(data, width, height, pitch);
    proof {
        assert(width * 4 * height == width * height * 4) by (nonlinear_arith);
    }
    encode_png(pixels.as_slice(), width, height)
}

/// Channel `k` (0 red, 1 green, 2 blue, 3 alpha) of a colour.
pub open spec fn channel_of(c: Rgba, k: int) -> u8 {
    if k == 0 {
        c.r
    } else if k == 1 {
        c.g
    } else if k == 2 {
        c.b
    } else {
        c.a
    }
}

/// Whether every pixel of the RGBA bytes `s` is `c`.
pub open spec fn all_pixels(s: Seq<u8>, c: Rgba) -> bool {
    &&& s.len() % 4 == 0
    &&& forall|i: int| 0 <= i < s.len() ==> #[trigger] s[i] == channel_of(c, i % 4)
}

proof fn lemma_all_pixels_concat(a: Seq<u8>, b: Seq<u8>, c: Rgba)
    requires
        all_pixels(a, c),
        all_pixels(b, c),
    ensures
        all_pixels(a + b, c),
{
    assert forall|i: int| 0 <= i < (a + b).len() implies #[trigger] (a + b)[i] == channel_of(
        c,
        i % 4,
    ) by {
        if i >= a.len() {
            assert((i - a.len()) % 4 == i % 4) by {
                vstd::arithmetic::div_mod::lemma_mod_sub_multiples_vanish(i, 4);
                assert(a.len() % 4 == 0);
                vstd::arithmetic::div_mod::lemma_fundamental_div_mod(a.len() as int, 4);
                vstd::arithmetic::div_mod::lemma_mod_multiples_vanish(
                    -(a.len() as int / 4),
                    i,
                    4,
                );
            }
        }
    }
}

/// Read-back rows that are all `c` within the image's width give a packed
/// image that is all `c`: dropping the row padding never changes a pixel.
pub proof fn lemma_uniform_rows(data: Seq<u8>, pitch: int, width: int, height: nat, c: Rgba)
    requires
        width >= 0,
        forall|r: int| 0 <= r < height ==> all_pixels(#[trigger] row(data, pitch, width * 4, r), c),
    ensures
        all_pixels(packed_rows(data, pitch, width * 4, height), c),
    decreases height,
{
    if height > 0 {
        lemma_uniform_rows(data, pitch, width, (height - 1) as nat, c);
        lemma_all_pixels_concat(
            packed_rows(data, pitch, width * 4, (height - 1) as nat),
            row(data, pitch, width * 4, height - 1),
            c,
        );
    } else {
        assert(packed_rows(data, pitch, width * 4, height) =~= Seq::empty());
    }
}

} // verus!
