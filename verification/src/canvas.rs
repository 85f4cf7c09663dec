//! The pixel buffer that a legend is painted on.
//!
//! The buffer itself is an `image::RgbImage`, rectangles are filled by
//! `imageproc` and glyphs are rasterised by `imageproc` with an `ab_glyph`
//! font. None of that code is verified here: each call stands behind a small
//! function whose contract is taken on trust, and everything else in this
//! crate is proved against those contracts.

use vstd::prelude::*;

verus! {

/// An opaque 8-bit RGB color.
#[derive(Clone, Copy, Debug, PartialEq, Eq, Structural)]
pub struct Color {
    pub r: u8,
    pub g: u8,
    pub b: u8,
}

/// The mathematical content of a canvas: its size and the color of every
/// pixel `(x, y)` with `0 <= x < width` and `0 <= y < height`.
pub struct Raster {
    pub width: nat,
    pub height: nat,
    pub pixels: Map<(int, int), Color>,
}

impl Raster {
    /// Whether `(x, y)` is a pixel of this raster.
    pub open spec fn holds(self, x: int, y: int) -> bool {
        0 <= x < self.width && 0 <= y < self.height
    }

    /// The raster of the given size with every pixel set to `color`.
    pub open spec fn solid(width: nat, height: nat, color: Color) -> Raster {
        Raster {
            width,
            height,
            pixels: Map::new(
                |p: (int, int)| 0 <= p.0 < width && 0 <= p.1 < height,
                |p: (int, int)| color,
            ),
        }
    }

    /// This raster after the rectangle with top-left corner `(x, y)` and the
    /// given size has been filled with `color`; whatever part of the
    /// rectangle lies outside the raster is dropped.
    pub open spec fn filled(self, x: int, y: int, width: int, height: int, color: Color) -> Raster {
        Raster {
            width: self.width,
            height: self.height,
            pixels: Map::new(
                |p: (int, int)| self.holds(p.0, p.1),
                |p: (int, int)|
                    if x <= p.0 < x + width && y <= p.1 < y + height {
                        color
                    } else {
                        self.pixels[p]
                    },
            ),
        }
    }
}

/// Largest distance from the origin, along either axis, at which text may be
/// anchored.
pub const ANCHOR_LIMIT: i32 = 0x4000_0000;

/// An RGB pixel buffer.
///
/// Trusted: the struct hides an `image::RgbImage`, which Verus cannot look
/// into. Its content is known only through [`canvas_width`],
/// [`canvas_height`] and [`canvas_pixels`].
#[verifier::external_body]
pub struct Canvas {
    img: image::RgbImage,
}

/// Trusted: the width in pixels of the image that `canvas` holds.
pub uninterp spec fn canvas_width(canvas: Canvas) -> nat;

/// Trusted: the height in pixels of the image that `canvas` holds.
pub uninterp spec fn canvas_height(canvas: Canvas) -> nat;

/// Trusted: the color of each pixel of the image that `canvas` holds, keyed
/// by `(x, y)`.
pub uninterp spec fn canvas_pixels(canvas: Canvas) -> Map<(int, int), Color>;

impl View for Canvas {
    type V = Raster;

    open spec fn view(&self) -> Raster {
        Raster {
            width: canvas_width(*self),
            height: canvas_height(*self),
            pixels: canvas_pixels(*self),
        }
    }
}

/// Largest text size in pixels.
pub const MAX_SCALE: u16 = 24;

/// Smallest height, ascent minus descent in font units, of a font that text
/// is drawn with: four times the largest text size, so that a font unit is
/// never more than a quarter of a pixel.
pub const MIN_FONT_HEIGHT: i32 = 96;

/// Largest number of characters in a line of text. Advances and kerning are
/// 16-bit numbers of font units, so at a quarter of a pixel to the unit one
/// character moves the pen by less than 24576 pixels, and this many keep it
/// below 2^24 less the reach of a glyph box, where single precision still
/// holds every whole pixel.
pub const LINE_LIMIT: usize = 682;

/// Trusted declaration of `ab_glyph::FontVec`, a parsed font that owns its
/// bytes.
#[verifier::external_type_specification]
#[verifier::external_body]
pub struct ExFontVec(ab_glyph::FontVec);

/// Trusted declaration of `ab_glyph::InvalidFont`, the error of a font that
/// does not parse.
#[verifier::external_type_specification]
#[verifier::external_body]
pub struct ExInvalidFont(ab_glyph::InvalidFont);

/// Trusted: the bytes that `font` was parsed from and still owns
/// (`FontVec::as_slice`).
pub uninterp spec fn font_data(font: ab_glyph::FontVec) -> Seq<u8>;

/// Trusted: whether `ab_glyph` accepts `data` as a font, that is whether
/// `FontVec::try_from_vec` succeeds on these bytes.
pub uninterp spec fn is_font(data: Seq<u8>) -> bool;

/// Trusted: the height in font units, ascent minus descent, that `ab_glyph`
/// reads (`Font::height_unscaled`) from the font that `FontVec::try_from_vec`
/// makes of the bytes `data`.
pub uninterp spec fn font_height(data: Seq<u8>) -> int;

/// Trusted: the pixels that `imageproc::drawing::draw_text_mut` leaves when it
/// draws `text` in the color `ink`, anchored at `(x, y)`, at `scale` pixels,
/// with the font that `FontVec::try_from_vec` makes of the bytes `font`, onto
/// `before`. The rasteriser is deterministic, so the result is a function of
/// these arguments; nothing more is assumed of it.
pub uninterp spec fn text_drawn(
    before: Raster,
    ink: Color,
    x: int,
    y: int,
    scale: nat,
    font: Seq<u8>,
    text: Seq<char>,
) -> Map<(int, int), Color>;

/// The raster that drawing `text` onto `before` gives: the size stays, the
/// pixels are those that [`text_drawn`] names.
pub open spec fn with_text(
    before: Raster,
    ink: Color,
    x: int,
    y: int,
    scale: nat,
    font: Seq<u8>,
    text: Seq<char>,
) -> Raster {
    Raster {
        width: before.width,
        height: before.height,
        pixels: text_drawn(before, ink, x, y, scale, font, text),
    }
}

/// A font as `ab_glyph` parsed it from bytes. The field is closed to other
/// crates: the only way to a face is [`parse_font`], and nothing changes it
/// afterwards. It is the first face of its file, with no variation set, and
/// so a function of its bytes.
pub struct Face {
    pub(crate) font: ab_glyph::FontVec,
}

impl View for Face {
    type V = Seq<u8>;

    open(crate) spec fn view(&self) -> Seq<u8> {
        font_data(self.font)
    }
}

/// Trusted wrapper of `ab_glyph::FontVec::try_from_vec`. The call succeeds
/// exactly on the byte strings that [`is_font`] names, and the font it
/// returns owns the bytes it was given.
#[verifier::external_body]
pub(crate) fn parse_font(data: Vec<u8>) -> (parsed: Result<Face, ab_glyph::InvalidFont>)
    ensures
        parsed is Ok <==> is_font(data@),
        parsed is Ok ==> font_data(parsed->Ok_0.font) == data@,
{
    match ab_glyph::FontVec::try_from_vec(data) {
        Ok(font) => Ok(Face { font }),
        Err(e) => Err(e),
    }
}

impl Face {
    /// Trusted wrapper of `ab_glyph::Font::height_unscaled`: the ascent minus
    /// the descent, two 16-bit numbers that the face reads from its tables.
    #[verifier::external_body]
    pub(crate) fn height_unscaled(&self) -> (height: i32)
        ensures
            height == font_height(font_data(self.font)),
    {
        ab_glyph::Font::height_unscaled(&self.font) as i32
    }
}

/// A font that text can be drawn with: a [`Face`] at least
/// [`MIN_FONT_HEIGHT`] units high.
pub struct Typeface {
    face: Face,
}

impl View for Typeface {
    type V = Seq<u8>;

    closed spec fn view(&self) -> Seq<u8> {
        self.face@
    }
}

impl Typeface {
    #[verifier::type_invariant]
    closed spec fn high_enough(&self) -> bool {
        font_height(self.face@) >= MIN_FONT_HEIGHT
    }

    /// Takes `face` for drawing, if it is high enough.
    pub(crate) fn new(face: Face) -> (made: Option<Typeface>)
        ensures
            made is Some <==> font_height(face@) >= MIN_FONT_HEIGHT,
            made is Some ==> made->0@ == face@,
    {
        if face.height_unscaled() >= MIN_FONT_HEIGHT {
            Some(Typeface { face })
        } else {
            None
        }
    }

    /// The face to draw with.
    pub(crate) fn face(&self) -> (face: &Face)
        ensures
            face@ == self@,
            font_height(face@) >= MIN_FONT_HEIGHT,
    {
        proof {
            use_type_invariant(self);
        }
        &self.face
    }
}

impl Canvas {
    /// Trusted wrapper of `image::ImageBuffer::from_pixel`, which allocates
    /// an image of the given size and copies `color` into every pixel. The
    /// call panics when the buffer of three bytes per pixel cannot be a
    /// vector, which the precondition excludes.
    #[verifier::external_body]
    pub(crate) fn from_pixel(width: u32, height: u32, color: Color) -> (canvas: Canvas)
        requires
            3 * width * height <= isize::MAX,
        ensures
            canvas@ == Raster::solid(width as nat, height as nat, color),
    {
        let pixel = image::Rgb([color.r, color.g, color.b]);
        Canvas { img: image::RgbImage::from_pixel(width, height, pixel) }
    }

    /// Trusted wrapper of `image::ImageBuffer::dimensions`: width, then
    /// height.
    #[verifier::external_body]
    pub(crate) fn dimensions(&self) -> (size: (u32, u32))
        ensures
            size.0 == canvas_width(*self),
            size.1 == canvas_height(*self),
    {
        self.img.dimensions()
    }

    /// Trusted wrapper of `image::ImageBuffer::get_pixel`, which reads the
    /// pixel at `(x, y)` and panics outside the image.
    #[verifier::external_body]
    pub(crate) fn get_pixel(&self, x: u32, y: u32) -> (color: Color)
        requires
            x < canvas_width(*self),
            y < canvas_height(*self),
        ensures
            color == canvas_pixels(*self)[(x as int, y as int)],
    {
        let pixel = self.img.get_pixel(x, y);
        Color { r: pixel.0[0], g: pixel.0[1], b: pixel.0[2] }
    }

    /// Trusted wrapper of `imageproc::drawing::draw_filled_rect_mut`, which
    /// sets every pixel in the intersection of the rectangle and the image
    /// to `color` and leaves the others alone. `imageproc` panics on an empty
    /// rectangle or image. It casts each width and height to `i32` and adds
    /// it to the near edge, also in `i32`, for the far edges `x + width - 1`
    /// and `y + height - 1`; the precondition keeps every cast and every sum
    /// in range.
    #[verifier::external_body]
    pub(crate) fn fill_rect(&mut self, x: i32, y: i32, width: u32, height: u32, color: Color)
        requires
            1 <= old(self)@.width <= i32::MAX,
            1 <= old(self)@.height <= i32::MAX,
            1 <= width <= i32::MAX,
            1 <= height <= i32::MAX,
            x + width <= i32::MAX,
            y + height <= i32::MAX,
        ensures
            final(self)@ == old(self)@.filled(x as int, y as int, width as int, height as int, color),
    {
        let rect = imageproc::rect::Rect::at(x, y).of_size(width, height);
        let pixel = image::Rgb([color.r, color.g, color.b]);
        imageproc::drawing::draw_filled_rect_mut(&mut self.img, rect, pixel);
    }

    /// Trusted wrapper of `imageproc::drawing::draw_text_mut`, which lays the
    /// glyphs of `text` out on one line from the anchor `(x, y)` and blends
    /// each into the image in the color `ink`. The image keeps its size; its
    /// pixels become those that [`text_drawn`] names.
    ///
    /// `ab_glyph` scales font units by the text size over the font's height,
    /// keeps the pen in single precision, and rasterises each glyph in a
    /// buffer of its pixel box, placed by the pen; `imageproc` adds anchor,
    /// box and pixel offset in `i32`. Glyph boxes, advances and kerning are
    /// 16-bit numbers of font units. With four times the size at most the
    /// height, a unit is at most a quarter of a pixel: a glyph box reaches
    /// no further than 8192 pixels from the pen, and a character moves the
    /// pen by less than 24576. With at most [`LINE_LIMIT`] characters the pen
    /// and every box edge stay below 2^24, where single precision holds every
    /// whole pixel, so that each outline lies within its box; and with the
    /// anchor within [`ANCHOR_LIMIT`] every sum stays an `i32`.
    #[verifier::external_body]
    pub(crate) fn draw_text(
        &mut self,
        ink: Color,
        x: i32,
        y: i32,
        scale: u16,
        font: &Face,
        text: &str,
    )
        requires
            -ANCHOR_LIMIT <= x <= ANCHOR_LIMIT,
            -ANCHOR_LIMIT <= y <= ANCHOR_LIMIT,
            1 <= scale,
            4 * scale <= font_height(font_data(font.font)),
            text@.len() <= LINE_LIMIT,
        ensures
            canvas_width(*final(self)) == canvas_width(*old(self)),
            canvas_height(*final(self)) == canvas_height(*old(self)),
            canvas_pixels(*final(self)) == text_drawn(
                old(self)@,
                ink,
                x as int,
                y as int,
                scale as nat,
                font_data(font.font),
                text@,
            ),
    {
        let px = ab_glyph::PxScale { x: scale.into(), y: scale.into() };
        let pixel = image::Rgb([ink.r, ink.g, ink.b]);
        imageproc::drawing::draw_text_mut(&mut self.img, pixel, x, y, px, &font.font, text);
    }
}

/// The bytes of the first `n` pixels of row `y`: red, green and blue of
/// each pixel, from left to right.
pub open spec fn row_bytes(raster: Raster, y: int, n: nat) -> Seq<u8>
    decreases n,
{
    if n == 0 {
        Seq::empty()
    } else {
        let color = raster.pixels[(n - 1, y)];
        row_bytes(raster, y, (n - 1) as nat) + seq![color.r, color.g, color.b]
    }
}

/// The bytes of the first `n` rows, from the top down.
pub open spec fn rows_bytes(raster: Raster, n: nat) -> Seq<u8>
    decreases n,
{
    if n == 0 {
        Seq::empty()
    } else {
        rows_bytes(raster, (n - 1) as nat) + row_bytes(raster, n - 1, raster.width)
    }
}

/// The raster as packed 8-bit RGB: row after row, three bytes per pixel.
pub open spec fn rgb8(raster: Raster) -> Seq<u8> {
    rows_bytes(raster, raster.height)
}

impl Canvas {
    /// The width in pixels.
    pub fn width(&self) -> (width: u32)
        ensures
            width == self@.width,
    {
        self.dimensions().0
    }

    /// The height in pixels.
    pub fn height(&self) -> (height: u32)
        ensures
            height == self@.height,
    {
        self.dimensions().1
    }

    /// The color of the pixel at `(x, y)`; `None` outside the canvas.
    pub fn pixel(&self, x: u32, y: u32) -> (color: Option<Color>)
        ensures
            color == if self@.holds(x as int, y as int) {
                Some(self@.pixels[(x as int, y as int)])
            } else {
                None
            },
    {
        let (width, height) = self.dimensions();
        if x < width && y < height {
            Some(self.get_pixel(x, y))
        } else {
            None
        }
    }

    /// The picture as packed 8-bit RGB, the layout in which image files and
    /// encoders take it.
    pub fn to_rgb8(&self) -> (bytes: Vec<u8>)
        ensures
            bytes@ == rgb8(self@),
    {
        let (width, height) = self.dimensions();
        let mut bytes: Vec<u8> = Vec::new();
        let mut y: u32 = 0;
        while y < height
            invariant
                y <= height,
                width == self@.width,
                height == self@.height,
                bytes@ == rows_bytes(self@, y as nat),
            decreases height - y,
        {
            let ghost above = bytes@;
            let mut x: u32 = 0;
            assert(bytes@ =~= above + row_bytes(self@, y as int, 0));
            while x < width
                invariant
                    x <= width,
                    y < height,
                    width == self@.width,
                    height == self@.height,
                    bytes@ == above + row_bytes(self@, y as int, x as nat),
                decreases width - x,
            {
                let color = self.get_pixel(x, y);
                bytes.push(color.r);
                bytes.push(color.g);
                bytes.push(color.b);
                assert(bytes@ =~= above + row_bytes(self@, y as int, (x + 1) as nat));
                x += 1;
            }
            y += 1;
        }
        bytes
    }
}

} // verus!
