//! Painting the legend.

use vstd::prelude::*;
use crate::canvas::{
    font_height,
    is_font,
    parse_font,
    rgb8,
    with_text,
    Canvas,
    Raster,
    Typeface,
    MIN_FONT_HEIGHT,
};
use crate::config::{ConfigView, VialConfig};
use crate::geometry::{
    get_key_positions,
    grid_paintable,
    grid_view,
    has_key,
    key_cell,
    key_grid,
    KeyGrid,
    KeyPosition,
};
use crate::scene::{
    all_drawable,
    legend_ops,
    lemma_layer_ops_same_keys,
    ops_view,
    same_keys,
    scene,
    DrawOp,
    OpView,
};
use crate::style::{background, background_of};

verus! {

/// Pixels left free around the keys.
pub const MARGIN: u16 = 10;

/// Width of the picture: fifteen columns, the gaps beside the two inner
/// columns, and the margin on both sides.
pub const CANVAS_WIDTH: u32 = 1276;

/// Height of the picture: four rows and the margin above and below.
pub const CANVAS_HEIGHT: u32 = 272;

/// Why no picture could be made.
#[derive(Clone, Copy, Debug, PartialEq, Eq, Structural)]
pub enum RenderError {
    /// The bytes given as the font are not a font.
    InvalidFont,
    /// The font is less than [`MIN_FONT_HEIGHT`] units high, too coarse to
    /// draw with.
    UnfitFont,
}

impl RenderError {
    /// What to tell the user.
    pub fn message(&self) -> (text: String)
        ensures
            text@ == match *self {
                RenderError::InvalidFont => "the font could not be loaded"@,
                RenderError::UnfitFont => "the font is too coarse to draw with"@,
            },
    {
        match self {
            RenderError::InvalidFont => "the font could not be loaded".to_string(),
            RenderError::UnfitFont => "the font is too coarse to draw with".to_string(),
        }
    }
}

/// The raster after one drawing step.
pub open spec fn apply_op(raster: Raster, op: OpView, font: Seq<u8>) -> Raster {
    match op {
        OpView::Fill { x, y, width, height, color } => raster.filled(x, y, width, height, color),
        OpView::Text { x, y, scale, color, text } => with_text(raster, color, x, y, scale, font, text),
    }
}

/// The raster after the steps of `ops`, carried out in order.
pub open spec fn painted(raster: Raster, ops: Seq<OpView>, font: Seq<u8>) -> Raster
    decreases ops.len(),
{
    if ops.len() == 0 {
        raster
    } else {
        apply_op(painted(raster, ops.drop_last(), font), ops.last(), font)
    }
}

/// The picture of the base layer of `config` on `grid`, with the text set
/// in the font made of the bytes `font`: the steps of the scene, painted on
/// the background.
pub open spec fn rendered(config: ConfigView, grid: KeyGrid, font: Seq<u8>) -> Raster {
    painted(
        Raster::solid(CANVAS_WIDTH as nat, CANVAS_HEIGHT as nat, background()),
        scene(config, grid),
        font,
    )
}

/// Painting changes no raster's size.
pub proof fn lemma_painted_keeps_size(raster: Raster, ops: Seq<OpView>, font: Seq<u8>)
    ensures
        painted(raster, ops, font).width == raster.width,
        painted(raster, ops, font).height == raster.height,
    decreases ops.len(),
{
    if ops.len() > 0 {
        lemma_painted_keeps_size(raster, ops.drop_last(), font);
    }
}

/// Carries out the steps of `ops` on `canvas`, in order.
pub fn paint(canvas: &mut Canvas, ops: &[DrawOp], font: &Typeface)
    requires
        1 <= old(canvas)@.width <= i32::MAX,
        1 <= old(canvas)@.height <= i32::MAX,
        all_drawable(ops_view(ops@)),
    ensures
        final(canvas)@ == painted(old(canvas)@, ops_view(ops@), font@),
{
    let ghost start = canvas@;
    let ghost steps = ops_view(ops@);
    let face = font.face();
    let mut i: usize = 0;
    assert(steps.take(0) =~= Seq::<OpView>::empty());
    while i < ops.len()
        invariant
            i <= ops.len(),
            steps == ops_view(ops@),
            all_drawable(steps),
            1 <= start.width <= i32::MAX,
            1 <= start.height <= i32::MAX,
            face@ == font@,
            font_height(face@) >= MIN_FONT_HEIGHT,
            canvas@ == painted(start, steps.take(i as int), font@),
        decreases ops.len() - i,
    {
        proof {
            lemma_painted_keeps_size(start, steps.take(i as int), font@);
            assert(steps.take(i + 1).drop_last() =~= steps.take(i as int));
            assert(steps.take(i + 1).last() == ops@[i as int]@);
            assert(steps[i as int].drawable());
        }
        match &ops[i] {
            DrawOp::Fill { x, y, width, height, color } => {
                canvas.fill_rect(*x, *y, *width, *height, *color);
            },
            DrawOp::Text { x, y, scale, color, text } => {
                canvas.draw_text(*color, *x, *y, *scale, face, text.as_str());
            },
        }
        i += 1;
    }
    assert(steps.take(ops.len() as int) =~= steps);
}

/// Draws the base layer of `config` on the key grid `positions`, with the
/// text set in `font`.
pub fn render(
    config: &VialConfig,
    positions: &Vec<Vec<Option<KeyPosition>>>,
    font: &Typeface,
) -> (canvas: Canvas)
    requires
        grid_paintable(grid_view(positions@)),
    ensures
        canvas@ == rendered(config@, grid_view(positions@), font@),
{
    let mut canvas = Canvas::from_pixel(CANVAS_WIDTH, CANVAS_HEIGHT, background_of());
    let ops = legend_ops(config, positions);
    paint(&mut canvas, ops.as_slice(), font);
    canvas
}

/// Whether the bytes `data` are a font that can be drawn with.
pub open spec fn fit_font(data: Seq<u8>) -> bool {
    is_font(data) && font_height(data) >= MIN_FONT_HEIGHT
}

/// Reads a font. Fails on the bytes that are no font, and on a font that is
/// too coarse to draw with.
pub fn load_font(data: Vec<u8>) -> (loaded: Result<Typeface, RenderError>)
    ensures
        loaded is Ok <==> fit_font(data@),
        loaded is Ok ==> loaded->Ok_0@ == data@,
        loaded is Err ==> loaded->Err_0 == if is_font(data@) {
            RenderError::UnfitFont
        } else {
            RenderError::InvalidFont
        },
{
    match parse_font(data) {
        Ok(face) => match Typeface::new(face) {
            Some(font) => Ok(font),
            None => Err(RenderError::UnfitFont),
        },
        Err(_) => Err(RenderError::InvalidFont),
    }
}

/// Draws the legend of the board for `config`, with the text set in the
/// font that `font` holds. Fails exactly where `font` is no font that can
/// be drawn with.
pub fn generate_keyboard_image(config: &VialConfig, font: Vec<u8>) -> (image: Result<
    Canvas,
    RenderError,
>)
    ensures
        fit_font(font@) ==> image is Ok && image->Ok_0@ == rendered(
            config@,
            key_grid(MARGIN as int),
            font@,
        ),
        !is_font(font@) ==> image == Err::<Canvas, RenderError>(RenderError::InvalidFont),
        is_font(font@) && !fit_font(font@) ==> image == Err::<Canvas, RenderError>(
            RenderError::UnfitFont,
        ),
{
    match load_font(font) {
        Ok(face) => {
            let positions = get_key_positions(MARGIN);
            Ok(render(config, &positions, &face))
        },
        Err(e) => Err(e),
    }
}

/// The picture depends on nothing but the tokens that the base layer gives
/// to the places where the grid holds a key, the tap dances and the font.
/// Two keymaps that agree on those give the same raster, and so the same
/// bytes: other layers, rows and columns beyond the grid, tokens at places
/// without a key and the rest of the keymap are never looked at.
pub proof fn lemma_same_keys_same_picture(a: ConfigView, b: ConfigView, grid: KeyGrid, font: Seq<u8>)
    requires
        same_keys(a.base_layer(), b.base_layer(), grid),
        a.tap_dance == b.tap_dance,
    ensures
        scene(a, grid) == scene(b, grid),
        rendered(a, grid, font) == rendered(b, grid, font),
        rgb8(rendered(a, grid, font)) == rgb8(rendered(b, grid, font)),
{
    lemma_layer_ops_same_keys(a.base_layer(), b.base_layer(), grid, a.tap_dance);
}

/// The picture has the size of the canvas, whatever is drawn.
pub proof fn lemma_rendered_size(config: ConfigView, grid: KeyGrid, font: Seq<u8>)
    ensures
        rendered(config, grid, font).width == CANVAS_WIDTH,
        rendered(config, grid, font).height == CANVAS_HEIGHT,
{
    lemma_painted_keeps_size(
        Raster::solid(CANVAS_WIDTH as nat, CANVAS_HEIGHT as nat, background()),
        scene(config, grid),
        font,
    );
}

/// The canvas holds every key of the board with the margin free on all four
/// sides, and is no larger than that: the outermost key of the right half
/// ends one margin before the right edge, the thumb keys one margin above
/// the bottom edge.
pub proof fn lemma_board_fits_canvas(row: int, col: int)
    requires
        has_key(row, col),
    ensures
        MARGIN <= (key_cell(MARGIN as int, row, col)->0).x,
        MARGIN <= (key_cell(MARGIN as int, row, col)->0).y,
        (key_cell(MARGIN as int, row, col)->0).x + (key_cell(MARGIN as int, row, col)->0).width
            + MARGIN <= CANVAS_WIDTH,
        (key_cell(MARGIN as int, row, col)->0).y + (key_cell(MARGIN as int, row, col)->0).height
            + MARGIN <= CANVAS_HEIGHT,
        (key_cell(MARGIN as int, 4, 0)->0).x + (key_cell(MARGIN as int, 4, 0)->0).width + MARGIN
            == CANVAS_WIDTH,
        (key_cell(MARGIN as int, 3, 3)->0).y + (key_cell(MARGIN as int, 3, 3)->0).height + MARGIN
            == CANVAS_HEIGHT,
{
}

} // verus!
