//! The legend as a list of drawing steps.
//!
//! A keymap and a key grid decide, without any drawing, which rectangles
//! and which pieces of text make up the picture, and in which order they
//! are laid down. Later steps paint over earlier ones.

use vstd::prelude::*;
use crate::canvas::{Color, ANCHOR_LIMIT, LINE_LIMIT, MAX_SCALE};
use crate::config::{ConfigView, TokenView, VialConfig};
use crate::geometry::{grid_paintable, grid_view, paintable, KeyGrid, KeyPosition};
use crate::label::{keycode_to_label, resolve_label, KeyLabel, LabelView};
use crate::style::{
    centred_x,
    centred_x_of,
    key_border,
    key_colors,
    key_fill,
    line_y,
    line_y_of,
    main_ink,
    main_ink_of,
    main_scale,
    main_scale_of,
    sub_ink,
    sub_ink_of,
    sub_y,
    sub_y_of,
    SCALE_SUB,
};
use crate::text::{chars_of, split, split_of, string_of, views};

verus! {

/// One drawing step.
#[derive(Clone, Debug)]
pub enum DrawOp {
    /// Fill the rectangle with top-left corner `(x, y)` with one color.
    Fill { x: i32, y: i32, width: u32, height: u32, color: Color },
    /// Draw one line of text, anchored at `(x, y)`, `scale` pixels high.
    Text { x: i32, y: i32, scale: u16, color: Color, text: String },
}

/// The mathematical content of a [`DrawOp`].
pub enum OpView {
    Fill { x: int, y: int, width: int, height: int, color: Color },
    Text { x: int, y: int, scale: nat, color: Color, text: Seq<char> },
}

impl View for DrawOp {
    type V = OpView;

    open spec fn view(&self) -> OpView {
        match *self {
            DrawOp::Fill { x, y, width, height, color } => OpView::Fill {
                x: x as int,
                y: y as int,
                width: width as int,
                height: height as int,
                color,
            },
            DrawOp::Text { x, y, scale, color, text } => OpView::Text {
                x: x as int,
                y: y as int,
                scale: scale as nat,
                color,
                text: text@,
            },
        }
    }
}

impl OpView {
    /// Whether the step can be carried out: a rectangle is not empty, and its
    /// width, its height and its far edges are `i32` numbers; text has a
    /// size of at most [`MAX_SCALE`], is anchored within [`ANCHOR_LIMIT`] of
    /// the origin and has at most [`LINE_LIMIT`] characters.
    pub open spec fn drawable(self) -> bool {
        match self {
            OpView::Fill { x, y, width, height, color } => {
                &&& 1 <= width <= i32::MAX
                &&& 1 <= height <= i32::MAX
                &&& x + width <= i32::MAX
                &&& y + height <= i32::MAX
            },
            OpView::Text { x, y, scale, color, text } => {
                &&& -ANCHOR_LIMIT <= x <= ANCHOR_LIMIT
                &&& -ANCHOR_LIMIT <= y <= ANCHOR_LIMIT
                &&& 1 <= scale <= MAX_SCALE
                &&& line_fits(text)
            },
        }
    }
}

/// Whether `line` can be laid out: it has at most [`LINE_LIMIT`]
/// characters.
pub open spec fn line_fits(line: Seq<char>) -> bool {
    line.len() <= LINE_LIMIT
}

/// Tests whether `line` can be laid out.
pub fn line_fits_of(line: &[char]) -> (fits: bool)
    ensures
        fits == line_fits(line@),
{
    line.len() <= LINE_LIMIT
}

/// The steps that `ops` holds.
pub open spec fn ops_view(ops: Seq<DrawOp>) -> Seq<OpView> {
    Seq::new(ops.len(), |i: int| ops[i]@)
}

/// Whether every step of `ops` can be carried out.
pub open spec fn all_drawable(ops: Seq<OpView>) -> bool {
    forall|i: int| 0 <= i < ops.len() ==> (#[trigger] ops[i]).drawable()
}

/// The body of a key and its border: the inside, one pixel in from every
/// edge, in the fill color; then the top, bottom, left and right edges, one
/// pixel thick, in the border color.
pub open spec fn key_box(pos: KeyPosition, label: LabelView) -> Seq<OpView> {
    seq![
        OpView::Fill {
            x: pos.x + 1,
            y: pos.y + 1,
            width: pos.width - 2,
            height: pos.height - 2,
            color: key_fill(label),
        },
        OpView::Fill { x: pos.x as int, y: pos.y as int, width: pos.width as int, height: 1, color: key_border(label) },
        OpView::Fill {
            x: pos.x as int,
            y: pos.y + pos.height - 1,
            width: pos.width as int,
            height: 1,
            color: key_border(label),
        },
        OpView::Fill { x: pos.x as int, y: pos.y as int, width: 1, height: pos.height as int, color: key_border(label) },
        OpView::Fill {
            x: pos.x + pos.width - 1,
            y: pos.y as int,
            width: 1,
            height: pos.height as int,
            color: key_border(label),
        },
    ]
}

/// Line number `index` of a main legend.
pub open spec fn main_line(pos: KeyPosition, label: LabelView, line: Seq<char>, index: int) -> OpView {
    OpView::Text {
        x: centred_x(pos.x as int, pos.width as int, line, main_scale(label)),
        y: line_y(pos.y as int, index),
        scale: main_scale(label),
        color: main_ink(label),
        text: line,
    }
}

/// The steps for the first `n` lines of a main legend. A line that is too
/// long to be laid out is left out; the others keep their places.
pub open spec fn main_lines_upto(
    pos: KeyPosition,
    label: LabelView,
    lines: Seq<Seq<char>>,
    n: nat,
) -> Seq<OpView>
    decreases n,
{
    if n == 0 {
        Seq::empty()
    } else {
        let before = main_lines_upto(pos, label, lines, (n - 1) as nat);
        if line_fits(lines[n - 1]) {
            before.push(main_line(pos, label, lines[n - 1], n - 1))
        } else {
            before
        }
    }
}

/// The main legend: nothing where it is empty; else one step for each of its
/// lines, each centred by itself, one below the other.
pub open spec fn main_lines(pos: KeyPosition, label: LabelView) -> Seq<OpView> {
    if label.main_text.len() == 0 {
        Seq::empty()
    } else {
        let lines = split(label.main_text, '\n');
        main_lines_upto(pos, label, lines, lines.len())
    }
}

/// The secondary legend: one step where the label has one that can be laid
/// out, centred, three quarters down the key.
pub open spec fn sub_line(pos: KeyPosition, label: LabelView) -> Seq<OpView> {
    match label.sub_text {
        Some(sub) => if line_fits(sub) {
            seq![
                OpView::Text {
                    x: centred_x(pos.x as int, pos.width as int, sub, SCALE_SUB as nat),
                    y: sub_y(pos.y as int, pos.height as int),
                    scale: SCALE_SUB as nat,
                    color: sub_ink(),
                    text: sub,
                },
            ]
        } else {
            Seq::empty()
        },
        None => Seq::empty(),
    }
}

/// All the steps for one key: box, main legend, secondary legend.
pub open spec fn key_ops(pos: KeyPosition, label: LabelView) -> Seq<OpView> {
    key_box(pos, label) + main_lines(pos, label) + sub_line(pos, label)
}

/// The steps for the first `n` places of one row. A place adds its key where
/// both the keymap and the grid have that column and the grid holds a key
/// there.
pub open spec fn row_ops(
    tokens: Seq<TokenView>,
    places: Seq<Option<KeyPosition>>,
    tap_dance: Seq<Seq<TokenView>>,
    n: nat,
) -> Seq<OpView>
    decreases n,
{
    if n == 0 {
        Seq::empty()
    } else {
        let c = n - 1;
        let before = row_ops(tokens, places, tap_dance, c as nat);
        if c < tokens.len() && c < places.len() && places[c] is Some {
            before + key_ops(places[c]->0, resolve_label(tokens[c], tap_dance))
        } else {
            before
        }
    }
}

/// The steps for the first `n` rows of a layer. A row adds its keys where
/// both the keymap and the grid have it.
pub open spec fn layer_ops(
    layer: Seq<Seq<TokenView>>,
    grid: KeyGrid,
    tap_dance: Seq<Seq<TokenView>>,
    n: nat,
) -> Seq<OpView>
    decreases n,
{
    if n == 0 {
        Seq::empty()
    } else {
        let r = n - 1;
        let before = layer_ops(layer, grid, tap_dance, r as nat);
        if r < layer.len() && r < grid.len() {
            before + row_ops(layer[r], grid[r], tap_dance, layer[r].len())
        } else {
            before
        }
    }
}

/// The steps that draw the base layer of `config` on `grid`: row by row,
/// and within a row column by column.
pub open spec fn scene(config: ConfigView, grid: KeyGrid) -> Seq<OpView> {
    layer_ops(config.base_layer(), grid, config.tap_dance, config.base_layer().len())
}

/// Appending drawable steps to drawable steps gives drawable steps.
pub proof fn lemma_all_drawable_concat(a: Seq<OpView>, b: Seq<OpView>)
    requires
        all_drawable(a),
        all_drawable(b),
    ensures
        all_drawable(a + b),
{
    assert forall|i: int| 0 <= i < (a + b).len() implies (#[trigger] (a + b)[i]).drawable() by {
        if i < a.len() {
            assert((a + b)[i] == a[i]);
        } else {
            assert((a + b)[i] == b[i - a.len()]);
        }
    }
}

/// Every step for a line of a main legend can be carried out.
pub proof fn lemma_main_lines_drawable(
    pos: KeyPosition,
    label: LabelView,
    lines: Seq<Seq<char>>,
    n: nat,
)
    requires
        n <= lines.len(),
    ensures
        all_drawable(main_lines_upto(pos, label, lines, n)),
    decreases n,
{
    if n > 0 {
        lemma_main_lines_drawable(pos, label, lines, (n - 1) as nat);
        let before = main_lines_upto(pos, label, lines, (n - 1) as nat);
        if line_fits(lines[n - 1]) {
            lemma_all_drawable_concat(before, seq![main_line(pos, label, lines[n - 1], n - 1)]);
            assert(before.push(main_line(pos, label, lines[n - 1], n - 1)) =~= before
                + seq![main_line(pos, label, lines[n - 1], n - 1)]);
        }
    }
}

/// Every step for a key that can be drawn can be carried out.
pub proof fn lemma_key_ops_drawable(pos: KeyPosition, label: LabelView)
    requires
        paintable(pos),
    ensures
        all_drawable(key_ops(pos, label)),
{
    if label.main_text.len() > 0 {
        let lines = split(label.main_text, '\n');
        lemma_main_lines_drawable(pos, label, lines, lines.len());
    }
    let b = key_box(pos, label);
    assert(all_drawable(b)) by {
        assert forall|i: int| 0 <= i < b.len() implies (#[trigger] b[i]).drawable() by {
            assert(b[i] == b[0] || b[i] == b[1] || b[i] == b[2] || b[i] == b[3] || b[i] == b[4]);
        }
    }
    lemma_all_drawable_concat(b, main_lines(pos, label));
    lemma_all_drawable_concat(b + main_lines(pos, label), sub_line(pos, label));
}

/// Appends the steps for one key to `ops`.
pub fn push_key_ops(pos: &KeyPosition, label: &KeyLabel, ops: &mut Vec<DrawOp>)
    requires
        paintable(*pos),
    ensures
        ops_view(final(ops)@) == ops_view(old(ops)@) + key_ops(*pos, label@),
{
    let ghost before = ops_view(ops@);
    let (fill, border) = key_colors(label);
    ops.push(
        DrawOp::Fill {
            x: pos.x + 1,
            y: pos.y + 1,
            width: pos.width - 2,
            height: pos.height - 2,
            color: fill,
        },
    );
    ops.push(DrawOp::Fill { x: pos.x, y: pos.y, width: pos.width, height: 1, color: border });
    ops.push(
        DrawOp::Fill {
            x: pos.x,
            y: ((pos.y as i64) + (pos.height as i64) - 1) as i32,
            width: pos.width,
            height: 1,
            color: border,
        },
    );
    ops.push(DrawOp::Fill { x: pos.x, y: pos.y, width: 1, height: pos.height, color: border });
    ops.push(
        DrawOp::Fill {
            x: ((pos.x as i64) + (pos.width as i64) - 1) as i32,
            y: pos.y,
            width: 1,
            height: pos.height,
            color: border,
        },
    );
    assert(ops_view(ops@) =~= before + key_box(*pos, label@));
    if !label.main_text.as_str().is_empty() {
        let ink = main_ink_of(label);
        let scale = main_scale_of(label);
        let text = chars_of(label.main_text.as_str());
        let lines = split_of(text.as_slice(), '\n');
        let ghost boxed = ops_view(ops@);
        let mut i: usize = 0;
        assert(ops_view(ops@) =~= boxed + main_lines_upto(*pos, label@, views(lines@), 0));
        while i < lines.len()
            invariant
                i <= lines.len(),
                views(lines@) == split(label@.main_text, '\n'),
                label@.main_text.len() > 0,
                scale == main_scale(label@),
                ink == main_ink(label@),
                ops_view(ops@) == boxed + main_lines_upto(
                    *pos,
                    label@,
                    views(lines@),
                    i as nat,
                ),
            decreases lines.len() - i,
        {
            let line = &lines[i];
            assert(views(lines@)[i as int] == line@);
            let ghost so_far = ops_view(ops@);
            if line_fits_of(line.as_slice()) {
                ops.push(
                    DrawOp::Text {
                        x: centred_x_of(pos.x, pos.width, line.as_slice(), scale),
                        y: line_y_of(pos.y, i),
                        scale,
                        color: ink,
                        text: string_of(line.as_slice()),
                    },
                );
                assert(ops_view(ops@) =~= so_far.push(
                    main_line(*pos, label@, line@, i as int),
                ));
            }
            assert(ops_view(ops@) =~= boxed + main_lines_upto(
                *pos,
                label@,
                views(lines@),
                (i + 1) as nat,
            ));
            i += 1;
        }
    }
    assert(ops_view(ops@) =~= before + key_box(*pos, label@) + main_lines(*pos, label@));
    let ghost lined = ops_view(ops@);
    match &label.sub_text {
        Some(sub) => {
            let text = chars_of(sub.as_str());
            if line_fits_of(text.as_slice()) {
                ops.push(
                    DrawOp::Text {
                        x: centred_x_of(pos.x, pos.width, text.as_slice(), SCALE_SUB),
                        y: sub_y_of(pos.y, pos.height),
                        scale: SCALE_SUB,
                        color: sub_ink_of(),
                        text: string_of(text.as_slice()),
                    },
                );
            }
            assert(ops_view(ops@) =~= lined + sub_line(*pos, label@));
        },
        None => {
            assert(ops_view(ops@) =~= lined + sub_line(*pos, label@));
        },
    }
    assert(ops_view(ops@) =~= before + key_ops(*pos, label@));
}

/// Every step for a row of keys that can be drawn can be carried out.
pub proof fn lemma_row_ops_drawable(
    tokens: Seq<TokenView>,
    places: Seq<Option<KeyPosition>>,
    tap_dance: Seq<Seq<TokenView>>,
    n: nat,
)
    requires
        forall|c: int| 0 <= c < places.len() && (#[trigger] places[c]) is Some ==> paintable(places[c]->0),
    ensures
        all_drawable(row_ops(tokens, places, tap_dance, n)),
    decreases n,
{
    if n > 0 {
        let c = n - 1;
        lemma_row_ops_drawable(tokens, places, tap_dance, c as nat);
        if c < tokens.len() && c < places.len() && places[c] is Some {
            lemma_key_ops_drawable(places[c]->0, resolve_label(tokens[c], tap_dance));
            lemma_all_drawable_concat(
                row_ops(tokens, places, tap_dance, c as nat),
                key_ops(places[c]->0, resolve_label(tokens[c], tap_dance)),
            );
        }
    }
}

/// Every step for a layer on a grid whose keys can be drawn can be carried
/// out.
pub proof fn lemma_layer_ops_drawable(
    layer: Seq<Seq<TokenView>>,
    grid: KeyGrid,
    tap_dance: Seq<Seq<TokenView>>,
    n: nat,
)
    requires
        grid_paintable(grid),
    ensures
        all_drawable(layer_ops(layer, grid, tap_dance, n)),
    decreases n,
{
    if n > 0 {
        let r = n - 1;
        lemma_layer_ops_drawable(layer, grid, tap_dance, r as nat);
        if r < layer.len() && r < grid.len() {
            assert forall|c: int| 0 <= c < grid[r].len() && (#[trigger] grid[r][c]) is Some implies paintable(
                grid[r][c]->0,
            ) by {}
            lemma_row_ops_drawable(layer[r], grid[r], tap_dance, layer[r].len());
            lemma_all_drawable_concat(
                layer_ops(layer, grid, tap_dance, r as nat),
                row_ops(layer[r], grid[r], tap_dance, layer[r].len()),
            );
        }
    }
}

/// The steps that draw the base layer of `config` on the key grid
/// `positions`. Rows and columns that only one of the two has are passed
/// over, and so are the places where the grid holds no key.
pub fn legend_ops(config: &VialConfig, positions: &Vec<Vec<Option<KeyPosition>>>) -> (ops: Vec<
    DrawOp,
>)
    requires
        grid_paintable(grid_view(positions@)),
    ensures
        ops_view(ops@) == scene(config@, grid_view(positions@)),
        all_drawable(ops_view(ops@)),
{
    let ghost layer = config@.base_layer();
    let ghost grid = grid_view(positions@);
    let ghost tap_dance = config@.tap_dance;
    let mut ops: Vec<DrawOp> = Vec::new();
    proof {
        lemma_layer_ops_drawable(layer, grid, tap_dance, layer.len());
    }
    if config.layout.len() == 0 {
        assert(ops_view(ops@) =~= scene(config@, grid));
        return ops;
    }
    let layer0 = &config.layout[0];
    assert(layer =~= layer0.deep_view());
    let mut r: usize = 0;
    assert(ops_view(ops@) =~= layer_ops(layer, grid, tap_dance, 0));
    while r < layer0.len()
        invariant
            r <= layer0.len(),
            layer == layer0.deep_view(),
            grid == grid_view(positions@),
            tap_dance == config@.tap_dance,
            grid_paintable(grid),
            ops_view(ops@) == layer_ops(layer, grid, tap_dance, r as nat),
        decreases layer0.len() - r,
    {
        let ghost above = ops_view(ops@);
        if r < positions.len() {
            let row = &layer0[r];
            let places = &positions[r];
            assert(layer[r as int] =~= row.deep_view());
            assert(grid[r as int] == places@);
            let mut c: usize = 0;
            assert(ops_view(ops@) =~= above + row_ops(layer[r as int], grid[r as int], tap_dance, 0));
            while c < row.len()
                invariant
                    c <= row.len(),
                    r < layer.len(),
                    r < grid.len(),
                    layer[r as int] == row.deep_view(),
                    grid[r as int] == places@,
                    tap_dance == config@.tap_dance,
                    grid_paintable(grid),
                    ops_view(ops@) == above + row_ops(
                        layer[r as int],
                        grid[r as int],
                        tap_dance,
                        c as nat,
                    ),
                decreases row.len() - c,
            {
                let ghost left = ops_view(ops@);
                if c < places.len() {
                    if let Some(pos) = &places[c] {
                        assert(grid[r as int][c as int] is Some);
                        let label = keycode_to_label(&row[c], config);
                        push_key_ops(pos, &label, &mut ops);
                        assert(layer[r as int][c as int] == row@[c as int]@);
                        assert(ops_view(ops@) =~= above + row_ops(
                            layer[r as int],
                            grid[r as int],
                            tap_dance,
                            (c + 1) as nat,
                        ));
                    }
                }
                c += 1;
            }
        }
        r += 1;
    }
    assert(layer.len() == layer0.len());
    ops
}

/// The token that a row gives to column `c`, if it has that column.
pub open spec fn cell_at(tokens: Seq<TokenView>, c: int) -> Option<TokenView> {
    if 0 <= c < tokens.len() {
        Some(tokens[c])
    } else {
        None
    }
}

/// The token that a layer gives to the place `(r, c)`, if it has that row
/// and the row that column.
pub open spec fn token_at(layer: Seq<Seq<TokenView>>, r: int, c: int) -> Option<TokenView> {
    if 0 <= r < layer.len() {
        cell_at(layer[r], c)
    } else {
        None
    }
}

/// Whether two layers give the same token, or both none, to every place
/// where `grid` holds a key.
pub open spec fn same_keys(a: Seq<Seq<TokenView>>, b: Seq<Seq<TokenView>>, grid: KeyGrid) -> bool {
    forall|r: int, c: int|
        0 <= r < grid.len() && 0 <= c < grid[r].len() && (#[trigger] grid[r][c]) is Some
            ==> token_at(a, r, c) == token_at(b, r, c)
}

/// Columns beyond the end of a row add no step.
pub proof fn lemma_row_ops_past_tokens(
    tokens: Seq<TokenView>,
    places: Seq<Option<KeyPosition>>,
    tap_dance: Seq<Seq<TokenView>>,
    n: nat,
)
    requires
        n >= tokens.len(),
    ensures
        row_ops(tokens, places, tap_dance, n) == row_ops(tokens, places, tap_dance, tokens.len()),
    decreases n,
{
    if n > tokens.len() {
        lemma_row_ops_past_tokens(tokens, places, tap_dance, (n - 1) as nat);
    }
}

/// Two rows that give the same token to every key of a grid row have the
/// same steps, column for column.
pub proof fn lemma_row_ops_same_cells(
    a: Seq<TokenView>,
    b: Seq<TokenView>,
    places: Seq<Option<KeyPosition>>,
    tap_dance: Seq<Seq<TokenView>>,
    n: nat,
)
    requires
        forall|c: int|
            0 <= c < places.len() && (#[trigger] places[c]) is Some ==> cell_at(a, c) == cell_at(
                b,
                c,
            ),
    ensures
        row_ops(a, places, tap_dance, n) == row_ops(b, places, tap_dance, n),
    decreases n,
{
    if n > 0 {
        lemma_row_ops_same_cells(a, b, places, tap_dance, (n - 1) as nat);
        let c = n - 1;
        if c < places.len() && places[c] is Some {
            assert(cell_at(a, c) == cell_at(b, c));
        }
    }
}

/// Two rows that give the same token to every key of a grid row have the
/// same steps, however long each is.
pub proof fn lemma_row_ops_same_keys(
    a: Seq<TokenView>,
    b: Seq<TokenView>,
    places: Seq<Option<KeyPosition>>,
    tap_dance: Seq<Seq<TokenView>>,
)
    requires
        forall|c: int|
            0 <= c < places.len() && (#[trigger] places[c]) is Some ==> cell_at(a, c) == cell_at(
                b,
                c,
            ),
    ensures
        row_ops(a, places, tap_dance, a.len()) == row_ops(b, places, tap_dance, b.len()),
{
    let n = if a.len() >= b.len() {
        a.len()
    } else {
        b.len()
    };
    lemma_row_ops_past_tokens(a, places, tap_dance, n);
    lemma_row_ops_past_tokens(b, places, tap_dance, n);
    lemma_row_ops_same_cells(a, b, places, tap_dance, n);
}

/// Rows beyond the end of a layer add no step.
pub proof fn lemma_layer_ops_past_rows(
    layer: Seq<Seq<TokenView>>,
    grid: KeyGrid,
    tap_dance: Seq<Seq<TokenView>>,
    n: nat,
)
    requires
        n >= layer.len(),
    ensures
        layer_ops(layer, grid, tap_dance, n) == layer_ops(layer, grid, tap_dance, layer.len()),
    decreases n,
{
    if n > layer.len() {
        lemma_layer_ops_past_rows(layer, grid, tap_dance, (n - 1) as nat);
    }
}

/// Two layers with the same keys have the same steps, row for row.
pub proof fn lemma_layer_ops_same_rows(
    a: Seq<Seq<TokenView>>,
    b: Seq<Seq<TokenView>>,
    grid: KeyGrid,
    tap_dance: Seq<Seq<TokenView>>,
    n: nat,
)
    requires
        same_keys(a, b, grid),
    ensures
        layer_ops(a, grid, tap_dance, n) == layer_ops(b, grid, tap_dance, n),
    decreases n,
{
    if n > 0 {
        lemma_layer_ops_same_rows(a, b, grid, tap_dance, (n - 1) as nat);
        let r = n - 1;
        if r < grid.len() {
            let row_a = if r < a.len() {
                a[r]
            } else {
                Seq::empty()
            };
            let row_b = if r < b.len() {
                b[r]
            } else {
                Seq::empty()
            };
            assert forall|c: int|
                0 <= c < grid[r].len() && (#[trigger] grid[r][c]) is Some implies cell_at(row_a, c)
                == cell_at(row_b, c) by {
                assert(token_at(a, r, c) == token_at(b, r, c));
            }
            lemma_row_ops_same_keys(row_a, row_b, grid[r], tap_dance);
            assert(row_ops(Seq::<TokenView>::empty(), grid[r], tap_dance, 0) =~= Seq::<
                OpView,
            >::empty());
        }
    }
}

/// The steps depend on a layer only through the tokens at the places where
/// the grid holds a key: rows and columns beyond the grid, and tokens at
/// places without a key, change nothing.
pub proof fn lemma_layer_ops_same_keys(
    a: Seq<Seq<TokenView>>,
    b: Seq<Seq<TokenView>>,
    grid: KeyGrid,
    tap_dance: Seq<Seq<TokenView>>,
)
    requires
        same_keys(a, b, grid),
    ensures
        layer_ops(a, grid, tap_dance, a.len()) == layer_ops(b, grid, tap_dance, b.len()),
{
    let n = if a.len() >= b.len() {
        a.len()
    } else {
        b.len()
    };
    lemma_layer_ops_past_rows(a, grid, tap_dance, n);
    lemma_layer_ops_past_rows(b, grid, tap_dance, n);
    lemma_layer_ops_same_rows(a, b, grid, tap_dance, n);
}

} // verus!
