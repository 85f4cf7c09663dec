use vial_legend::{get_key_positions, legend_ops, Color, DrawOp, KeyPosition, Token, VialConfig};

fn text(s: &str) -> Token {
    Token::Text(s.to_string())
}

fn keymap(layout: Vec<Vec<Vec<Token>>>, tap_dance: Vec<Vec<Token>>) -> VialConfig {
    VialConfig {
        version: 1,
        uid: 7,
        layout,
        encoder_layout: Vec::new(),
        layout_options: 0,
        macro_data: Vec::new(),
        vial_protocol: 6,
        via_protocol: 9,
        tap_dance,
        combo: Vec::new(),
        key_override: Vec::new(),
        settings: Token::Other,
    }
}

/// A layer of eight rows of seven absent keys, with `token` at `(row, col)`.
fn layer_with(row: usize, col: usize, token: Token) -> Vec<Vec<Token>> {
    let mut layer = vec![vec![Token::Integer(-1); 7]; 8];
    layer[row][col] = token;
    layer
}

fn rgb(r: u8, g: u8, b: u8) -> Color {
    Color { r, g, b }
}

fn fill(op: &DrawOp) -> (i32, i32, u32, u32, Color) {
    match op {
        DrawOp::Fill { x, y, width, height, color } => (*x, *y, *width, *height, *color),
        DrawOp::Text { .. } => panic!("expected a rectangle, found {:?}", op),
    }
}

fn line(op: &DrawOp) -> (i32, i32, u16, Color, String) {
    match op {
        DrawOp::Text { x, y, scale, color, text } => (*x, *y, *scale, *color, text.clone()),
        DrawOp::Fill { .. } => panic!("expected text, found {:?}", op),
    }
}

fn one_key(pos: KeyPosition, token: Token, tap_dance: Vec<Vec<Token>>) -> Vec<DrawOp> {
    let config = keymap(vec![vec![vec![token]]], tap_dance);
    legend_ops(&config, &vec![vec![Some(pos)]])
}

const PLACE: KeyPosition = KeyPosition { x: 92, y: 74, width: 78, height: 60, rotation: 0 };

#[test]
fn letter_at_row_one_column_one_is_an_ordinary_key_with_one_line() {
    let mut layer = vec![vec![Token::Integer(-1); 7]; 8];
    for row in layer.iter_mut() {
        for cell in row.iter_mut() {
            *cell = Token::Other;
        }
    }
    let config = keymap(vec![vec![vec![], vec![Token::Other, text("KC_A")]]], Vec::new());
    let ops = legend_ops(&config, &get_key_positions(10));
    // the place before it holds a blank key: five rectangles and no text
    assert_eq!(ops.len(), 11);
    let key = &ops[5..];
    assert_eq!(fill(&key[0]), (93, 75, 76, 58, rgb(52, 58, 70)));
    assert_eq!(fill(&key[1]), (92, 74, 78, 1, rgb(68, 76, 92)));
    assert_eq!(fill(&key[2]), (92, 133, 78, 1, rgb(68, 76, 92)));
    assert_eq!(fill(&key[3]), (92, 74, 1, 60, rgb(68, 76, 92)));
    assert_eq!(fill(&key[4]), (169, 74, 1, 60, rgb(68, 76, 92)));
    assert_eq!(line(&key[5]), (123, 86, 24, rgb(240, 246, 252), "A".to_string()));
}

#[test]
fn key_without_a_function_is_drawn_blank_and_darkest() {
    let ops = one_key(PLACE, text("KC_NO"), Vec::new());
    assert_eq!(ops.len(), 5);
    assert_eq!(fill(&ops[0]), (93, 75, 76, 58, rgb(40, 42, 48)));
    for op in &ops[1..] {
        assert_eq!(fill(op).4, rgb(50, 53, 61));
    }
    for r in 0..8 {
        for c in 0..7 {
            let grid = get_key_positions(10);
            if let Some(pos) = grid[r][c] {
                let config = keymap(vec![layer_with(r, c, text("KC_NO"))], Vec::new());
                let all = legend_ops(&config, &grid);
                assert_eq!(all.len(), 46 * 5);
                let at = all
                    .iter()
                    .position(|op| fill(op) == (pos.x + 1, pos.y + 1, pos.width - 2, pos.height - 2, rgb(40, 42, 48)));
                assert!(at.is_some(), "no blank key at ({}, {})", r, c);
            }
        }
    }
}

#[test]
fn absent_key_is_drawn_blank() {
    let ops = one_key(PLACE, Token::Integer(-1), Vec::new());
    assert_eq!(ops.len(), 5);
    assert_eq!(fill(&ops[0]).4, rgb(40, 42, 48));
    let ops = one_key(PLACE, Token::Other, Vec::new());
    assert_eq!(ops.len(), 5);
}

#[test]
fn places_without_a_key_are_passed_over() {
    let grid = get_key_positions(10);
    for (r, c) in [(3, 0), (3, 1), (3, 2), (2, 6), (3, 6), (6, 6), (7, 0), (7, 6)] {
        let mut layer: Vec<Vec<Token>> = vec![Vec::new(); 8];
        layer[r] = vec![Token::Other; c];
        layer[r].push(text("KC_A"));
        let config = keymap(vec![layer], Vec::new());
        let ops = legend_ops(&config, &grid);
        for op in &ops {
            if let DrawOp::Text { .. } = op {
                panic!("text drawn for the empty place ({}, {})", r, c);
            }
        }
    }
    let config = keymap(vec![vec![vec![], vec![], vec![], vec![text("KC_A")]]], Vec::new());
    assert_eq!(legend_ops(&config, &grid).len(), 0);
}

#[test]
fn keymap_without_layers_draws_nothing() {
    let config = keymap(Vec::new(), Vec::new());
    assert_eq!(legend_ops(&config, &get_key_positions(10)).len(), 0);
    let config = keymap(vec![Vec::new()], Vec::new());
    assert_eq!(legend_ops(&config, &get_key_positions(10)).len(), 0);
}

#[test]
fn only_the_base_layer_is_drawn() {
    let base = vec![vec![text("KC_A")]];
    let upper = vec![vec![text("KC_B"), text("KC_C")], vec![text("KC_D")]];
    let both = keymap(vec![base.clone(), upper], Vec::new());
    let alone = keymap(vec![base], Vec::new());
    let grid = get_key_positions(10);
    let ops = legend_ops(&both, &grid);
    assert_eq!(ops.len(), 6);
    assert_eq!(format!("{:?}", ops), format!("{:?}", legend_ops(&alone, &grid)));
    assert_eq!(line(&ops[5]).4, "A");
}

#[test]
fn rows_and_columns_beyond_the_grid_are_ignored() {
    let mut layer = vec![vec![Token::Other; 9]; 10];
    layer[0][7] = text("KC_A");
    layer[0][8] = text("KC_B");
    layer[8][0] = text("KC_C");
    layer[9][8] = text("KC_D");
    let config = keymap(vec![layer], Vec::new());
    let ops = legend_ops(&config, &get_key_positions(10));
    assert_eq!(ops.len(), 46 * 5);
}

#[test]
fn grid_smaller_than_the_keymap_limits_what_is_drawn() {
    let layer = vec![vec![text("KC_A"), text("KC_B")], vec![text("KC_C")]];
    let config = keymap(vec![layer], Vec::new());
    let grid = vec![vec![Some(PLACE)]];
    let ops = legend_ops(&config, &grid);
    assert_eq!(ops.len(), 6);
    assert_eq!(line(&ops[5]).4, "A");
    assert_eq!(legend_ops(&config, &Vec::new()).len(), 0);
    assert_eq!(legend_ops(&config, &vec![Vec::new(), vec![Some(PLACE)]]).len(), 6);
}

#[test]
fn keys_are_drawn_row_by_row_and_column_by_column() {
    let layer = vec![vec![text("KC_A"), text("KC_B")], vec![text("KC_C"), text("KC_D")]];
    let config = keymap(vec![layer], Vec::new());
    let ops = legend_ops(&config, &get_key_positions(10));
    let texts: Vec<String> = ops
        .iter()
        .filter_map(|op| match op {
            DrawOp::Text { text, .. } => Some(text.clone()),
            _ => None,
        })
        .collect();
    assert_eq!(texts, vec!["A", "B", "C", "D"]);
    assert_eq!(ops.len(), 24);
}

#[test]
fn legend_of_two_lines_is_stacked_at_the_line_pitch() {
    let ops = one_key(PLACE, text("KC_PSCREEN"), Vec::new());
    assert_eq!(ops.len(), 7);
    // twelve bytes: the smallest size; "Print" and "Screen" are mixed case
    // 92 + (78 - 5 * 14 * 0.6) / 2 = 110, 92 + (78 - 6 * 14 * 0.6) / 2 = 105.8
    assert_eq!(line(&ops[5]), (110, 86, 14, rgb(240, 246, 252), "Print".to_string()));
    assert_eq!(line(&ops[6]), (105, 102, 14, rgb(240, 246, 252), "Screen".to_string()));
}

#[test]
fn layer_tap_key_draws_the_key_above_the_layer() {
    let ops = one_key(PLACE, text("LT1(KC_SPACE)"), Vec::new());
    assert_eq!(ops.len(), 7);
    assert_eq!(fill(&ops[0]), (93, 75, 76, 58, rgb(45, 52, 70)));
    assert_eq!(fill(&ops[1]).4, rgb(65, 73, 96));
    // 92 + (78 - 5 * 20 * 0.65) / 2 = 98.5
    assert_eq!(line(&ops[5]), (98, 86, 20, rgb(156, 220, 254), "SPACE".to_string()));
    // 92 + (78 - 3 * 18 * 0.65) / 2 = 113.45; 74 + 60 * 3 / 4 = 119
    assert_eq!(line(&ops[6]), (113, 119, 18, rgb(156, 163, 175), "LT1".to_string()));
}

#[test]
fn tap_dance_key_draws_tap_above_hold() {
    let tap_dance = vec![vec![text("KC_Z"), text("KC_LALT")]];
    let ops = one_key(PLACE, text("TD(0)"), tap_dance);
    assert_eq!(ops.len(), 7);
    assert_eq!(fill(&ops[0]).4, rgb(45, 52, 70));
    // 92 + (78 - 1 * 24 * 0.65) / 2 = 123.2
    assert_eq!(line(&ops[5]), (123, 86, 24, rgb(156, 220, 254), "Z".to_string()));
    // 92 + (78 - 4 * 18 * 0.6) / 2 = 109.4
    assert_eq!(line(&ops[6]), (109, 119, 18, rgb(156, 163, 175), "LAlt".to_string()));
}

#[test]
fn secondary_legend_is_drawn_under_an_empty_main_legend() {
    let ops = one_key(PLACE, text("LT1(KC_)"), Vec::new());
    assert_eq!(ops.len(), 6);
    assert_eq!(fill(&ops[0]).4, rgb(40, 42, 48));
    assert_eq!(line(&ops[5]), (113, 119, 18, rgb(156, 163, 175), "LT1".to_string()));
}

#[test]
fn wide_thumb_key_centres_its_legend_in_its_own_width() {
    let grid = get_key_positions(10);
    let config = keymap(vec![layer_with(3, 5, text("KC_LCTRL"))], Vec::new());
    let ops = legend_ops(&config, &grid);
    let texts: Vec<&DrawOp> = ops.iter().filter(|op| matches!(op, DrawOp::Text { .. })).collect();
    assert_eq!(texts.len(), 1);
    // 338 + (117 - 5 * 18 * 0.6) / 2 = 369.5
    assert_eq!(line(texts[0]), (369, 214, 18, rgb(240, 246, 252), "LCtrl".to_string()));
}

#[test]
fn number_prints_in_decimal_on_an_ordinary_key() {
    let ops = one_key(PLACE, Token::Integer(42), Vec::new());
    assert_eq!(ops.len(), 6);
    assert_eq!(fill(&ops[0]).4, rgb(52, 58, 70));
    // 92 + (78 - 2 * 18 * 0.65) / 2 = 119.3
    assert_eq!(line(&ops[5]), (119, 86, 18, rgb(240, 246, 252), "42".to_string()));
}

#[test]
fn line_too_long_to_lay_out_is_left_out() {
    let fits = "a".repeat(682);
    let ops = one_key(PLACE, text(&fits), Vec::new());
    assert_eq!(ops.len(), 6);
    let (_, y, scale, _, drawn) = line(&ops[5]);
    assert_eq!((y, scale, drawn.len()), (86, 14, 682));
    let long = "a".repeat(683);
    let ops = one_key(PLACE, text(&long), Vec::new());
    assert_eq!(ops.len(), 5);
    assert_eq!(fill(&ops[0]).4, rgb(52, 58, 70));
}

#[test]
fn lines_beside_one_that_is_too_long_keep_their_places() {
    let mut legend = String::from("top\n");
    legend.push_str(&"b".repeat(683));
    legend.push_str("\nlow");
    let ops = one_key(PLACE, text(&legend), Vec::new());
    assert_eq!(ops.len(), 7);
    assert_eq!(line(&ops[5]).1, 86);
    assert_eq!(line(&ops[5]).4, "top");
    assert_eq!(line(&ops[6]).1, 118);
    assert_eq!(line(&ops[6]).4, "low");
}

#[test]
fn secondary_legend_too_long_to_lay_out_is_left_out() {
    let mut token = "LT".to_string();
    token.push_str(&"x".repeat(680));
    token.push_str("(KC_A)");
    let ops = one_key(PLACE, text(&token), Vec::new());
    assert_eq!(ops.len(), 7);
    assert_eq!(line(&ops[6]).4.len(), 682);
    let mut token = "LT".to_string();
    token.push_str(&"x".repeat(681));
    token.push_str("(KC_A)");
    let ops = one_key(PLACE, text(&token), Vec::new());
    assert_eq!(ops.len(), 6);
    assert_eq!(line(&ops[5]).4, "A");
}

#[test]
fn picture_is_the_same_for_keymaps_with_the_same_keys() {
    let grid = get_key_positions(10);
    let plain = keymap(vec![vec![vec![text("KC_Q"), text("KC_W")], vec![], vec![], vec![]]], Vec::new());
    let mut rows = vec![vec![Token::Other; 9]; 12];
    rows[0] = vec![text("KC_Q"), text("KC_W")];
    rows[1] = Vec::new();
    rows[2] = Vec::new();
    rows[3] = vec![text("KC_A"), text("TD(0)"), Token::Integer(5)];
    rows[8][0] = text("KC_B");
    for row in rows.iter_mut().skip(4).take(4) {
        row.clear();
    }
    let busy = keymap(vec![rows, vec![vec![text("KC_C")]]], Vec::new());
    let a = legend_ops(&plain, &grid);
    let b = legend_ops(&busy, &grid);
    assert_eq!(a.len(), 12);
    assert_eq!(format!("{:?}", a), format!("{:?}", b));
}

#[test]
fn smallest_key_that_can_be_drawn_has_a_one_pixel_inside() {
    let pos = KeyPosition { x: -5, y: i32::MAX - 3, width: 3, height: 3, rotation: 0 };
    let ops = one_key(pos, text("KC_NO"), Vec::new());
    assert_eq!(fill(&ops[0]), (-4, i32::MAX - 2, 1, 1, rgb(40, 42, 48)));
    assert_eq!(fill(&ops[2]), (-5, i32::MAX - 1, 3, 1, rgb(50, 53, 61)));
    assert_eq!(fill(&ops[4]), (-3, i32::MAX - 3, 1, 3, rgb(50, 53, 61)));
}
