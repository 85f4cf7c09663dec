use vial_legend::{get_key_positions, KeyPosition};

fn key(x: i32, y: i32) -> Option<KeyPosition> {
    Some(KeyPosition { x, y, width: 78, height: 60, rotation: 0 })
}

fn wide(x: i32, y: i32) -> Option<KeyPosition> {
    Some(KeyPosition { x, y, width: 117, height: 60, rotation: 0 })
}

#[test]
fn grid_has_eight_rows_of_seven_places() {
    let grid = get_key_positions(10);
    assert_eq!(grid.len(), 8);
    for row in &grid {
        assert_eq!(row.len(), 7);
    }
}

#[test]
fn left_thumb_row_starts_with_three_empty_places() {
    let grid = get_key_positions(10);
    assert_eq!(grid[3][0], None);
    assert_eq!(grid[3][1], None);
    assert_eq!(grid[3][2], None);
    assert_eq!(get_key_positions(0)[3][0], None);
    assert_eq!(get_key_positions(u16::MAX)[3][0], None);
}

#[test]
fn exactly_ten_places_hold_no_key() {
    let grid = get_key_positions(10);
    let mut empty = Vec::new();
    for (r, row) in grid.iter().enumerate() {
        for (c, cell) in row.iter().enumerate() {
            if cell.is_none() {
                empty.push((r, c));
            }
        }
    }
    assert_eq!(
        empty,
        vec![(2, 6), (3, 0), (3, 1), (3, 2), (3, 6), (6, 6), (7, 0), (7, 1), (7, 2), (7, 6)]
    );
}

#[test]
fn left_half_with_margin_ten() {
    let grid = get_key_positions(10);
    assert_eq!(
        grid[0],
        vec![key(10, 10), key(92, 10), key(174, 10), key(256, 10), key(338, 10), key(420, 10), key(517, 10)]
    );
    assert_eq!(
        grid[1],
        vec![key(10, 74), key(92, 74), key(174, 74), key(256, 74), key(338, 74), key(420, 74), key(517, 74)]
    );
    assert_eq!(
        grid[2],
        vec![key(10, 138), key(92, 138), key(174, 138), key(256, 138), key(338, 138), key(420, 138), None]
    );
    assert_eq!(grid[3], vec![None, None, None, key(174, 202), key(256, 202), wide(338, 202), None]);
}

#[test]
fn right_half_with_margin_ten() {
    let grid = get_key_positions(10);
    assert_eq!(
        grid[4],
        vec![key(1188, 10), key(1106, 10), key(1024, 10), key(942, 10), key(860, 10), key(778, 10), key(681, 10)]
    );
    assert_eq!(
        grid[5],
        vec![key(1188, 74), key(1106, 74), key(1024, 74), key(942, 74), key(860, 74), key(778, 74), key(681, 74)]
    );
    assert_eq!(
        grid[6],
        vec![key(1188, 138), key(1106, 138), key(1024, 138), key(942, 138), key(860, 138), key(778, 138), None]
    );
    assert_eq!(grid[7], vec![None, None, None, key(942, 202), key(860, 202), wide(739, 202), None]);
}

#[test]
fn margin_shifts_every_key_right_and_down() {
    let base = get_key_positions(0);
    for margin in [1u16, 10, 250, u16::MAX] {
        let grid = get_key_positions(margin);
        for r in 0..8 {
            for c in 0..7 {
                match (base[r][c], grid[r][c]) {
                    (None, None) => {}
                    (Some(a), Some(b)) => {
                        assert_eq!(b.x, a.x + margin as i32);
                        assert_eq!(b.y, a.y + margin as i32);
                        assert_eq!(b.width, a.width);
                        assert_eq!(b.height, a.height);
                        assert_eq!(b.rotation, 0);
                    }
                    _ => panic!("place ({}, {}) changed kind", r, c),
                }
            }
        }
    }
}

#[test]
fn keys_without_margin_start_at_the_origin() {
    let grid = get_key_positions(0);
    assert_eq!(grid[0][0], key(0, 0));
    assert_eq!(grid[1][1], key(82, 64));
    assert_eq!(grid[4][0], key(1178, 0));
    assert_eq!(grid[7][5], wide(729, 192));
}

#[test]
fn keys_of_one_band_do_not_overlap() {
    let grid = get_key_positions(10);
    let mut keys = Vec::new();
    for row in &grid {
        for cell in row {
            if let Some(k) = cell {
                keys.push(*k);
            }
        }
    }
    assert_eq!(keys.len(), 46);
    for (i, a) in keys.iter().enumerate() {
        for b in keys.iter().skip(i + 1) {
            let apart_x = a.x + a.width as i32 <= b.x || b.x + b.width as i32 <= a.x;
            let apart_y = a.y + a.height as i32 <= b.y || b.y + b.height as i32 <= a.y;
            assert!(apart_x || apart_y, "{:?} overlaps {:?}", a, b);
        }
    }
}
