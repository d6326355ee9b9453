use level_editor::level::Level;
use level_editor::level::COLUMNS;
use level_editor::level::HEIGHT_MAX;
use level_editor::level::ROWS;
use level_editor::level::SPRITE_NONE;
use level_editor::level::WIDTH_MAX;

fn assert_all_empty(level: &Level) {
    for row in &level.tiles {
        for &code in row {
            assert_eq!(code, SPRITE_NONE);
        }
    }
}

#[test]
fn new_builds_empty_grid_for_every_size() {
    for width in 1..=WIDTH_MAX {
        for height in 1..=HEIGHT_MAX {
            let level = Level::new(width, height);
            assert_eq!(level.width, width);
            assert_eq!(level.height, height);
            assert_eq!(level.rows(), ROWS * height);
            assert_eq!(level.columns(), COLUMNS * width);
            assert_eq!(level.tiles.len(), ROWS * height);
            for row in &level.tiles {
                assert_eq!(row.len(), COLUMNS * width);
            }
            assert_all_empty(&level);
        }
    }
}

#[test]
fn set_cell_changes_one_cell_only() {
    let mut level = Level::new(2, 2);
    level.set_cell(17, 23, '#');
    for r in 0..level.rows() {
        for c in 0..level.columns() {
            if (r, c) == (17, 23) {
                assert_eq!(level.tiles[r][c], '#');
            } else {
                assert_eq!(level.tiles[r][c], SPRITE_NONE);
            }
        }
    }
}

#[test]
fn serialize_one_screen_empty() {
    let level = Level::new(1, 1);
    let text = level.serialize();
    assert_eq!(text.len(), 15 * 20 + 14);
    assert_eq!(text.len(), 314);
    let line = " ".repeat(20);
    let expected = vec![line; 15].join("\n");
    assert_eq!(text, expected);
}

#[test]
fn serialize_places_codes_by_row_and_column() {
    let mut level = Level::new(1, 1);
    level.set_cell(0, 0, 'A');
    level.set_cell(0, 19, 'B');
    level.set_cell(14, 0, 'C');
    level.set_cell(1, 2, 'D');
    let text = level.serialize();
    let lines: Vec<&str> = text.split('\n').collect();
    assert_eq!(lines.len(), 15);
    assert_eq!(lines[0].chars().next(), Some('A'));
    assert_eq!(lines[0].chars().nth(19), Some('B'));
    assert_eq!(lines[14].chars().next(), Some('C'));
    assert_eq!(lines[1].chars().nth(2), Some('D'));
    for line in &lines {
        assert_eq!(line.chars().count(), 20);
    }
}

#[test]
fn serialize_largest_grid() {
    let level = Level::new(WIDTH_MAX, HEIGHT_MAX);
    let text = level.serialize();
    let rows = ROWS * HEIGHT_MAX;
    let cols = COLUMNS * WIDTH_MAX;
    assert_eq!(text.len(), rows * cols + rows - 1);
    for line in text.split('\n') {
        assert_eq!(line.len(), cols);
        assert!(line.chars().all(|c| c == SPRITE_NONE));
    }
}
