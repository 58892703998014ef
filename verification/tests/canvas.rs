use place_canvas::canvas::Canvas;
use place_canvas::point::{Color, Point};

const RED: Color = Color { r: 255, g: 0, b: 0 };
const BLUE: Color = Color { r: 0, g: 0, b: 255 };

fn all_cells(canvas: &Canvas) -> Vec<Option<Color>> {
    let mut cells = Vec::new();
    for x in 0..canvas.width() {
        for y in 0..canvas.height() {
            cells.push(canvas.get(x, y));
        }
    }
    cells
}

#[test]
fn a_new_canvas_is_white_everywhere() {
    let canvas = Canvas::new(4, 3).unwrap();
    assert_eq!(canvas.width(), 4);
    assert_eq!(canvas.height(), 3);
    for x in 0..4 {
        for y in 0..3 {
            assert_eq!(canvas.get(x, y), Some(Color::white()));
        }
    }
}

#[test]
fn a_canvas_may_be_empty() {
    let canvas = Canvas::new(0, 5).unwrap();
    assert_eq!(canvas.width(), 0);
    assert_eq!(canvas.height(), 5);
    assert_eq!(canvas.get(0, 0), None);
}

#[test]
fn a_canvas_too_large_to_address_is_not_made() {
    assert!(Canvas::new(u32::MAX, u32::MAX).is_none());
}

#[test]
fn get_outside_the_canvas_is_none() {
    let canvas = Canvas::new(4, 3).unwrap();
    assert_eq!(canvas.get(4, 0), None);
    assert_eq!(canvas.get(0, 3), None);
    assert_eq!(canvas.get(3, 2), Some(Color::white()));
}

#[test]
fn set_changes_one_cell() {
    let mut canvas = Canvas::new(4, 4).unwrap();
    canvas.set(1, 2, RED);
    for x in 0..4 {
        for y in 0..4 {
            let expected = if (x, y) == (1, 2) { RED } else { Color::white() };
            assert_eq!(canvas.get(x, y), Some(expected));
        }
    }
}

#[test]
fn set_outside_the_canvas_changes_nothing() {
    let mut canvas = Canvas::new(4, 4).unwrap();
    canvas.set(2, 2, BLUE);
    let before = all_cells(&canvas);
    canvas.set(4, 0, RED);
    canvas.set(0, 4, RED);
    canvas.set(10, 1, RED);
    canvas.set(u32::MAX, u32::MAX, RED);
    assert_eq!(all_cells(&canvas), before);
    assert_eq!(canvas.width(), 4);
    assert_eq!(canvas.height(), 4);
}

#[test]
fn apply_tells_whether_the_write_was_committed() {
    let mut canvas = Canvas::new(4, 4).unwrap();
    assert!(canvas.apply(&Point::new(3, 3, 255, 0, 0)));
    assert_eq!(canvas.get(3, 3), Some(RED));
    let before = all_cells(&canvas);
    assert!(!canvas.apply(&Point::new(4, 3, 0, 0, 255)));
    assert!(!canvas.apply(&Point::new(3, 4, 0, 0, 255)));
    assert_eq!(all_cells(&canvas), before);
}

#[test]
fn the_last_write_to_a_cell_stays() {
    let mut canvas = Canvas::new(3, 3).unwrap();
    let writes = [
        Point::new(1, 1, 1, 1, 1),
        Point::new(2, 0, 2, 2, 2),
        Point::new(1, 1, 3, 3, 3),
        Point::new(9, 9, 4, 4, 4),
        Point::new(1, 1, 5, 5, 5),
        Point::new(0, 2, 6, 6, 6),
    ];
    for write in &writes {
        canvas.apply(write);
    }
    assert_eq!(canvas.get(1, 1), Some(Color { r: 5, g: 5, b: 5 }));
    assert_eq!(canvas.get(2, 0), Some(Color { r: 2, g: 2, b: 2 }));
    assert_eq!(canvas.get(0, 2), Some(Color { r: 6, g: 6, b: 6 }));
    assert_eq!(canvas.get(0, 0), Some(Color::white()));
    assert_eq!(canvas.get(2, 2), Some(Color::white()));
}

#[test]
fn a_snapshot_is_a_copy() {
    let mut canvas = Canvas::new(2, 2).unwrap();
    canvas.set(0, 1, RED);
    let snapshot = canvas.snapshot();
    canvas.set(0, 1, BLUE);
    canvas.set(1, 1, BLUE);
    assert_eq!(snapshot.width(), 2);
    assert_eq!(snapshot.height(), 2);
    assert_eq!(snapshot.get(0, 1), Some(RED));
    assert_eq!(snapshot.get(1, 1), Some(Color::white()));
    assert_eq!(snapshot.get(2, 0), None);
    assert_eq!(canvas.get(0, 1), Some(BLUE));
}

#[test]
fn loading_a_smaller_picture_leaves_the_rest() {
    let mut saved = Canvas::new(2, 3).unwrap();
    for x in 0..2 {
        for y in 0..3 {
            saved.set(x, y, Color { r: x as u8, g: y as u8, b: 9 });
        }
    }
    let mut canvas = Canvas::new(4, 4).unwrap();
    canvas.set(3, 3, RED);
    canvas.set(0, 0, RED);
    canvas.load_from(&saved.snapshot());
    assert_eq!(canvas.width(), 4);
    assert_eq!(canvas.height(), 4);
    for x in 0..4u32 {
        for y in 0..4u32 {
            let expected = if x < 2 && y < 3 {
                Color { r: x as u8, g: y as u8, b: 9 }
            } else if (x, y) == (3, 3) {
                RED
            } else {
                Color::white()
            };
            assert_eq!(canvas.get(x, y), Some(expected));
        }
    }
}

#[test]
fn loading_a_larger_picture_drops_the_overhang() {
    let mut saved = Canvas::new(5, 5).unwrap();
    for x in 0..5 {
        for y in 0..5 {
            saved.set(x, y, Color { r: x as u8, g: y as u8, b: 1 });
        }
    }
    let mut canvas = Canvas::new(2, 3).unwrap();
    canvas.load_from(&saved.snapshot());
    assert_eq!(canvas.width(), 2);
    assert_eq!(canvas.height(), 3);
    for x in 0..2u32 {
        for y in 0..3u32 {
            assert_eq!(canvas.get(x, y), Some(Color { r: x as u8, g: y as u8, b: 1 }));
        }
    }
}
