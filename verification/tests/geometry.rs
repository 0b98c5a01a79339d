use bordered::geometry::{compute_geometry, BorderOptions};

fn opts(symmetrical: bool, percent_hundredths: u32) -> BorderOptions {
    BorderOptions { symmetrical, percent_hundredths }
}

#[test]
fn asymmetric_border_is_square() {
    // A 10% border on a 200x100 source: longest side 200 grows to 220 and
    // the canvas is forced square.
    let g = compute_geometry(200, 100, &opts(false, 1000));
    assert_eq!(g.new_width, 220);
    assert_eq!(g.new_height, 220);
    assert_eq!(g.x_offset, 10);
    assert_eq!(g.y_offset, 60);
}

#[test]
fn asymmetric_square_for_many_sizes() {
    let sizes = [(1u32, 1u32), (7, 3), (100, 100), (640, 480), (3, 999)];
    for (w, h) in sizes {
        for p in [0u32, 1, 999, 1000, 2500, 5000] {
            let g = compute_geometry(w, h, &opts(false, p));
            assert_eq!(g.new_width, g.new_height);
        }
    }
}

#[test]
fn symmetric_border_preserves_delta() {
    // Symmetric mode pads both axes by the same delta from the longest side.
    let g = compute_geometry(200, 100, &opts(true, 1000));
    assert_eq!(g.new_width, 220);
    assert_eq!(g.new_height, 120);
    assert_eq!(g.new_width - 200, g.new_height - 100);
    assert_eq!(g.x_offset, 10);
    assert_eq!(g.y_offset, 10);
}

#[test]
fn symmetric_delta_for_many_sizes() {
    let sizes = [(1u32, 1u32), (7, 3), (100, 100), (640, 480), (3, 999)];
    for (w, h) in sizes {
        for p in [0u32, 1, 999, 1000, 2500, 5000] {
            let g = compute_geometry(w, h, &opts(true, p));
            assert_eq!(g.new_width - w, g.new_height - h);
        }
    }
}

#[test]
fn offsets_keep_source_on_canvas() {
    let sizes = [(1u32, 1u32), (7, 3), (100, 100), (640, 480), (3, 999)];
    for (w, h) in sizes {
        for p in [0u32, 1, 999, 1000, 2500, 5000] {
            for sym in [false, true] {
                let g = compute_geometry(w, h, &opts(sym, p));
                assert!(g.x_offset + w <= g.new_width);
                assert!(g.y_offset + h <= g.new_height);
            }
        }
    }
}

#[test]
fn zero_border_symmetric_is_identity() {
    let g = compute_geometry(123, 45, &opts(true, 0));
    assert_eq!(g.new_width, 123);
    assert_eq!(g.new_height, 45);
    assert_eq!(g.x_offset, 0);
    assert_eq!(g.y_offset, 0);
}

#[test]
fn zero_border_asymmetric_is_square_of_longest() {
    // Even at 0% the asymmetric mode squares a non-square source.
    let g = compute_geometry(123, 45, &opts(false, 0));
    assert_eq!(g.new_width, 123);
    assert_eq!(g.new_height, 123);
    assert_eq!(g.x_offset, 0);
    assert_eq!(g.y_offset, 39);
}

#[test]
fn fractional_percentage_truncates_toward_zero() {
    // 12.5% of a longest side of 100 gives 112.5, which truncates to 112.
    let g = compute_geometry(100, 100, &opts(false, 1250));
    assert_eq!(g.new_width, 112);
    assert_eq!(g.new_height, 112);
    // The odd delta of 12 centers with truncating division: offset 6.
    assert_eq!(g.x_offset, 6);
    assert_eq!(g.y_offset, 6);
}

#[test]
fn ten_percent_on_square_source() {
    let g = compute_geometry(100, 100, &opts(true, 1000));
    assert_eq!(g.new_width, 110);
    assert_eq!(g.new_height, 110);
    assert_eq!(g.x_offset, 5);
    assert_eq!(g.y_offset, 5);
}
