use vellogd::geometry::{
    calc_y_translate, tile_transform, xy_to_path, xy_to_path_with_hole, PathEl, Point, ONE,
};

fn p(x: i32, y: i32) -> Point {
    Point { x, y }
}

#[test]
fn open_and_closed_paths() {
    let path = xy_to_path(&[0, 10, 20], &[5, 15, 25], false);
    assert_eq!(
        path,
        vec![PathEl::MoveTo(p(0, 5)), PathEl::LineTo(p(10, 15)), PathEl::LineTo(p(20, 25))]
    );
    let closed = xy_to_path(&[0, 10], &[0, 10, 99], true);
    assert_eq!(
        closed,
        vec![PathEl::MoveTo(p(0, 0)), PathEl::LineTo(p(10, 10)), PathEl::ClosePath]
    );
}

#[test]
fn empty_path_has_no_close() {
    assert!(xy_to_path(&[], &[], true).is_empty());
    assert!(xy_to_path(&[1, 2], &[], true).is_empty());
}

#[test]
fn polygon_with_hole() {
    let x = [0, 10, 10, 2, 4, 4];
    let y = [0, 0, 10, 2, 2, 4];
    let path = xy_to_path_with_hole(&x, &y, &[3, 3]);
    assert_eq!(
        path,
        vec![
            PathEl::MoveTo(p(0, 0)),
            PathEl::LineTo(p(10, 0)),
            PathEl::LineTo(p(10, 10)),
            PathEl::ClosePath,
            PathEl::MoveTo(p(2, 2)),
            PathEl::LineTo(p(4, 2)),
            PathEl::LineTo(p(4, 4)),
            PathEl::ClosePath,
        ]
    );
}

#[test]
fn polygon_with_hole_runs_out_of_points() {
    let path = xy_to_path_with_hole(&[0, 1, 2], &[0, 1, 2], &[2, 5, 4]);
    assert_eq!(
        path,
        vec![
            PathEl::MoveTo(p(0, 0)),
            PathEl::LineTo(p(1, 1)),
            PathEl::ClosePath,
            PathEl::MoveTo(p(2, 2)),
            PathEl::ClosePath,
        ]
    );
}

#[test]
fn canvas_transform_flips_bottom_and_top() {
    for h in [0u32, 1, 480, 4096] {
        let t = calc_y_translate(h);
        assert_eq!(t.shift_x, 0);
        // (x, 0) goes to y = H; (x, H) goes to y = 0.
        assert_eq!(t.flip_at - 0, h as i64 * ONE as i64);
        assert_eq!(t.flip_at - (h as i64 * ONE as i64), 0);
    }
    assert_eq!(calc_y_translate(480).flip_at, 480 * 64);
}

#[test]
fn tile_transform_moves_corner_to_origin() {
    let t = tile_transform(100, 200, 50);
    assert_eq!(t.shift_x, -100);
    assert_eq!(t.flip_at, 250);
    // The tile's bottom-left corner lands at (0, height), its top at y = 0.
    assert_eq!((100 + t.shift_x, t.flip_at - 200), (0, 50));
    assert_eq!(t.flip_at - 250, 0);
}
