use aviate::geom::{correct_origin, resized_origin, Pos, Rect, Size};

#[test]
fn rect_fitted_moves_and_clips() {
    let r = Rect::new(-5, 90, 20, 30);
    let f = r.fitted(Size { w: 100, h: 100 });
    assert_eq!(f, Rect::new(0, 70, 20, 30));
    let r = Rect::new(10, 10, 200, 50);
    let f = r.fitted(Size { w: 100, h: 100 });
    assert_eq!(f, Rect::new(0, 10, 100, 50));
}

#[test]
fn rect_center_halves_sum() {
    let r = Rect::new(10, -7, 20, 4);
    assert_eq!(r.center(), Pos { x: 15, y: -1 });
}

#[test]
fn rect_fitted_is_idempotent() {
    let size = Size { w: 640, h: 480 };
    for r in [Rect::new(-10, -10, 700, 500), Rect::new(600, 400, 100, 100), Rect::new(5, 5, 10, 10)] {
        let f = r.fitted(size);
        assert!(f.pos.x >= 0 && f.pos.y >= 0);
        assert!(f.pos.x as u32 + f.size.w <= size.w && f.pos.y as u32 + f.size.h <= size.h);
        assert_eq!(f.fitted(size), f);
    }
}

#[test]
fn pos_offsets() {
    let p = Pos { x: i32::MAX - 1, y: 0 }.add(Pos { x: 1, y: -1 });
    assert_eq!(p, Pos { x: i32::MAX, y: -1 });
    let q = Pos::new(3, 4).sub(Pos::new(1, 6));
    assert_eq!(q, Pos { x: 2, y: -2 });
}

#[test]
fn origin_kept_on_chart() {
    let chart = Size::new(1000, 800);
    let view = Size::new(300, 200);
    assert_eq!(correct_origin(Pos::new(-5, -7), chart, view), Pos::new(0, 0));
    assert_eq!(correct_origin(Pos::new(900, 700), chart, view), Pos::new(700, 600));
    assert_eq!(correct_origin(Pos::new(700, 600), chart, view), Pos::new(700, 600));
    assert_eq!(correct_origin(Pos::new(10, 20), chart, view), Pos::new(10, 20));
    // A view wider than the chart starts before it.
    assert_eq!(correct_origin(Pos::new(0, 0), Size::new(100, 100), Size::new(200, 50)), Pos::new(-100, 0));
}

#[test]
fn origin_follows_resize() {
    let prev = Rect::new(0, 0, 400, 300);
    let cur = Rect::new(0, 0, 300, 200);
    assert_eq!(resized_origin(Pos::new(100, 100), prev, cur), Pos::new(150, 150));
    let cur = Rect::new(250, 0, 400, 300);
    assert_eq!(resized_origin(Pos::new(100, 100), prev, cur), Pos::new(350, 100));
}
