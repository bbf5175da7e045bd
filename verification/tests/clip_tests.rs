use sdl3_render::ClippingRect;
use sdl3_render::Rect;

#[test]
fn rect_intersection_overlapping() {
    let a = Rect::new(0, 0, 10, 10);
    let b = Rect::new(5, 5, 10, 10);
    assert_eq!(a.intersection(b), Some(Rect::new(5, 5, 5, 5)));
}

#[test]
fn rect_intersection_contained() {
    let outer = Rect::new(0, 0, 64, 64);
    let inner = Rect::new(8, 8, 4, 4);
    assert_eq!(inner.intersection(outer), Some(inner));
}

#[test]
fn rect_intersection_disjoint() {
    let a = Rect::new(0, 0, 10, 10);
    // rectangles that merely touch along an edge share no point
    let b = Rect::new(10, 0, 10, 10);
    assert_eq!(a.intersection(b), None);
    let c = Rect::new(100, 100, 5, 5);
    assert_eq!(a.intersection(c), None);
}

#[test]
fn clipping_intersection_of_rects() {
    let a = Rect::new(0, 0, 10, 10);
    let b = Rect::new(5, 5, 10, 10);
    let c = Rect::new(50, 50, 10, 10);
    assert_eq!(
        ClippingRect::Rect(a).intersection(ClippingRect::Rect(b)),
        ClippingRect::Rect(Rect::new(5, 5, 5, 5))
    );
    assert_eq!(
        ClippingRect::Rect(a).intersection(ClippingRect::Rect(c)),
        ClippingRect::Zero
    );
}

#[test]
fn clipping_identity_law() {
    let cases = [
        ClippingRect::Rect(Rect::new(1, 2, 3, 4)),
        ClippingRect::Zero,
        ClippingRect::Unbounded,
    ];
    for x in cases {
        assert_eq!(ClippingRect::Unbounded.intersection(x), x);
    }
}

#[test]
fn clipping_absorption_law() {
    let cases = [
        ClippingRect::Rect(Rect::new(1, 2, 3, 4)),
        ClippingRect::Zero,
        ClippingRect::Unbounded,
    ];
    for x in cases {
        assert_eq!(ClippingRect::Zero.intersection(x), ClippingRect::Zero);
    }
}

#[test]
fn clipping_intersect_rect() {
    let pos = Rect::new(2, 2, 4, 4);
    assert_eq!(
        ClippingRect::Unbounded.intersect_rect(Some(pos)),
        ClippingRect::Rect(pos)
    );
    assert_eq!(ClippingRect::Zero.intersect_rect(Some(pos)), ClippingRect::Zero);
    assert_eq!(
        ClippingRect::Rect(Rect::new(0, 0, 3, 3)).intersect_rect(Some(pos)),
        ClippingRect::Rect(Rect::new(2, 2, 1, 1))
    );
    assert_eq!(
        ClippingRect::Rect(Rect::new(20, 20, 3, 3)).intersect_rect(Some(pos)),
        ClippingRect::Zero
    );
    assert_eq!(ClippingRect::Unbounded.intersect_rect(None), ClippingRect::Zero);
    assert_eq!(ClippingRect::Rect(pos).intersect_rect(None), ClippingRect::Zero);
}

#[test]
fn clip_state_raw_round_trip() {
    let cases = [
        ClippingRect::Rect(Rect::new(1, 1, 2, 2)),
        ClippingRect::Zero,
        ClippingRect::Unbounded,
    ];
    for arg in cases {
        let read = match arg.to_ll() {
            Some(raw) => ClippingRect::from_ll(true, raw),
            None => ClippingRect::from_ll(false, Rect { x: 0, y: 0, w: 0, h: 0 }),
        };
        assert_eq!(read, arg);
    }
}

#[test]
fn clipping_from_conversions() {
    let r = Rect::new(1, 2, 3, 4);
    assert_eq!(ClippingRect::from(r), ClippingRect::Rect(r));
    assert_eq!(ClippingRect::from(Some(r)), ClippingRect::Rect(r));
    assert_eq!(ClippingRect::from(None::<Rect>), ClippingRect::Unbounded);
}
