use egami::ratio::{aspect_of, Ratio};
use egami::vertex::{vertices_for, Vertex, INDICES};
use egami::viewport::ViewPortMargin;

#[test]
fn equal_aspect_ratios_give_zero_vertical_margin() {
    // Equal values in different representations: 600/800 == 3/4.
    let object = Ratio { num: 600, den: 800 };
    let viewport = Ratio { num: 3, den: 4 };
    match ViewPortMargin::from((object, viewport)) {
        ViewPortMargin::Vertical(m) => {
            assert_eq!(m.num, 0);
            assert!(m.den > 0);
        },
        ViewPortMargin::Horizontal(_) => panic!("equal ratios must fall on the vertical axis"),
    }
}

#[test]
fn wider_object_gives_horizontal_margin_below_half() {
    // object 3/4 is taller than viewport 9/16 as height/width.
    let object = Ratio { num: 3, den: 4 };
    let viewport = Ratio { num: 9, den: 16 };
    match ViewPortMargin::from((object, viewport)) {
        ViewPortMargin::Horizontal(m) => {
            assert!(m.num > 0);
            assert!(2 * m.num < m.den);
        },
        ViewPortMargin::Vertical(_) => panic!("expected a horizontal margin"),
    }
}

#[test]
fn horizontal_margin_grows_with_aspect_quotient() {
    let viewport = Ratio { num: 1, den: 2 };
    let object_narrow = Ratio { num: 3, den: 4 };
    let object_tall = Ratio { num: 3, den: 1 };
    let m_narrow = match ViewPortMargin::from((object_narrow, viewport)) {
        ViewPortMargin::Horizontal(m) => m,
        ViewPortMargin::Vertical(_) => panic!("expected a horizontal margin"),
    };
    let m_tall = match ViewPortMargin::from((object_tall, viewport)) {
        ViewPortMargin::Horizontal(m) => m,
        ViewPortMargin::Vertical(_) => panic!("expected a horizontal margin"),
    };
    // m_narrow < m_tall as rationals, by cross-multiplication.
    assert!(m_narrow.num * m_tall.den < m_tall.num * m_narrow.den);
}

#[test]
fn shorter_object_gives_vertical_margin_below_half() {
    // object 1/4 is much shorter than viewport 2/1.
    let object = Ratio { num: 1, den: 4 };
    let viewport = Ratio { num: 2, den: 1 };
    match ViewPortMargin::from((object, viewport)) {
        ViewPortMargin::Vertical(m) => {
            assert!(m.num > 0);
            assert!(2 * m.num < m.den);
        },
        ViewPortMargin::Horizontal(_) => panic!("expected a vertical margin"),
    }
}

#[test]
fn sixteen_by_nine_viewport_with_four_by_three_frame() {
    // An 800x600 frame in a 16x9 viewport: margin (1 - (9/16)/(600/800))/2
    // = 0.125, horizontal.
    let object = aspect_of((800, 600));
    let viewport = aspect_of((16, 9));
    assert_eq!(object, Ratio { num: 600, den: 800 });
    assert_eq!(viewport, Ratio { num: 9, den: 16 });
    match ViewPortMargin::from((object, viewport)) {
        ViewPortMargin::Horizontal(m) => {
            assert_eq!(m.num, 2400);
            assert_eq!(m.den, 19200);
            // Exactly 1/8.
            assert_eq!(8 * m.num, m.den);
        },
        ViewPortMargin::Vertical(_) => panic!("expected a horizontal margin"),
    }
}

#[test]
fn square_viewport_with_two_by_one_frame() {
    // A 2:1 wide frame has aspect 1/2 < 1, so the vertical branch fires,
    // with margin exactly 1/4.
    let object = aspect_of((2, 1));
    let viewport = aspect_of((1, 1));
    match ViewPortMargin::from((object, viewport)) {
        ViewPortMargin::Vertical(m) => {
            assert_eq!(m.num, 1);
            assert_eq!(m.den, 4);
        },
        ViewPortMargin::Horizontal(_) => panic!("the vertical branch must fire here"),
    }
}

#[test]
fn margin_pair_has_zero_on_the_other_axis() {
    let zero = Ratio { num: 0, den: 1 };
    let third = Ratio { num: 1, den: 3 };
    assert_eq!(ViewPortMargin::Horizontal(third).into(), (third, zero));
    assert_eq!(ViewPortMargin::Vertical(third).into(), (zero, third));
}

#[test]
fn quad_has_four_vertices_with_corner_texture_coords() {
    let quad = vertices_for((100, 50), (100, 100));
    assert_eq!(quad.len(), 4);
    let zero = Ratio { num: 0, den: 1 };
    let one = Ratio { num: 1, den: 1 };
    assert_eq!(quad[0].texture_coords, (zero, zero));
    assert_eq!(quad[1].texture_coords, (one, zero));
    assert_eq!(quad[2].texture_coords, (zero, one));
    assert_eq!(quad[3].texture_coords, (one, one));
    for v in quad.iter() {
        let (x, y) = v.position;
        assert!(-x.den <= x.num && x.num <= x.den);
        assert!(-y.den <= y.num && y.num <= y.den);
    }
}

#[test]
fn quad_positions_for_wide_frame_in_square_viewport() {
    // A 100x50 frame in a square viewport: no horizontal inset, vertical
    // margin 1/4, so y spans [-1/2, 1/2] and x spans [-1, 1].
    let quad = vertices_for((100, 50), (100, 100));
    let (x0, y0) = quad[0].position;
    assert_eq!(x0, Ratio { num: -1, den: 1 });
    assert_eq!(2 * y0.num, y0.den);
    let (x3, y3) = quad[3].position;
    assert_eq!(x3, Ratio { num: 1, den: 1 });
    assert_eq!(2 * y3.num, -y3.den);
}

#[test]
fn full_quad_for_equal_aspect_sizes() {
    // Equal aspect ratios leave no margin: the quad fills [-1, 1] on both
    // axes.
    let quad = vertices_for((640, 480), (320, 240));
    assert_eq!(quad[0].position.0, Ratio { num: -1, den: 1 });
    assert_eq!(quad[1].position.0.num, quad[1].position.0.den);
    assert_eq!(quad[0].position.1.num, quad[0].position.1.den);
    assert_eq!(quad[3].position.1.num, -quad[3].position.1.den);
}

#[test]
fn index_list_is_two_ccw_triangles() {
    assert_eq!(INDICES, [0, 2, 1, 2, 3, 1]);
}

#[test]
fn get_vertices_matches_vertices_for() {
    let by_ratios = Vertex::get_vertices((aspect_of((800, 600)), aspect_of((16, 9))));
    let by_sizes = vertices_for((800, 600), (16, 9));
    assert_eq!(by_ratios, by_sizes);
}
