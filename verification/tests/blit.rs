use simple_blit::{
    blit, blit_convert, blit_masked, blit_whole, blit_with, checked_transformed_size, point, size,
    GenericSurface, Point, SingleValueSurface, Surface, Transform,
};

#[test]
fn simple() {
    let mut dest = [0_u8; 25];

    let mut dest_buf = GenericSurface::new(&mut dest, size(5, 5)).unwrap();

    let src = [1_u8; 16];

    let src_buf = GenericSurface::new(&src, size(4, 4)).unwrap();

    blit(
        &mut dest_buf,
        point(1, 1),
        &src_buf,
        point(0, 0),
        size(3, 3),
        Default::default(),
    );

    let correct: [u8; 25] = [
        0, 0, 0, 0, 0,
        0, 1, 1, 1, 0,
        0, 1, 1, 1, 0,
        0, 1, 1, 1, 0,
        0, 0, 0, 0, 0,
    ];

    assert_eq!(dest, correct);
}

#[test]
fn too_small() {
    let mut dest = [0_u8; 25];

    let mut dest_buf = GenericSurface::new(&mut dest, size(5, 5)).unwrap();

    let src = [1_u8; 16];

    let src_buf = GenericSurface::new(&src, size(4, 4)).unwrap();

    blit(
        &mut dest_buf,
        point(0, 0),
        &src_buf,
        point(0, 0),
        size(6, 6),
        Default::default(),
    );

    let correct: [u8; 25] = [
        1, 1, 1, 1, 0,
        1, 1, 1, 1, 0,
        1, 1, 1, 1, 0,
        1, 1, 1, 1, 0,
        0, 0, 0, 0, 0,
    ];

    assert_eq!(dest, correct);
}

#[test]
fn test_subsurface() {
    let mut dest = [0_u8; 25];

    let mut dest_buf = GenericSurface::new(&mut dest, size(5, 5))
        .unwrap()
        .into_sub_surface(point(1, 1), size(2, 2));

    let src = [1_u8; 16];

    let src_buf = GenericSurface::new(&src, size(4, 4)).unwrap();

    blit_whole(&mut dest_buf, point(0, 0), &src_buf, point(0, 0), &[]);

    let correct: [u8; 25] = [
        0, 0, 0, 0, 0,
        0, 1, 1, 0, 0,
        0, 1, 1, 0, 0,
        0, 0, 0, 0, 0,
        0, 0, 0, 0, 0,
    ];

    assert_eq!(dest, correct);
}

#[test]
fn flip_horizontal_into_interior() {
    let mut dest = [0_u8; 25];
    let mut dest_buf = GenericSurface::new(&mut dest, size(5, 5)).unwrap();
    let src = [1_u8, 2, 3, 1, 2, 3, 1, 2, 3];
    let src_buf = GenericSurface::new(&src, size(3, 3)).unwrap();

    blit(
        &mut dest_buf,
        point(1, 1),
        &src_buf,
        point(0, 0),
        size(3, 3),
        &[Transform::FlipHorizontal],
    );

    let correct: [u8; 25] = [
        0, 0, 0, 0, 0,
        0, 3, 2, 1, 0,
        0, 3, 2, 1, 0,
        0, 3, 2, 1, 0,
        0, 0, 0, 0, 0,
    ];
    assert_eq!(dest, correct);
}

#[test]
fn source_offset_selects_region() {
    let mut dest = [0_u8; 9];
    let mut dest_buf = GenericSurface::new(&mut dest, size(3, 3)).unwrap();
    let src: [u8; 16] = [1, 2, 3, 4, 5, 6, 7, 8, 9, 10, 11, 12, 13, 14, 15, 16];
    let src_buf = GenericSurface::new(&src, size(4, 4)).unwrap();

    blit(&mut dest_buf, point(1, 0), &src_buf, point(2, 1), size(2, 2), &[]);

    assert_eq!(dest, [0, 7, 8, 0, 11, 12, 0, 0, 0]);
}

#[test]
fn source_offset_past_the_source_copies_nothing() {
    let mut dest = [0_u8; 9];
    let mut dest_buf = GenericSurface::new(&mut dest, size(3, 3)).unwrap();
    let src = [5_u8; 4];
    let src_buf = GenericSurface::new(&src, size(2, 2)).unwrap();

    blit(&mut dest_buf, point(0, 0), &src_buf, point(2, 0), size(2, 2), &[]);
    blit(
        &mut dest_buf,
        point(0, 0),
        &src_buf,
        point(u32::MAX, u32::MAX),
        size(2, 2),
        &[],
    );
    blit(
        &mut dest_buf,
        point(u32::MAX, 1),
        &src_buf,
        point(0, 0),
        size(2, 2),
        &[],
    );

    assert_eq!(dest, [0; 9]);
}

#[test]
fn empty_copy_rectangle_changes_nothing() {
    let mut dest = [7_u8; 6];
    let mut dest_buf = GenericSurface::new(&mut dest, size(3, 2)).unwrap();
    let src = [1_u8; 4];
    let src_buf = GenericSurface::new(&src, size(2, 2)).unwrap();

    blit(&mut dest_buf, point(0, 0), &src_buf, point(0, 0), size(0, 2), &[]);
    blit(&mut dest_buf, point(0, 0), &src_buf, point(0, 0), size(2, 0), &[]);
    blit(
        &mut dest_buf,
        point(0, 0),
        &src_buf,
        point(0, 0),
        size(2, 2),
        &[Transform::UpScale { x: 0, y: 3 }],
    );

    assert_eq!(dest, [7; 6]);
}

#[test]
fn flips_and_half_turn_twice_restore_the_arrangement() {
    let src: [u8; 6] = [1, 2, 3, 4, 5, 6];
    let src_buf = GenericSurface::new(&src, size(3, 2)).unwrap();
    let twice = [
        Transform::FlipHorizontal,
        Transform::FlipVertical,
        Transform::FlipBoth,
        Transform::Rotate180,
    ];
    for t in twice {
        let mut dest = [0_u8; 6];
        let mut dest_buf = GenericSurface::new(&mut dest, size(3, 2)).unwrap();
        blit_whole(&mut dest_buf, point(0, 0), &src_buf, point(0, 0), &[t, t]);
        assert_eq!(dest, src, "{t:?} twice");
    }
}

#[test]
fn quarter_turns_cancel() {
    let src: [u8; 6] = [1, 2, 3, 4, 5, 6];
    let src_buf = GenericSurface::new(&src, size(3, 2)).unwrap();
    let chains: [&[Transform]; 4] = [
        &[Transform::Rotate90Cw, Transform::Rotate90Ccw],
        &[Transform::Rotate90Ccw, Transform::Rotate90Cw],
        &[Transform::Rotate90Cw; 4],
        &[Transform::Rotate90Ccw; 4],
    ];
    for chain in chains {
        let mut dest = [0_u8; 6];
        let mut dest_buf = GenericSurface::new(&mut dest, size(3, 2)).unwrap();
        blit_whole(&mut dest_buf, point(0, 0), &src_buf, point(0, 0), chain);
        assert_eq!(dest, src, "{chain:?}");
    }
}

#[test]
fn quarter_turn_clockwise_of_a_wide_source() {
    let src: [u8; 6] = [
        1, 2, 3,
        4, 5, 6,
    ];
    let src_buf = GenericSurface::new(&src, size(3, 2)).unwrap();
    let mut dest = [0_u8; 6];
    let mut dest_buf = GenericSurface::new(&mut dest, size(2, 3)).unwrap();

    blit_whole(
        &mut dest_buf,
        point(0, 0),
        &src_buf,
        point(0, 0),
        &[Transform::Rotate90Cw],
    );

    let correct: [u8; 6] = [
        4, 1,
        5, 2,
        6, 3,
    ];
    assert_eq!(dest, correct);
}

#[test]
fn quarter_turn_counter_clockwise_of_a_wide_source() {
    let src: [u8; 6] = [
        1, 2, 3,
        4, 5, 6,
    ];
    let src_buf = GenericSurface::new(&src, size(3, 2)).unwrap();
    let mut dest = [0_u8; 6];
    let mut dest_buf = GenericSurface::new(&mut dest, size(2, 3)).unwrap();

    blit_whole(
        &mut dest_buf,
        point(0, 0),
        &src_buf,
        point(0, 0),
        &[Transform::Rotate90Ccw],
    );

    let correct: [u8; 6] = [
        3, 6,
        2, 5,
        1, 4,
    ];
    assert_eq!(dest, correct);
}

#[test]
fn order_of_transforms_matters() {
    let src: [u8; 4] = [
        1, 2,
        3, 4,
    ];
    let src_buf = GenericSurface::new(&src, size(2, 2)).unwrap();

    let mut first = [0_u8; 4];
    let mut first_buf = GenericSurface::new(&mut first, size(2, 2)).unwrap();
    blit_whole(
        &mut first_buf,
        point(0, 0),
        &src_buf,
        point(0, 0),
        &[Transform::Rotate90Cw, Transform::FlipHorizontal],
    );
    // Turned clockwise: 3 1 / 4 2; then mirrored left to right.
    assert_eq!(first, [1, 3, 2, 4]);

    let mut second = [0_u8; 4];
    let mut second_buf = GenericSurface::new(&mut second, size(2, 2)).unwrap();
    blit_whole(
        &mut second_buf,
        point(0, 0),
        &src_buf,
        point(0, 0),
        &[Transform::FlipHorizontal, Transform::Rotate90Cw],
    );
    // Mirrored: 2 1 / 4 3; then turned clockwise.
    assert_eq!(second, [4, 2, 3, 1]);
}

#[test]
fn up_scale_fills_blocks() {
    let src: [u8; 4] = [
        1, 2,
        3, 4,
    ];
    let src_buf = GenericSurface::new(&src, size(2, 2)).unwrap();
    let mut dest = [0_u8; 35];
    let mut dest_buf = GenericSurface::new(&mut dest, size(7, 5)).unwrap();
    let mut touched: Vec<(Point, Point)> = Vec::new();

    blit_with(
        &mut dest_buf,
        point(1, 1),
        &src_buf,
        point(0, 0),
        size(2, 2),
        &[Transform::UpScale { x: 3, y: 2 }],
        |d: &mut u8, s: &u8, at: Point| {
            *d = *s;
            touched.push((at, at));
        },
    );

    let correct: [u8; 35] = [
        0, 0, 0, 0, 0, 0, 0,
        0, 1, 1, 1, 2, 2, 2,
        0, 1, 1, 1, 2, 2, 2,
        0, 3, 3, 3, 4, 4, 4,
        0, 3, 3, 3, 4, 4, 4,
    ];
    assert_eq!(dest, correct);
    assert_eq!(touched.len(), 2 * 3 * 2 * 2);
    for origin in [point(0, 0), point(1, 0), point(0, 1), point(1, 1)] {
        assert_eq!(touched.iter().filter(|(at, _)| *at == origin).count(), 3 * 2);
    }
}

#[test]
fn up_scale_is_cut_by_the_destination() {
    let src: [u8; 4] = [
        1, 2,
        3, 4,
    ];
    let src_buf = GenericSurface::new(&src, size(2, 2)).unwrap();
    let mut dest = [0_u8; 9];
    let mut dest_buf = GenericSurface::new(&mut dest, size(3, 3)).unwrap();

    blit_whole(
        &mut dest_buf,
        point(0, 0),
        &src_buf,
        point(0, 0),
        &[Transform::UpScale { x: 2, y: 2 }],
    );

    assert_eq!(dest, [1, 1, 2, 1, 1, 2, 3, 3, 4]);
}

#[test]
fn blit_with_passes_the_position_inside_the_copy_rectangle() {
    let src: [u8; 4] = [10, 20, 30, 40];
    let src_buf = GenericSurface::new(&src, size(2, 2)).unwrap();
    let mut dest = [0_u32; 9];
    let mut dest_buf = GenericSurface::new(&mut dest, size(3, 3)).unwrap();

    blit_with(
        &mut dest_buf,
        point(1, 1),
        &src_buf,
        point(0, 0),
        size(2, 2),
        &[Transform::FlipVertical],
        |d: &mut u32, s: &u8, at: Point| {
            *d = *s as u32 * 100 + at.x * 10 + at.y;
        },
    );

    assert_eq!(dest, [0, 0, 0, 0, 3001, 4011, 0, 1000, 2010]);
}

#[test]
fn masked_blit_skips_the_mask_value() {
    let mut dest = [9_u8; 9];
    let mut dest_buf = GenericSurface::new(&mut dest, size(3, 3)).unwrap();
    let src: [u8; 4] = [0, 1, 2, 0];
    let src_buf = GenericSurface::new(&src, size(2, 2)).unwrap();

    blit_masked(
        &mut dest_buf,
        point(1, 1),
        &src_buf,
        point(0, 0),
        size(2, 2),
        &[],
        &0,
    );

    assert_eq!(dest, [9, 9, 9, 9, 9, 1, 9, 2, 9]);
}

#[test]
fn converting_blit_widens_the_values() {
    let mut dest = [0_u16; 4];
    let mut dest_buf = GenericSurface::new(&mut dest, size(2, 2)).unwrap();
    let src: [u8; 4] = [1, 2, 3, 255];
    let src_buf = GenericSurface::new(&src, size(2, 2)).unwrap();

    blit_convert(
        &mut dest_buf,
        point(0, 0),
        &src_buf,
        point(0, 0),
        size(2, 2),
        &[Transform::Rotate180],
    );

    assert_eq!(dest, [255_u16, 3, 2, 1]);
}

#[test]
fn single_value_source_fills_a_rectangle() {
    let mut dest = [0_u8; 12];
    let mut dest_buf = GenericSurface::new(&mut dest, size(4, 3)).unwrap();
    let fill = SingleValueSurface::new(6_u8, size(2, 2));

    // The copy rectangle is larger than the fill, which ends the copy.
    blit(&mut dest_buf, point(1, 0), &fill, point(0, 0), size(3, 3), &[]);

    assert_eq!(dest, [0, 6, 6, 0, 0, 6, 6, 0, 0, 0, 0, 0]);
}

#[test]
fn blit_into_a_borrowed_window() {
    let mut dest = [0_u8; 16];
    let mut dest_buf = GenericSurface::new(&mut dest, size(4, 4)).unwrap();
    let src = [1_u8; 16];
    let src_buf = GenericSurface::new(&src, size(4, 4)).unwrap();

    {
        let mut window = dest_buf.sub_surface_mut(point(2, 1), size(5, 2));
        blit_whole(&mut window, point(0, 0), &src_buf, point(0, 0), &[]);
    }
    assert_eq!(dest_buf.surface_get(point(2, 1)), Some(&1));

    assert_eq!(dest, [0, 0, 0, 0, 0, 0, 1, 1, 0, 0, 1, 1, 0, 0, 0, 0]);
}

#[test]
fn blit_from_a_window_of_the_source() {
    let mut dest = [0_u8; 4];
    let mut dest_buf = GenericSurface::new(&mut dest, size(2, 2)).unwrap();
    let src: [u8; 9] = [1, 2, 3, 4, 5, 6, 7, 8, 9];
    let src_buf = GenericSurface::new(&src, size(3, 3)).unwrap();

    blit_whole(
        &mut dest_buf,
        point(0, 0),
        &src_buf.offset_surface(point(1, 1)),
        point(0, 0),
        &[],
    );

    assert_eq!(dest, [5, 6, 8, 9]);
}

#[test]
fn transformed_size_that_does_not_fit_is_reported() {
    let big = [Transform::UpScale { x: 65536, y: 1 }, Transform::UpScale { x: 65536, y: 1 }];
    assert_eq!(checked_transformed_size(size(1, 1), &big), None);
    assert_eq!(checked_transformed_size(size(0, 1), &big), Some(size(0, 1)));
    assert_eq!(
        checked_transformed_size(
            size(2, 3),
            &[Transform::UpScale { x: 2, y: 5 }, Transform::Rotate90Cw]
        ),
        Some(size(15, 4))
    );
}
