use simple_blit::{
    blit_fixed, blit_fixed_convert, blit_fixed_masked, blit_fixed_whole, blit_fixed_with, crop,
    offset, point, size, Buffer, BufferMut, Crop, Flip, GenericSurface, Offset, Point,
    SingleValueSurface, Size,
};

fn overlap(dest_extent: u32, dest_offset: i32, src_extent: u32, src_offset: i32, length: u32) -> u64 {
    (0..length as i64)
        .filter(|i| {
            let d = dest_offset as i64 + i;
            let s = src_offset as i64 + i;
            0 <= d && d < dest_extent as i64 && 0 <= s && s < src_extent as i64
        })
        .count() as u64
}

#[test]
fn block_lands_inside_the_destination() {
    let mut dest = [0_u8; 25];
    let mut dest_buf = GenericSurface::new(&mut dest, size(5, 5)).unwrap();
    let src = [1_u8; 16];
    let src_buf = GenericSurface::new(&src, size(4, 4)).unwrap();

    blit_fixed(&mut dest_buf, offset(1, 1), &src_buf, offset(0, 0), size(3, 3), Flip::Off);

    let correct: [u8; 25] = [
        0, 0, 0, 0, 0,
        0, 1, 1, 1, 0,
        0, 1, 1, 1, 0,
        0, 1, 1, 1, 0,
        0, 0, 0, 0, 0,
    ];
    assert_eq!(dest, correct);
}

#[test]
fn negative_destination_offset_is_cropped() {
    let mut dest = [0_u8; 25];
    let mut dest_buf = GenericSurface::new(&mut dest, size(5, 5)).unwrap();
    let src = [1_u8; 16];
    let src_buf = GenericSurface::new(&src, size(4, 4)).unwrap();

    blit_fixed(&mut dest_buf, offset(-1, -1), &src_buf, offset(0, 0), size(4, 4), Flip::Off);

    let correct: [u8; 25] = [
        1, 1, 1, 0, 0,
        1, 1, 1, 0, 0,
        1, 1, 1, 0, 0,
        0, 0, 0, 0, 0,
        0, 0, 0, 0, 0,
    ];
    assert_eq!(dest, correct);
}

#[test]
fn crop_takes_the_smallest_of_four() {
    assert_eq!(
        crop(size(5, 5), offset(1, 1), size(4, 4), offset(0, 0), size(3, 3)),
        Crop { dest_start: point(1, 1), src_start: point(0, 0), size: size(3, 3) }
    );
    assert_eq!(
        crop(size(5, 5), offset(-1, -1), size(4, 4), offset(0, 0), size(4, 4)),
        Crop { dest_start: point(0, 0), src_start: point(0, 0), size: size(3, 3) }
    );
    // The destination ends the rectangle on x, the source on y.
    assert_eq!(
        crop(size(5, 9), offset(3, 0), size(8, 6), offset(1, 4), size(7, 7)),
        Crop { dest_start: point(3, 0), src_start: point(1, 4), size: size(2, 2) }
    );
    // A negative source offset cuts the requested length.
    assert_eq!(
        crop(size(9, 9), offset(0, 0), size(9, 9), offset(-2, -7), size(5, 5)),
        Crop { dest_start: point(0, 0), src_start: point(0, 0), size: size(3, 0) }
    );
}

#[test]
fn crop_with_extreme_offsets_is_empty() {
    let far = crop(size(5, 5), offset(i32::MAX, i32::MAX), size(4, 4), offset(0, 0), size(3, 3));
    assert_eq!(far.size, size(0, 0));
    let before = crop(size(5, 5), offset(i32::MIN, 0), size(4, 4), offset(0, i32::MIN), size(u32::MAX, 3));
    assert_eq!(before.dest_start, point(0, 0));
    assert_eq!(before.src_start, point(0, 0));
    assert_eq!(before.size, size(4, 0));
    let past = crop(size(5, 5), offset(5, 0), size(4, 4), offset(0, 4), size(3, 3));
    assert_eq!(past.size, size(0, 0));
}

#[test]
fn crop_never_leaves_either_grid() {
    let offsets = [-7, -2, -1, 0, 1, 2, 3, 6];
    for dest_offset in offsets {
        for src_offset in offsets {
            for length in 0..7 {
                let area = crop(
                    size(4, 1),
                    offset(dest_offset, 0),
                    size(3, 1),
                    offset(src_offset, 0),
                    size(length, 1),
                );
                assert!(area.size.x == 0 || area.dest_start.x + area.size.x <= 4);
                assert!(area.size.x == 0 || area.src_start.x + area.size.x <= 3);
                assert!(area.size.x <= length);
            }
        }
    }
}

#[test]
fn copied_cells_are_the_shared_cells_for_offsets_inside_the_grids() {
    for dest_x in 0..7 {
        for src_y in 0..6 {
            for width in 0..8 {
                let dest_pos = offset(dest_x, 1);
                let src_pos = offset(2, src_y);
                let area = crop(size(5, 4), dest_pos, size(6, 3), src_pos, size(width, 3));
                let expected =
                    overlap(5, dest_pos.x, 6, src_pos.x, width) * overlap(4, dest_pos.y, 3, src_pos.y, 3);
                assert_eq!(area.size.x as u64 * area.size.y as u64, expected);

                let mut dest = GenericSurface::new(vec![0_u8; 20], size(5, 4)).unwrap();
                let src = SingleValueSurface::new(1_u8, size(6, 3));
                let mut calls = 0_u64;
                blit_fixed_with(
                    &mut dest,
                    dest_pos,
                    &src,
                    src_pos,
                    size(width, 3),
                    Flip::Off,
                    |d: &mut u8, s: &u8, _at: Point| {
                        *d += *s;
                        calls += 1;
                    },
                );
                assert_eq!(calls, expected);
                assert_eq!(dest.iter().map(|v| *v as u64).sum::<u64>(), expected);
            }
        }
    }
}

#[test]
fn copied_cells_are_the_shared_cells_for_equally_negative_offsets() {
    for both in [-4, -3, -1] {
        let area = crop(size(5, 5), offset(both, both), size(4, 4), offset(both, both), size(6, 6));
        let expected = overlap(5, both, 4, both, 6);
        assert_eq!(area.size, size(expected as u32, expected as u32));
    }
    // A cut that only one offset makes is not taken from the other grid.
    let uneven = crop(size(5, 1), offset(-1, 0), size(4, 1), offset(0, 0), size(10, 1));
    assert_eq!(uneven.size.x, 4);
    assert_eq!(overlap(5, -1, 4, 0, 10), 3);
}

#[test]
fn empty_crop_leaves_the_destination_unchanged() {
    let mut dest = [3_u8; 12];
    let mut dest_buf = GenericSurface::new(&mut dest, size(4, 3)).unwrap();
    let src = [1_u8; 4];
    let src_buf = GenericSurface::new(&src, size(2, 2)).unwrap();

    blit_fixed(&mut dest_buf, offset(4, 0), &src_buf, offset(0, 0), size(2, 2), Flip::Off);
    blit_fixed(&mut dest_buf, offset(0, 3), &src_buf, offset(0, 0), size(2, 2), Flip::Both);
    blit_fixed(&mut dest_buf, offset(0, 0), &src_buf, offset(2, 0), size(2, 2), Flip::Off);
    blit_fixed(&mut dest_buf, offset(0, 0), &src_buf, offset(0, 0), size(0, 2), Flip::Off);
    blit_fixed(&mut dest_buf, offset(-2, 0), &src_buf, offset(0, 0), size(2, 2), Flip::Off);
    blit_fixed(&mut dest_buf, offset(0, 0), &src_buf, offset(0, -5), size(2, 2), Flip::Vertical);

    assert_eq!(dest, [3; 12]);
}

#[test]
fn flips_mirror_the_destination_side() {
    let src: [u8; 6] = [
        1, 2, 3,
        4, 5, 6,
    ];
    let src_buf = GenericSurface::new(&src, size(3, 2)).unwrap();
    let cases = [
        (Flip::Off, [0, 1, 2, 0, 0, 4, 5, 0]),
        (Flip::Horizontal, [0, 2, 1, 0, 0, 5, 4, 0]),
        (Flip::Vertical, [0, 4, 5, 0, 0, 1, 2, 0]),
        (Flip::Both, [0, 5, 4, 0, 0, 2, 1, 0]),
    ];
    for (flip, correct) in cases {
        let mut dest = [0_u8; 8];
        let mut dest_buf = GenericSurface::new(&mut dest, size(4, 2)).unwrap();
        blit_fixed(&mut dest_buf, offset(1, 0), &src_buf, offset(0, 0), size(2, 2), flip);
        assert_eq!(dest, correct, "{flip:?}");
    }
    assert_eq!(Flip::default(), Flip::Off);
}

#[test]
fn callback_gets_the_position_inside_the_cropped_rectangle() {
    let src: [u8; 4] = [10, 20, 30, 40];
    let src_buf = GenericSurface::new(&src, size(2, 2)).unwrap();
    let mut dest = [0_u32; 6];
    let mut dest_buf = GenericSurface::new(&mut dest, size(3, 2)).unwrap();

    blit_fixed_with(
        &mut dest_buf,
        offset(1, 0),
        &src_buf,
        offset(0, 0),
        size(2, 2),
        Flip::Horizontal,
        |d: &mut u32, s: &u8, at: Point| {
            *d = *s as u32 * 100 + at.x * 10 + at.y;
        },
    );

    assert_eq!(dest, [0, 2010, 1000, 0, 4011, 3001]);
}

#[test]
fn masked_fixed_blit_skips_the_mask_value() {
    let mut dest = [9_u8; 6];
    let mut dest_buf = GenericSurface::new(&mut dest, size(3, 2)).unwrap();
    let src: [u8; 4] = [0, 1, 2, 0];
    let src_buf = GenericSurface::new(&src, size(2, 2)).unwrap();

    blit_fixed_masked(
        &mut dest_buf,
        offset(1, 0),
        &src_buf,
        offset(0, 0),
        size(2, 2),
        Flip::Off,
        &0,
    );

    assert_eq!(dest, [9, 9, 1, 9, 2, 9]);
}

#[test]
fn converting_fixed_blit_widens_the_values() {
    let mut dest = [0_u16; 4];
    let mut dest_buf = GenericSurface::new(&mut dest, size(2, 2)).unwrap();
    let src: [u8; 4] = [1, 2, 3, 255];
    let src_buf = GenericSurface::new(&src, size(2, 2)).unwrap();

    blit_fixed_convert(
        &mut dest_buf,
        offset(0, 0),
        &src_buf,
        offset(1, 0),
        size(2, 2),
        Flip::Off,
    );

    assert_eq!(dest, [2_u16, 0, 255, 0]);
}

#[test]
fn whole_fixed_blit_takes_the_extent_of_the_source() {
    let mut dest = [0_u8; 12];
    let mut dest_buf = GenericSurface::new(&mut dest, size(4, 3)).unwrap();
    let src: [u8; 6] = [1, 2, 3, 4, 5, 6];
    let src_buf = GenericSurface::new(&src, size(3, 2)).unwrap();

    blit_fixed_whole(&mut dest_buf, offset(2, 2), &src_buf, offset(0, 0), Flip::Off);

    assert_eq!(dest, [0, 0, 0, 0, 0, 0, 0, 0, 0, 0, 1, 2]);
}

#[test]
fn buffers_report_their_extent_and_values() {
    let mut buffer = GenericSurface::new(vec![1_u8, 2, 3, 4, 5, 6], size(3, 2)).unwrap();
    assert_eq!(buffer.width(), 3);
    assert_eq!(buffer.height(), 2);
    assert_eq!(Buffer::get(&buffer, 2, 1), &6);
    *BufferMut::get_mut(&mut buffer, 0, 1) = 9;
    assert_eq!(&*buffer, &[1, 2, 3, 9, 5, 6]);

    let fill = SingleValueSurface::new(7_u8, size(4, 5));
    assert_eq!(fill.width(), 4);
    assert_eq!(fill.height(), 5);
    assert_eq!(Buffer::get(&fill, 3, 4), &7);
}

#[test]
fn offsets_hold_their_coordinates() {
    assert_eq!(offset(-3, 4), Offset { x: -3, y: 4 });
    assert_ne!(offset(-3, 4), offset(4, -3));
    assert_eq!(size(1, 2), Size { x: 1, y: 2 });
}
