use mandelbrot::palette::bounded_point_color;
use mandelbrot::palette::clamp_channel;
use mandelbrot::palette::get_color;
use mandelbrot::palette::Color;
use mandelbrot::palette::PALETTE_LEN;
use mandelbrot::render::assemble_rows;
use mandelbrot::render::blank_row;
use mandelbrot::render::write_pixel;
use mandelbrot::render::BYTES_PER_PIXEL;
use mandelbrot::render::MAX_ITERATIONS;

#[test]
fn palette_anchor_values() {
    assert_eq!(get_color(0), Color { r: 66, g: 30, b: 15 });
    assert_eq!(get_color(4), Color { r: 0, g: 7, b: 100 });
    assert_eq!(get_color(9), Color { r: 211, g: 236, b: 248 });
    assert_eq!(get_color(12), Color { r: 255, g: 170, b: 0 });
    assert_eq!(get_color(15), Color { r: 106, g: 52, b: 3 });
}

#[test]
fn palette_is_cyclic() {
    for k in 0..64usize {
        assert_eq!(get_color(k), get_color(k + 16));
    }
    assert_eq!(get_color(16), get_color(0));
    assert_eq!(get_color(35), get_color(3));
}

#[test]
fn palette_wraps_near_usize_max() {
    assert_eq!(get_color(usize::MAX), get_color(usize::MAX % 16));
}

#[test]
fn bounded_point_is_white() {
    assert_eq!(bounded_point_color(), Color { r: 255, g: 255, b: 255 });
}

#[test]
fn channel_clamp_saturates_without_wrapping() {
    assert_eq!(clamp_channel(0), 0);
    assert_eq!(clamp_channel(99), 99);
    assert_eq!(clamp_channel(255), 255);
    assert_eq!(clamp_channel(256), 255);
    assert_eq!(clamp_channel(331), 255);
    assert_eq!(clamp_channel(u32::MAX), 255);
}

#[test]
fn configuration_constants() {
    assert_eq!(PALETTE_LEN, 16);
    assert_eq!(MAX_ITERATIONS, 35000);
    assert_eq!(BYTES_PER_PIXEL, 3);
}

#[test]
fn blank_row_is_zeroed() {
    let row = blank_row(5);
    assert_eq!(row.len(), 15);
    assert!(row.iter().all(|&b| b == 0));
    assert_eq!(blank_row(0).len(), 0);
}

#[test]
fn write_pixel_sets_only_its_bytes() {
    let mut row = blank_row(3);
    write_pixel(&mut row, 1, Color { r: 10, g: 20, b: 30 });
    assert_eq!(row, vec![0, 0, 0, 10, 20, 30, 0, 0, 0]);
    write_pixel(&mut row, 0, Color { r: 1, g: 2, b: 3 });
    assert_eq!(row, vec![1, 2, 3, 10, 20, 30, 0, 0, 0]);
}

#[test]
fn assemble_rows_row_major_layout() {
    let mut r0 = blank_row(2);
    write_pixel(&mut r0, 0, Color { r: 1, g: 2, b: 3 });
    write_pixel(&mut r0, 1, Color { r: 4, g: 5, b: 6 });
    let mut r1 = blank_row(2);
    write_pixel(&mut r1, 0, Color { r: 7, g: 8, b: 9 });
    write_pixel(&mut r1, 1, Color { r: 10, g: 11, b: 12 });
    let buf = assemble_rows(&vec![r0, r1], 2);
    assert_eq!(buf, vec![1, 2, 3, 4, 5, 6, 7, 8, 9, 10, 11, 12]);
}

#[test]
fn row_read_back_matches_isolated_render() {
    // A row read out of the full assembly equals the same row assembled alone.
    let width = 4usize;
    let mut rows = Vec::new();
    for y in 0..3usize {
        let mut row = blank_row(width);
        for x in 0..width {
            let c = Color { r: (y * width + x) as u8, g: x as u8, b: y as u8 };
            write_pixel(&mut row, x, c);
        }
        rows.push(row);
    }
    let full = assemble_rows(&rows, width);
    let alone = assemble_rows(&vec![rows[1].clone()], width);
    assert_eq!(&full[3 * width..6 * width], &alone[..]);
    assert_eq!(&full[3 * width..6 * width], &rows[1][..]);
}

#[test]
fn assembly_is_deterministic() {
    let mut rows = Vec::new();
    for y in 0..4usize {
        let mut row = blank_row(3);
        for x in 0..3usize {
            write_pixel(&mut row, x, get_color(y * 3 + x));
        }
        rows.push(row);
    }
    let a = assemble_rows(&rows, 3);
    let b = assemble_rows(&rows, 3);
    assert_eq!(a, b);
}

#[test]
fn assemble_no_rows_gives_empty_buffer() {
    let rows: Vec<Vec<u8>> = Vec::new();
    assert_eq!(assemble_rows(&rows, 7), Vec::<u8>::new());
}
