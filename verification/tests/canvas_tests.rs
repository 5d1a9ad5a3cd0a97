use pixel_canvas::PixelCanvas;

#[test]
fn new_buffer_length_matches_dimensions() {
    let c = PixelCanvas::new(1, 1).unwrap();
    assert_eq!(c.pixels.len(), 4);
    let c = PixelCanvas::new(3, 5).unwrap();
    assert_eq!(c.pixels.len(), 60);
    let c = PixelCanvas::new(256, 256).unwrap();
    assert_eq!(c.pixels.len(), 256 * 256 * 4);
    let c = PixelCanvas::new(0, 7).unwrap();
    assert_eq!(c.pixels.len(), 0);
}

#[test]
fn new_buffer_is_zeroed() {
    let c = PixelCanvas::new(9, 4).unwrap();
    assert!(c.pixels.iter().all(|&b| b == 0));
}

#[test]
fn write_rgb_reads_back_opaque() {
    let mut c = PixelCanvas::new(16, 16).unwrap();
    c.write_pixel_rgb(3, 7, 10, 20, 30);
    assert_eq!(c.read_pixel(3, 7), Some([10, 20, 30, 255]));
}

#[test]
fn write_rgba_reads_back_exactly() {
    let mut c = PixelCanvas::new(16, 16).unwrap();
    c.write_pixel_rgba(15, 0, 1, 2, 3, 4);
    assert_eq!(c.read_pixel(15, 0), Some([1, 2, 3, 4]));
    c.write_pixel_rgba(0, 15, 200, 100, 50, 0);
    assert_eq!(c.read_pixel(0, 15), Some([200, 100, 50, 0]));
}

#[test]
fn out_of_bounds_write_changes_nothing() {
    let mut c = PixelCanvas::new(8, 8).unwrap();
    for x in 0..8 {
        for y in 0..8 {
            c.write_pixel_rgba(x, y, x as u8, y as u8, 77, 99);
        }
    }
    let before = c.pixels.clone();
    c.write_pixel_rgb(8, 0, 255, 255, 255);
    c.write_pixel_rgb(0, 8, 255, 255, 255);
    c.write_pixel_rgb(8, 8, 255, 255, 255);
    c.write_pixel_rgba(1000, 2, 255, 255, 255, 255);
    c.write_pixel_rgba(2, u32::MAX, 255, 255, 255, 255);
    assert_eq!(c.pixels, before);
}

#[test]
fn out_of_bounds_read_is_none() {
    let c = PixelCanvas::new(8, 8).unwrap();
    assert_eq!(c.read_pixel(8, 0), None);
    assert_eq!(c.read_pixel(0, 8), None);
    assert_eq!(c.read_pixel(u32::MAX, u32::MAX), None);
}

#[test]
fn clear_reads_zero_small_sizes() {
    for (w, h) in [(1u32, 1u32), (1, 9), (9, 1), (7, 3), (64, 64)] {
        let mut c = PixelCanvas::new(w, h).unwrap();
        for x in 0..w {
            for y in 0..h {
                c.write_pixel_rgba(x, y, 1, 2, 3, 4);
            }
        }
        c.clear();
        for x in 0..w {
            for y in 0..h {
                assert_eq!(c.read_pixel(x, y), Some([0, 0, 0, 0]));
            }
        }
    }
}

#[test]
fn clear_reads_zero_large_size() {
    let mut c = PixelCanvas::new(4096, 4096).unwrap();
    c.write_pixel_rgb(4095, 4095, 9, 9, 9);
    c.write_pixel_rgb(0, 0, 9, 9, 9);
    c.clear();
    assert_eq!(c.read_pixel(0, 0), Some([0, 0, 0, 0]));
    assert_eq!(c.read_pixel(4095, 4095), Some([0, 0, 0, 0]));
    assert_eq!(c.read_pixel(2048, 1024), Some([0, 0, 0, 0]));
}

#[test]
fn resize_discards_and_zeroes() {
    let mut c = PixelCanvas::new(4, 4).unwrap();
    c.write_pixel_rgb(1, 1, 50, 60, 70);
    assert!(c.resize(2, 8));
    assert_eq!(c.pixels.len(), 64);
    assert!(c.pixels.iter().all(|&b| b == 0));
}

#[test]
fn impossible_dimensions_are_refused() {
    assert!(PixelCanvas::new(u32::MAX, u32::MAX).is_none());
    let mut c = PixelCanvas::new(4, 4).unwrap();
    c.write_pixel_rgb(0, 0, 1, 2, 3);
    let before = c.pixels.clone();
    assert!(!c.resize(u32::MAX, u32::MAX));
    assert_eq!((c.width, c.height), (4, 4));
    assert_eq!(c.pixels, before);
}

#[test]
fn write_touches_only_its_pixel() {
    let mut c = PixelCanvas::new(4, 4).unwrap();
    c.write_pixel_rgba(1, 1, 9, 9, 9, 9);
    c.write_pixel_rgba(2, 1, 5, 5, 5, 5);
    assert_eq!(c.read_pixel(1, 1), Some([9, 9, 9, 9]));
    assert_eq!(c.read_pixel(2, 1), Some([5, 5, 5, 5]));
    assert_eq!(c.read_pixel(0, 0), Some([0, 0, 0, 0]));
    assert_eq!(c.read_pixel(1, 2), Some([0, 0, 0, 0]));
}
