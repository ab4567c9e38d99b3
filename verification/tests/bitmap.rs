use ptouch::bitmap::LabelBitmap;
use ptouch::gray::GrayCanvas;

fn corner() -> LabelBitmap {
    let mut bitmap = LabelBitmap::new(3, 2);
    bitmap.set_pixel(0, 0, true);
    bitmap
}

#[test]
fn pixels_outside_are_light_and_cannot_be_set() {
    let mut bitmap = corner();
    bitmap.set_pixel(3, 0, true);
    bitmap.set_pixel(0, 2, true);
    assert!(!bitmap.get_pixel(3, 0));
    assert!(!bitmap.get_pixel(0, 2));
    assert!(!bitmap.get_pixel(0, 1));
    assert!(bitmap.get_pixel(0, 0));
    bitmap.set_pixel(0, 0, false);
    assert!(!bitmap.get_pixel(0, 0));
}

#[test]
fn mirroring_exchanges_the_sides() {
    let bitmap = corner();
    assert!(bitmap.mirrored(true, false).get_pixel(2, 0));
    assert!(bitmap.mirrored(false, true).get_pixel(0, 1));
    assert!(bitmap.mirrored(true, true).get_pixel(2, 1));
    assert!(bitmap.mirrored(false, false).get_pixel(0, 0));
    assert!(bitmap.mirrored(true, true).mirrored(true, true).get_pixel(0, 0));
}

#[test]
fn scaling_takes_the_nearest_pixel() {
    let scaled = corner().scale_to_size(6, 6);
    for y in 0..6 {
        for x in 0..6 {
            assert_eq!(scaled.get_pixel(x, y), x < 2 && y < 3);
        }
    }
    assert!(corner().scale_to_size(1, 1).get_pixel(0, 0));
    assert_eq!(corner().scale_to_size(0, 4).width(), 0);
    assert!(!LabelBitmap::new(0, 0).scale_to_size(2, 2).get_pixel(1, 1));
}

#[test]
fn levels_up_to_the_threshold_are_dark() {
    let gray = GrayCanvas::from_levels(3, 1, vec![126, 127, 128]).unwrap();
    let bitmap = LabelBitmap::from_gray_image(&gray, 127);
    assert!(bitmap.get_pixel(0, 0));
    assert!(bitmap.get_pixel(1, 0));
    assert!(!bitmap.get_pixel(2, 0));
}
