use photo_ingest::orientation::ExifOrientation;
use photo_ingest::raster::PixelBuffer;

const A: [u8; 3] = [255, 0, 0];
const B: [u8; 3] = [0, 255, 0];
const C: [u8; 3] = [0, 0, 255];
const D: [u8; 3] = [255, 255, 0];

/// A 2x2 raster with the pixels A B / C D.
fn square() -> PixelBuffer {
    let mut samples = Vec::new();
    for pixel in [A, B, C, D] {
        samples.extend_from_slice(&pixel);
    }
    PixelBuffer::from_rgb(2, 2, samples)
}

fn pixels_of(buffer: &PixelBuffer) -> Vec<[u8; 3]> {
    buffer
        .to_rgb()
        .chunks(3)
        .map(|chunk| [chunk[0], chunk[1], chunk[2]])
        .collect()
}

fn resolve(code: u16) -> ExifOrientation {
    ExifOrientation::resolve(code).unwrap()
}

#[test]
fn resolve_recognizes_exactly_the_eight_codes() {
    assert_eq!(resolve(1), ExifOrientation::Normal);
    assert_eq!(resolve(2), ExifOrientation::FlippedNormal);
    assert_eq!(resolve(3), ExifOrientation::UpsideDown);
    assert_eq!(resolve(4), ExifOrientation::FlippedUpsideDown);
    assert_eq!(resolve(5), ExifOrientation::FlippedRotatedLeft);
    assert_eq!(resolve(6), ExifOrientation::RotatedLeft);
    assert_eq!(resolve(7), ExifOrientation::FlippedRotatedRight);
    assert_eq!(resolve(8), ExifOrientation::RotatedRight);
    assert!(ExifOrientation::resolve(0).is_err());
    assert!(ExifOrientation::resolve(9).is_err());
    assert!(ExifOrientation::resolve(1000).is_err());
}

#[test]
fn quarter_turns_swap_asymmetric_dimensions() {
    for code in 1u16..=8 {
        let tall = PixelBuffer::from_rgb(2, 3, vec![0; 2 * 3 * 3]);
        let oriented = resolve(code).apply_to_image(tall);
        if (5..=8).contains(&code) {
            assert_eq!((oriented.width(), oriented.height()), (3, 2), "code {code}");
        } else {
            assert_eq!((oriented.width(), oriented.height()), (2, 3), "code {code}");
        }
    }
}

#[test]
fn normal_keeps_the_pixels() {
    let oriented = resolve(1).apply_to_image(square());
    assert_eq!(pixels_of(&oriented), vec![A, B, C, D]);
}

#[test]
fn flipped_normal_mirrors_each_row() {
    let oriented = resolve(2).apply_to_image(square());
    assert_eq!(pixels_of(&oriented), vec![B, A, D, C]);
}

#[test]
fn upside_down_reverses_everything() {
    let oriented = resolve(3).apply_to_image(square());
    assert_eq!(pixels_of(&oriented), vec![D, C, B, A]);
}

#[test]
fn flipped_upside_down_mirrors_the_columns() {
    let oriented = resolve(4).apply_to_image(square());
    assert_eq!(pixels_of(&oriented), vec![C, D, A, B]);
}

#[test]
fn flipped_rotated_left_transposes() {
    let oriented = resolve(5).apply_to_image(square());
    assert_eq!(pixels_of(&oriented), vec![A, C, B, D]);
}

#[test]
fn rotated_left_turns_clockwise() {
    let oriented = resolve(6).apply_to_image(square());
    assert_eq!(pixels_of(&oriented), vec![C, A, D, B]);
}

#[test]
fn flipped_rotated_right_transposes_the_other_diagonal() {
    let oriented = resolve(7).apply_to_image(square());
    assert_eq!(pixels_of(&oriented), vec![D, B, C, A]);
}

#[test]
fn rotated_right_turns_counter_clockwise() {
    let oriented = resolve(8).apply_to_image(square());
    assert_eq!(pixels_of(&oriented), vec![B, D, A, C]);
}
