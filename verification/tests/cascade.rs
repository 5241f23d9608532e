use photo_ingest::cascade::{cascade, generate_or_symlink_image, ImageKind};
use photo_ingest::raster::PixelBuffer;

fn buffer(width: u32, height: u32) -> PixelBuffer {
    PixelBuffer::from_rgb(width, height, vec![128; (3 * width * height) as usize])
}

fn dims(kind: &ImageKind) -> (u32, u32) {
    (kind.image().width(), kind.image().height())
}

#[test]
fn a_small_source_is_aliased_not_resampled() {
    let chain = cascade(buffer(300, 300));
    assert!(chain.full.generated());
    assert!(!chain.large.generated());
    assert_eq!(dims(&chain.large), (300, 300));
    assert!(!chain.medium.generated());
    assert!(!chain.tiny.generated());
}

#[test]
fn an_overflowing_source_is_resampled_into_the_box() {
    let chain = cascade(buffer(2000, 1000));
    assert!(chain.large.generated());
    assert_eq!(dims(&chain.large), (1280, 640));
    assert!(chain.medium.generated());
    assert_eq!(dims(&chain.medium), (800, 400));
    assert!(chain.tiny.generated());
    assert_eq!(dims(&chain.tiny), (360, 180));
}

#[test]
fn each_step_derives_from_its_predecessor() {
    // 1000x1000 fits inside the large box, so large aliases full; medium is
    // then resampled from large's dimensions, not from a large-box result.
    let chain = cascade(buffer(1000, 1000));
    assert!(!chain.large.generated());
    assert_eq!(dims(&chain.large), (1000, 1000));
    assert!(chain.medium.generated());
    assert_eq!(dims(&chain.medium), (800, 800));
    assert!(chain.tiny.generated());
    assert_eq!(dims(&chain.tiny), (360, 360));
}

#[test]
fn one_overflowing_axis_forces_a_resample() {
    // 1500x100 fits the large box on one axis only: it is generated, and
    // the aspect ratio is preserved.
    let chain = cascade(buffer(1500, 100));
    assert!(chain.large.generated());
    let (width, height) = dims(&chain.large);
    assert_eq!(width, 1280);
    assert!((1..=100).contains(&height));
}

#[test]
fn generate_or_symlink_follows_the_strict_fit_rule() {
    let source = ImageKind::Generated(buffer(1280, 1280));
    // Equal dimensions do not fit strictly: the step resamples.
    let step = generate_or_symlink_image(&source, 1280, 1280, 1280, 1280);
    assert!(step.generated());
    let smaller = ImageKind::Generated(buffer(1279, 1279));
    let step = generate_or_symlink_image(&smaller, 1279, 1279, 1280, 1280);
    assert!(!step.generated());
    assert_eq!(dims(&step), (1279, 1279));
}
