use photo_ingest::auth::{session_is_fresh, Authorize, AUTH_TIME_SECONDS};
use photo_ingest::gps::SignedDegrees;
use photo_ingest::records::{DbImage, DbImageMetadata, Image};
use photo_ingest::site::{DbSettings, Settings};

fn degrees(num: u128, den: u128) -> SignedDegrees {
    SignedDegrees { negative: false, num, den }
}

fn sample_metadata() -> DbImageMetadata {
    DbImageMetadata {
        file_name: String::from("testimage.png"),
        size_bytes: 123,
        taken_at: Some(456),
        location_latitude: Some(degrees(1, 2)),
        location_longitude: Some(degrees(3, 4)),
        camera_brand: Some(String::from("maker")),
        camera_model: Some(String::from("model")),
        exposure_time: Some(String::from("1/60 s")),
        f_number: Some(String::from("f/2.8")),
        focal_length: Some(String::from("35 mm")),
    }
}

fn sample_row(metadata: DbImageMetadata) -> DbImage {
    DbImage {
        key: String::from("key1"),
        description: Some(String::from("Description")),
        uploader: String::from("test"),
        uploaded_at: 5,
        published_at: Some(6),
        metadata,
    }
}

#[test]
fn from_db_carries_every_field_over() {
    let image = Image::from_db(sample_row(sample_metadata()));
    assert_eq!(image.key, "key1");
    assert_eq!(image.description.as_deref(), Some("Description"));
    assert_eq!(image.uploader, "test");
    assert_eq!(image.uploaded_at, 5);
    assert_eq!(image.published_at, Some(6));
    assert_eq!(image.metadata.file_name, "testimage.png");
    assert_eq!(image.metadata.size_bytes, 123);
    assert_eq!(image.metadata.taken_at, Some(456));
    assert_eq!(image.metadata.camera_brand.as_deref(), Some("maker"));
    assert_eq!(image.metadata.camera_model.as_deref(), Some("model"));
    assert_eq!(image.metadata.exposure_time.as_deref(), Some("1/60 s"));
    assert_eq!(image.metadata.f_number.as_deref(), Some("f/2.8"));
    assert_eq!(image.metadata.focal_length.as_deref(), Some("35 mm"));
    let location = image.metadata.location.unwrap();
    assert_eq!(location.latitude, degrees(1, 2));
    assert_eq!(location.longitude, degrees(3, 4));
}

#[test]
fn from_db_pairs_the_location_only_when_both_axes_exist() {
    let mut metadata = sample_metadata();
    metadata.location_longitude = None;
    let image = Image::from_db(sample_row(metadata));
    assert!(image.metadata.location.is_none());

    let mut metadata = sample_metadata();
    metadata.location_latitude = None;
    let image = Image::from_db(sample_row(metadata));
    assert!(image.metadata.location.is_none());
}

#[test]
fn a_session_is_fresh_strictly_within_its_lifetime() {
    assert!(session_is_fresh(0, 9, 10));
    assert!(!session_is_fresh(0, 10, 10));
    assert!(session_is_fresh(100, 100 + AUTH_TIME_SECONDS - 1, AUTH_TIME_SECONDS));
    assert!(!session_is_fresh(100, 100 + AUTH_TIME_SECONDS, AUTH_TIME_SECONDS));
    // Near the top of the range the sum still does not wrap.
    assert!(session_is_fresh(u64::MAX, u64::MAX, 1));
    let caller = Authorize(String::from("test"));
    assert_eq!(caller.0, "test");
}

#[test]
fn settings_from_db_carries_every_field_over() {
    let settings = Settings::from_db(
        DbSettings {
            display_name: Some(String::from("Test")),
            bio: None,
            avatar_key: Some(String::from("avatar")),
            banner_key: None,
            accent_color: String::from("#ffffff"),
            featured_album_key: None,
            country: Some(String::from("somewhere")),
            color_theme: String::from("dark"),
        },
    );
    assert_eq!(settings.display_name.as_deref(), Some("Test"));
    assert!(settings.bio.is_none());
    assert_eq!(settings.avatar_key.as_deref(), Some("avatar"));
    assert!(settings.banner_key.is_none());
    assert_eq!(settings.accent_color, "#ffffff");
    assert!(settings.featured_album_key.is_none());
    assert_eq!(settings.country.as_deref(), Some("somewhere"));
    assert_eq!(settings.color_theme, "dark");
}
