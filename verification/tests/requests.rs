use photo_ingest::error::Error;
use photo_ingest::gps::{GpsLocation, SignedDegrees};
use photo_ingest::requests::{
    PutAlbumRequest, PutImageMetadataRequest, PutPasswordRequest, PutSettingsRequest, SqlValue,
    Timeframe,
};
use photo_ingest::util::{check_length, split_comma_string};

fn empty_album_request() -> PutAlbumRequest {
    PutAlbumRequest {
        title: None,
        description: None,
        cover_key: None,
        author: None,
        draft: None,
        timeframe: None,
        created_at: None,
        image_keys: None,
        tagged_users: None,
    }
}

fn empty_metadata_request() -> PutImageMetadataRequest {
    PutImageMetadataRequest {
        file_name: None,
        taken_at: None,
        location: None,
        camera_brand: None,
        camera_model: None,
        exposure_time: None,
        f_number: None,
        focal_length: None,
        description: None,
    }
}

fn empty_settings_request() -> PutSettingsRequest {
    PutSettingsRequest {
        display_name: None,
        bio: None,
        avatar_key: None,
        banner_key: None,
        accent_color: None,
        featured_album_key: None,
        country: None,
        color_theme: None,
    }
}

fn degrees(num: u128, den: u128) -> SignedDegrees {
    SignedDegrees { negative: false, num, den }
}

#[test]
fn an_empty_album_request_updates_nothing() {
    assert_eq!(empty_album_request().album_update_str(), "");
}

#[test]
fn album_update_str_lists_present_columns_in_order() {
    let request = PutAlbumRequest {
        title: Some(String::from("album")),
        description: Some(String::from("Description")),
        draft: Some(false),
        timeframe: Some(Timeframe { from: Some(10), to: Some(20) }),
        ..empty_album_request()
    };
    assert_eq!(
        request.album_update_str(),
        "title = ?, description = ?, draft = ?, published_at = ?, timeframe_from = ?, timeframe_to = ?",
    );
}

#[test]
fn metadata_update_str_expands_the_location_into_both_axes() {
    let request = PutImageMetadataRequest {
        taken_at: Some(5),
        location: Some(
            GpsLocation { latitude: degrees(1, 2), longitude: degrees(3, 4) },
        ),
        description: Some(String::from("testing")),
        ..empty_metadata_request()
    };
    assert_eq!(
        request.update_str(),
        "taken_at = ?, location_latitude = ?, location_longitude = ?, description = ?",
    );
}

#[test]
fn settings_update_str_lists_present_columns_in_order() {
    let request = PutSettingsRequest {
        bio: Some(String::from("hello")),
        country: Some(String::from("somewhere")),
        ..empty_settings_request()
    };
    assert_eq!(request.update_str(), "bio = ?, country = ?");
    assert_eq!(empty_settings_request().update_str(), "");
}

#[test]
fn album_update_params_bind_one_value_per_clause() {
    let request = PutAlbumRequest {
        title: Some(String::from("album")),
        draft: Some(true),
        timeframe: Some(Timeframe { from: Some(10), to: None }),
        ..empty_album_request()
    };
    let params = request.update_params(42);
    assert_eq!(
        params,
        vec![
            SqlValue::Text(String::from("album")),
            SqlValue::Bool(true),
            SqlValue::UInt(42),
            SqlValue::NullableInt(Some(10)),
            SqlValue::NullableInt(None),
        ],
    );
}

#[test]
fn metadata_update_params_follow_field_order() {
    let request = PutImageMetadataRequest {
        taken_at: Some(5),
        camera_brand: Some(String::from("maker")),
        camera_model: Some(String::from("model")),
        description: Some(String::from("testing")),
        ..empty_metadata_request()
    };
    let params = request.update_params();
    assert_eq!(
        params,
        vec![
            SqlValue::Int(5),
            SqlValue::Text(String::from("maker")),
            SqlValue::Text(String::from("model")),
            SqlValue::Text(String::from("testing")),
        ],
    );
}

#[test]
fn settings_update_params_follow_field_order() {
    let request = PutSettingsRequest {
        bio: Some(String::from("hello")),
        country: Some(String::from("somewhere")),
        ..empty_settings_request()
    };
    let params = request.update_params();
    assert_eq!(
        params,
        vec![
            SqlValue::Text(String::from("hello")),
            SqlValue::Text(String::from("somewhere")),
        ],
    );
}

#[test]
fn a_password_request_carries_both_passwords() {
    let request = PutPasswordRequest {
        old: String::from("password"),
        new: String::from("not password"),
    };
    assert_eq!(request.old, "password");
    assert_eq!(request.new, "not password");
}

#[test]
fn an_inverted_timeframe_is_refused() {
    let inverted = Timeframe { from: Some(20), to: Some(10) };
    assert!(matches!(inverted.validate(), Err(Error::InvalidTimeframe)));
    let ordered = Timeframe { from: Some(10), to: Some(20) };
    assert!(ordered.validate().is_ok());
    let half_open = Timeframe { from: Some(10), to: None };
    assert!(half_open.validate().is_ok());
}

#[test]
fn split_comma_string_splits_at_every_comma() {
    assert_eq!(split_comma_string("a,b,c"), vec!["a", "b", "c"]);
    assert_eq!(split_comma_string("single"), vec!["single"]);
    assert_eq!(split_comma_string(""), vec![""]);
    assert_eq!(split_comma_string("a,,b,"), vec!["a", "", "b", ""]);
}

#[test]
fn check_length_bounds_only_present_fields() {
    assert!(check_length("title", None, 2).is_ok());
    assert!(check_length("title", Some("ab"), 2).is_ok());
    match check_length("title", Some("abc"), 2) {
        Err(Error::TooManyCharacters { field, maximum_length }) => {
            assert_eq!(field, "title");
            assert_eq!(maximum_length, 2);
        },
        other => panic!("unexpected result {other:?}"),
    }
}
