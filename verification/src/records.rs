//! The metadata records of one stored image: the database-shaped records
//! (`DbImage`, `DbImageMetadata`) that persistence stores row by row, and
//! the response-shaped records (`Image`, `ImageMetadata`) handed to
//! callers, where the two location axes are paired into one value.

use vstd::prelude::*;

use crate::exif_read::RawExif;
use crate::gps::{extract_location, spec_location, GpsLocation, SignedDegrees};

verus! {

/// What `chrono::NaiveDateTime::parse_from_str` followed by `timestamp`
/// makes of a text under a format: a function of the two alone.
pub uninterp spec fn datetime_parse_seconds(format: Seq<char>, text: Seq<char>) -> Option<i64>;

/// Relies on chrono::NaiveDateTime::parse_from_str and
/// NaiveDateTime::timestamp: parses a civil timestamp under the given
/// format and counts its seconds since the epoch, or reports that the text
/// does not match the format.
#[verifier::external_body]
fn parse_datetime_seconds(format: &str, text: &str) -> (result: Option<i64>)
    ensures
        result == datetime_parse_seconds(format@, text@),
{
    #[allow(deprecated)]
    chrono::NaiveDateTime::parse_from_str(text, format).ok().map(|t| t.timestamp())
}

/// The metadata columns of one image row, location kept as two separate
/// axis columns, as the database stores them.
#[derive(Clone, Debug)]
pub struct DbImageMetadata {
    pub file_name: String,
    pub size_bytes: u64,
    pub taken_at: Option<i64>,
    pub location_latitude: Option<SignedDegrees>,
    pub location_longitude: Option<SignedDegrees>,
    pub camera_brand: Option<String>,
    pub camera_model: Option<String>,
    pub exposure_time: Option<String>,
    pub f_number: Option<String>,
    pub focal_length: Option<String>,
}

/// One image row as the database holds it.
#[derive(Clone, Debug)]
pub struct DbImage {
    pub key: String,
    pub description: Option<String>,
    pub uploader: String,
    pub uploaded_at: u64,
    pub published_at: Option<u64>,
    pub metadata: DbImageMetadata,
}

/// The metadata of one image as handed to callers: the two location axes
/// are paired, present only together.
#[derive(Clone, Debug)]
pub struct ImageMetadata {
    pub file_name: String,
    pub size_bytes: u64,
    pub taken_at: Option<i64>,
    pub location: Option<GpsLocation>,
    pub camera_brand: Option<String>,
    pub camera_model: Option<String>,
    pub exposure_time: Option<String>,
    pub f_number: Option<String>,
    pub focal_length: Option<String>,
}

/// One image as handed to callers.
#[derive(Clone, Debug)]
pub struct Image {
    pub key: String,
    pub description: Option<String>,
    pub uploader: String,
    pub uploaded_at: u64,
    pub published_at: Option<u64>,
    pub metadata: ImageMetadata,
}

/// The caller-shaped metadata that a database row denotes: every field
/// carried over, the location paired when both axes are present and
/// absent otherwise.
pub open spec fn spec_metadata_from_db(meta: DbImageMetadata) -> ImageMetadata {
    ImageMetadata {
        file_name: meta.file_name,
        size_bytes: meta.size_bytes,
        taken_at: meta.taken_at,
        location: if meta.location_latitude is Some && meta.location_longitude is Some {
            Some(
                GpsLocation {
                    latitude: meta.location_latitude.unwrap(),
                    longitude: meta.location_longitude.unwrap(),
                },
            )
        } else {
            None
        },
        camera_brand: meta.camera_brand,
        camera_model: meta.camera_model,
        exposure_time: meta.exposure_time,
        f_number: meta.f_number,
        focal_length: meta.focal_length,
    }
}

impl From<DbImageMetadata> for ImageMetadata {
    fn from(meta: DbImageMetadata) -> (result: Self) {
        ImageMetadata {
            file_name: meta.file_name,
            size_bytes: meta.size_bytes,
            taken_at: meta.taken_at,
            location: match (meta.location_latitude, meta.location_longitude) {
                (Some(latitude), Some(longitude)) => Some(GpsLocation { latitude, longitude }),
                _ => None,
            },
            camera_brand: meta.camera_brand,
            camera_model: meta.camera_model,
            exposure_time: meta.exposure_time,
            f_number: meta.f_number,
            focal_length: meta.focal_length,
        }
    }
}

impl vstd::std_specs::convert::FromSpecImpl<DbImageMetadata> for ImageMetadata {
    open spec fn obeys_from_spec() -> bool {
        true
    }

    open spec fn from_spec(meta: DbImageMetadata) -> Self {
        spec_metadata_from_db(meta)
    }
}

impl Image {
    /// Turns a database row into the caller-shaped record: every field is
    /// carried over, and the metadata is converted as `spec_metadata_from_db`
    /// says.
    pub fn from_db(db_metadata: DbImage) -> (result: Self)
        ensures
            result.key == db_metadata.key,
            result.description == db_metadata.description,
            result.uploader == db_metadata.uploader,
            result.uploaded_at == db_metadata.uploaded_at,
            result.published_at == db_metadata.published_at,
            result.metadata == spec_metadata_from_db(db_metadata.metadata),
    {
        Self {
            key: db_metadata.key,
            description: db_metadata.description,
            uploader: db_metadata.uploader,
            uploaded_at: db_metadata.uploaded_at,
            published_at: db_metadata.published_at,
            metadata: ImageMetadata::from(db_metadata.metadata),
        }
    }
}

/// The capture timestamp that a raw EXIF reading denotes: the
/// DateTimeOriginal display text parsed under the one accepted format,
/// with no fallback.
pub open spec fn spec_taken_at(taken_at: Option<String>) -> Option<i64> {
    match taken_at {
        Some(text) => datetime_parse_seconds("%Y-%m-%d %H:%M:%S"@, text@),
        None => None,
    }
}

/// Whether the enrichment columns of a metadata record say exactly what an
/// EXIF reading says: with no reading at all, every enrichment column is
/// absent; with one, the location is paired-or-absent and signed by
/// hemisphere, the capture timestamp is the display text parsed under the
/// one accepted format, and the camera and exposure texts are carried as
/// read.
pub open spec fn metadata_matches_exif(meta: DbImageMetadata, raw: Option<RawExif>) -> bool {
    match raw {
        Some(raw) => {
            let location = spec_location(raw.latitude, raw.latitude_ref, raw.longitude, raw.longitude_ref);
            &&& match location {
                Some(location) => meta.location_latitude == Some(location.latitude)
                    && meta.location_longitude == Some(location.longitude),
                None => meta.location_latitude is None && meta.location_longitude is None,
            }
            &&& meta.taken_at == spec_taken_at(raw.taken_at)
            &&& meta.camera_brand == raw.camera_brand
            &&& meta.camera_model == raw.camera_model
            &&& meta.exposure_time == raw.exposure_time
            &&& meta.f_number == raw.f_number
            &&& meta.focal_length == raw.focal_length
        },
        None => {
            &&& meta.location_latitude is None
            &&& meta.location_longitude is None
            &&& meta.taken_at is None
            &&& meta.camera_brand is None
            &&& meta.camera_model is None
            &&& meta.exposure_time is None
            &&& meta.f_number is None
            &&& meta.focal_length is None
        },
    }
}

/// Fills the enrichment columns of a metadata record from an EXIF reading:
/// the location (both axes or neither, signed by hemisphere), the capture
/// timestamp (one exact format, no fallback), and the camera and exposure
/// texts as read. The file name and byte size are left untouched.
pub fn populate_metadata_from_exif(metadata: &mut DbImageMetadata, raw: RawExif)
    ensures
        final(metadata).file_name == old(metadata).file_name,
        final(metadata).size_bytes == old(metadata).size_bytes,
        ({
            let location = spec_location(raw.latitude, raw.latitude_ref, raw.longitude, raw.longitude_ref);
            match location {
                Some(location) => final(metadata).location_latitude == Some(location.latitude)
                    && final(metadata).location_longitude == Some(location.longitude),
                None => final(metadata).location_latitude is None
                    && final(metadata).location_longitude is None,
            }
        }),
        final(metadata).taken_at == spec_taken_at(raw.taken_at),
        final(metadata).camera_brand == raw.camera_brand,
        final(metadata).camera_model == raw.camera_model,
        final(metadata).exposure_time == raw.exposure_time,
        final(metadata).f_number == raw.f_number,
        final(metadata).focal_length == raw.focal_length,
{
    let location = extract_location(&raw.latitude, &raw.latitude_ref, &raw.longitude, &raw.longitude_ref);
    match location {
        Some(location) => {
            metadata.location_latitude = Some(location.latitude);
            metadata.location_longitude = Some(location.longitude);
        },
        None => {
            metadata.location_latitude = None;
            metadata.location_longitude = None;
        },
    }
    metadata.taken_at = match &raw.taken_at {
        Some(text) => parse_datetime_seconds("%Y-%m-%d %H:%M:%S", text.as_str()),
        None => None,
    };
    metadata.camera_brand = raw.camera_brand;
    metadata.camera_model = raw.camera_model;
    metadata.exposure_time = raw.exposure_time;
    metadata.f_number = raw.f_number;
    metadata.focal_length = raw.focal_length;
}

} // verus!
