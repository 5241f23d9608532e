//! The ingestion orchestrator: decode the upload, read its EXIF block,
//! resolve and apply the orientation, run the derivative cascade, lay the
//! storage plan out, and assemble the metadata record for persistence.
//! Decoding happens before any plan exists, so a failed decode leaves
//! nothing to write; EXIF trouble is never fatal.

use vstd::prelude::*;

use crate::cascade::{
    cascade, fits_strictly, step_dims, RenditionSlot, LARGE_BOUND, MEDIUM_BOUND, TINY_BOUND,
};
use crate::error::Error;
use crate::exif_read::{exif_reading, read_raw_exif, RawExif};
use crate::layout::{plan_layout, rendition_action_matches, WriteAction};
use crate::orientation::ExifOrientation;
use crate::raster::{decoded_dims, jpeg_encodable, PixelBuffer};
use crate::records::{metadata_matches_exif, DbImage, DbImageMetadata};

verus! {

/// The result of one successful ingestion: the metadata record to be
/// persisted, and the plan of filesystem writes to be executed, in order.
pub struct Ingestion {
    pub image: DbImage,
    pub plan: Vec<WriteAction>,
}

/// The orientation an EXIF reading calls for: the transform of the first
/// value of the orientation field when that value is a recognized code,
/// and the identity when the field is missing, empty, or unrecognized.
pub open spec fn spec_orientation(raw: Option<RawExif>) -> ExifOrientation {
    match raw {
        Some(raw) => match raw.orientation {
            Some(values) => if values@.len() > 0 && 1 <= values@[0] <= 8 {
                ExifOrientation::resolve_spec(values@[0])
            } else {
                ExifOrientation::Normal
            },
            None => ExifOrientation::Normal,
        },
        None => ExifOrientation::Normal,
    }
}

/// The name the original bytes are stored under: the client-supplied one,
/// or `unknown` when the client supplied none.
pub open spec fn spec_upload_file_name(file_name: Option<String>) -> Seq<char> {
    match file_name {
        Some(name) => name@,
        None => "unknown"@,
    }
}

fn resolve_orientation(raw: &Option<RawExif>) -> (result: ExifOrientation)
    ensures
        result == spec_orientation(*raw),
{
    match raw {
        Some(raw) => match &raw.orientation {
            Some(values) => if values.len() > 0 {
                match ExifOrientation::resolve(values[0]) {
                    Ok(orientation) => orientation,
                    Err(_) => ExifOrientation::Normal,
                }
            } else {
                ExifOrientation::Normal
            },
            None => ExifOrientation::Normal,
        },
        None => ExifOrientation::Normal,
    }
}

/// Ingests an upload whose raster is already decoded and whose EXIF block
/// is already read: applies the orientation, runs the cascade on the
/// corrected raster, plans the layout, and assembles the record. Succeeds
/// exactly when the oriented raster fits a JPEG frame; every derived
/// rendition that is generated lies inside a far smaller box, so only the
/// full rendition's encode can fail.
pub fn ingest_decoded(
    buffer: PixelBuffer,
    raw: Option<RawExif>,
    data: Vec<u8>,
    file_name: Option<String>,
    uploader: String,
    key: String,
    uploaded_at: u64,
    quality: u8,
) -> (result: Result<Ingestion, Error>)
    ensures
        ({
            let orientation = spec_orientation(raw);
            let width = orientation.oriented_width(buffer.spec_width(), buffer.spec_height());
            let height = orientation.oriented_height(buffer.spec_width(), buffer.spec_height());
            result is Ok <==> jpeg_encodable(width, height)
        }),
        match result {
            Ok(outcome) => {
                let orientation = spec_orientation(raw);
                let width = orientation.oriented_width(buffer.spec_width(), buffer.spec_height());
                let height = orientation.oriented_height(buffer.spec_width(), buffer.spec_height());
                let large_dims = step_dims(width, height, LARGE_BOUND, LARGE_BOUND);
                let medium_dims = step_dims(large_dims.0, large_dims.1, MEDIUM_BOUND, MEDIUM_BOUND);
                &&& outcome.image.key == key
                &&& outcome.image.description is None
                &&& outcome.image.uploader == uploader
                &&& outcome.image.uploaded_at == uploaded_at
                &&& outcome.image.published_at is None
                &&& outcome.image.metadata.file_name@ == spec_upload_file_name(file_name)
                &&& outcome.image.metadata.size_bytes == data@.len()
                &&& metadata_matches_exif(outcome.image.metadata, raw)
                &&& outcome.plan@.len() == 6
                &&& outcome.plan@[0] matches WriteAction::CreateDirectories { key: action_key }
                    && action_key@ == key@
                &&& outcome.plan@[1] matches WriteAction::WriteOriginal {
                    key: action_key,
                    file_name: action_file_name,
                    bytes,
                } && action_key@ == key@ && action_file_name@ == spec_upload_file_name(file_name)
                    && bytes@ == data@
                &&& rendition_action_matches(outcome.plan@[2], key@, RenditionSlot::Full, true)
                &&& rendition_action_matches(
                    outcome.plan@[3],
                    key@,
                    RenditionSlot::Large,
                    !fits_strictly(width, height, LARGE_BOUND, LARGE_BOUND),
                )
                &&& rendition_action_matches(
                    outcome.plan@[4],
                    key@,
                    RenditionSlot::Medium,
                    !fits_strictly(large_dims.0, large_dims.1, MEDIUM_BOUND, MEDIUM_BOUND),
                )
                &&& rendition_action_matches(
                    outcome.plan@[5],
                    key@,
                    RenditionSlot::Tiny,
                    !fits_strictly(medium_dims.0, medium_dims.1, TINY_BOUND, TINY_BOUND),
                )
            },
            Err(error) => error matches Error::ImageError(_),
        },
{
    let orientation = resolve_orientation(&raw);
    let oriented = orientation.apply_to_image(buffer);
    let renditions = cascade(oriented);
    let stored_name: String = match file_name {
        Some(name) => name,
        None => "unknown".to_owned(),
    };
    let mut metadata = DbImageMetadata {
        file_name: stored_name,
        size_bytes: data.len() as u64,
        taken_at: None,
        location_latitude: None,
        location_longitude: None,
        camera_brand: None,
        camera_model: None,
        exposure_time: None,
        f_number: None,
        focal_length: None,
    };
    match raw {
        Some(raw) => crate::records::populate_metadata_from_exif(&mut metadata, raw),
        None => {},
    }
    let plan = match plan_layout(key.as_str(), metadata.file_name.as_str(), data, &renditions, quality) {
        Ok(plan) => plan,
        Err(error) => {
            return Err(error);
        },
    };
    let image = DbImage {
        key,
        description: None,
        uploader,
        uploaded_at,
        published_at: None,
        metadata,
    };
    Ok(Ingestion { image, plan })
}

/// Ingests one upload: reads the EXIF block (trouble there degrades to an
/// empty reading, never to failure), decodes the raster (failure here is
/// the client's, and nothing is planned for writing), and hands both to
/// `ingest_decoded`. Succeeds exactly when the bytes decode and the
/// oriented raster fits a JPEG frame; every failure is an `ImageError`.
pub fn ingest(
    data: Vec<u8>,
    file_name: Option<String>,
    uploader: String,
    key: String,
    uploaded_at: u64,
    quality: u8,
) -> (result: Result<Ingestion, Error>)
    ensures
        ({
            let orientation = spec_orientation(exif_reading(data@));
            match decoded_dims(data@) {
                Some(dims) => result is Ok <==> jpeg_encodable(
                    orientation.oriented_width(dims.0, dims.1),
                    orientation.oriented_height(dims.0, dims.1),
                ),
                None => result is Err,
            }
        }),
        match result {
            Ok(outcome) => {
                let dims = decoded_dims(data@).unwrap();
                let orientation = spec_orientation(exif_reading(data@));
                let width = orientation.oriented_width(dims.0, dims.1);
                let height = orientation.oriented_height(dims.0, dims.1);
                let large_dims = step_dims(width, height, LARGE_BOUND, LARGE_BOUND);
                let medium_dims = step_dims(large_dims.0, large_dims.1, MEDIUM_BOUND, MEDIUM_BOUND);
                &&& outcome.image.key == key
                &&& outcome.image.description is None
                &&& outcome.image.uploader == uploader
                &&& outcome.image.uploaded_at == uploaded_at
                &&& outcome.image.published_at is None
                &&& outcome.image.metadata.file_name@ == spec_upload_file_name(file_name)
                &&& outcome.image.metadata.size_bytes == data@.len()
                &&& metadata_matches_exif(outcome.image.metadata, exif_reading(data@))
                &&& outcome.plan@.len() == 6
                &&& outcome.plan@[0] matches WriteAction::CreateDirectories { key: action_key }
                    && action_key@ == key@
                &&& outcome.plan@[1] matches WriteAction::WriteOriginal {
                    key: action_key,
                    file_name: action_file_name,
                    bytes,
                } && action_key@ == key@ && action_file_name@ == spec_upload_file_name(file_name)
                    && bytes@ == data@
                &&& rendition_action_matches(outcome.plan@[2], key@, RenditionSlot::Full, true)
                &&& rendition_action_matches(
                    outcome.plan@[3],
                    key@,
                    RenditionSlot::Large,
                    !fits_strictly(width, height, LARGE_BOUND, LARGE_BOUND),
                )
                &&& rendition_action_matches(
                    outcome.plan@[4],
                    key@,
                    RenditionSlot::Medium,
                    !fits_strictly(large_dims.0, large_dims.1, MEDIUM_BOUND, MEDIUM_BOUND),
                )
                &&& rendition_action_matches(
                    outcome.plan@[5],
                    key@,
                    RenditionSlot::Tiny,
                    !fits_strictly(medium_dims.0, medium_dims.1, TINY_BOUND, TINY_BOUND),
                )
            },
            Err(error) => error matches Error::ImageError(_),
        },
{
    let raw = read_raw_exif(data.as_slice());
    let buffer = match PixelBuffer::decode(data.as_slice()) {
        Ok(buffer) => buffer,
        Err(error) => {
            return Err(Error::ImageError(error));
        },
    };
    ingest_decoded(buffer, raw, data, file_name, uploader, key, uploaded_at, quality)
}

} // verus!

