//! Reading the EXIF block of an upload. The `exif` crate parses the
//! container and hands fields out; each accessor below converts one field
//! into plain values, and `read_raw_exif` gathers them into a `RawExif`.
//! Absence and malformation are never an error here: a field that cannot
//! be read is simply absent.

use vstd::prelude::*;

use crate::gps::UnsignedRational;

verus! {

/// Declares exif::Exif, the parsed EXIF block; a value of it is opaque
/// here and is read only through the field accessors below.
#[verifier::external_type_specification]
#[verifier::external_body]
pub struct ExExif(exif::Exif);

/// The fields of one EXIF block, as plain values. Each is present exactly
/// when the block holds it in the expected form.
pub struct RawExif {
    /// Components of the GPSLatitude field, if present and rational.
    pub latitude: Option<Vec<UnsignedRational>>,
    /// Components of the GPSLongitude field, if present and rational.
    pub longitude: Option<Vec<UnsignedRational>>,
    /// Display form of the GPSLatitudeRef field: `N` or `S` on conforming data.
    pub latitude_ref: Option<String>,
    /// Display form of the GPSLongitudeRef field: `E` or `W` on conforming data.
    pub longitude_ref: Option<String>,
    /// Display form of the DateTimeOriginal field.
    pub taken_at: Option<String>,
    /// The Make field as text.
    pub camera_brand: Option<String>,
    /// The Model field as text.
    pub camera_model: Option<String>,
    /// Display form of the ExposureTime field, unit included.
    pub exposure_time: Option<String>,
    /// Display form of the FNumber field, unit included.
    pub f_number: Option<String>,
    /// Display form of the FocalLength field, unit included.
    pub focal_length: Option<String>,
    /// Values of the Orientation field, if present and in short form.
    pub orientation: Option<Vec<u16>>,
}

/// Relies on exif::Reader::read_from_container: parses the EXIF block out
/// of a container (JPEG, PNG, TIFF and others), or reports that there is
/// none to be had.
#[verifier::external_body]
fn read_exif_block(data: &[u8]) -> (result: Option<exif::Exif>)
{
    let mut reader = std::io::BufReader::new(std::io::Cursor::new(data));
    exif::Reader::new().read_from_container(&mut reader).ok()
}

/// Relies on exif::Exif::get_field for Tag::GPSLatitude: the rational
/// components of the latitude, if the field is present in rational form.
#[verifier::external_body]
fn gps_latitude_parts(block: &exif::Exif) -> (result: Option<Vec<UnsignedRational>>)
{
    match block.get_field(exif::Tag::GPSLatitude, exif::In::PRIMARY) {
        Some(field) => match &field.value {
            exif::Value::Rational(parts) => Some(
                parts.iter().map(|p| UnsignedRational { num: p.num, den: p.denom }).collect(),
            ),
            _ => None,
        },
        None => None,
    }
}

/// Relies on exif::Exif::get_field for Tag::GPSLongitude: the rational
/// components of the longitude, if the field is present in rational form.
#[verifier::external_body]
fn gps_longitude_parts(block: &exif::Exif) -> (result: Option<Vec<UnsignedRational>>)
{
    match block.get_field(exif::Tag::GPSLongitude, exif::In::PRIMARY) {
        Some(field) => match &field.value {
            exif::Value::Rational(parts) => Some(
                parts.iter().map(|p| UnsignedRational { num: p.num, den: p.denom }).collect(),
            ),
            _ => None,
        },
        None => None,
    }
}

/// Relies on exif::Exif::get_field and Field::display_value for
/// Tag::GPSLatitudeRef: the hemisphere letter as displayed.
#[verifier::external_body]
fn gps_latitude_ref_display(block: &exif::Exif) -> (result: Option<String>)
{
    block
        .get_field(exif::Tag::GPSLatitudeRef, exif::In::PRIMARY)
        .map(|field| field.display_value().to_string())
}

/// Relies on exif::Exif::get_field and Field::display_value for
/// Tag::GPSLongitudeRef: the hemisphere letter as displayed.
#[verifier::external_body]
fn gps_longitude_ref_display(block: &exif::Exif) -> (result: Option<String>)
{
    block
        .get_field(exif::Tag::GPSLongitudeRef, exif::In::PRIMARY)
        .map(|field| field.display_value().to_string())
}

/// Relies on exif::Exif::get_field and Field::display_value for
/// Tag::DateTimeOriginal: the capture time as displayed, in
/// `YYYY-MM-DD HH:MM:SS` form on conforming data.
#[verifier::external_body]
fn taken_at_display(block: &exif::Exif) -> (result: Option<String>)
{
    block
        .get_field(exif::Tag::DateTimeOriginal, exif::In::PRIMARY)
        .map(|field| field.display_value().with_unit(block).to_string())
}

/// Relies on exif::Exif::get_field for Tag::Make: the camera maker's name,
/// if the field is present in ASCII form, decoded leniently.
#[verifier::external_body]
fn camera_brand_text(block: &exif::Exif) -> (result: Option<String>)
{
    match block.get_field(exif::Tag::Make, exif::In::PRIMARY) {
        Some(field) => match &field.value {
            exif::Value::Ascii(lines) => {
                lines.first().map(|line| String::from_utf8_lossy(line).to_string())
            },
            _ => None,
        },
        None => None,
    }
}

/// Relies on exif::Exif::get_field for Tag::Model: the camera model's name,
/// if the field is present in ASCII form, decoded leniently.
#[verifier::external_body]
fn camera_model_text(block: &exif::Exif) -> (result: Option<String>)
{
    match block.get_field(exif::Tag::Model, exif::In::PRIMARY) {
        Some(field) => match &field.value {
            exif::Value::Ascii(lines) => {
                lines.first().map(|line| String::from_utf8_lossy(line).to_string())
            },
            _ => None,
        },
        None => None,
    }
}

/// Relies on exif::Exif::get_field and Field::display_value for
/// Tag::ExposureTime: the exposure time as displayed, unit included.
#[verifier::external_body]
fn exposure_time_display(block: &exif::Exif) -> (result: Option<String>)
{
    block
        .get_field(exif::Tag::ExposureTime, exif::In::PRIMARY)
        .map(|field| field.display_value().with_unit(block).to_string())
}

/// Relies on exif::Exif::get_field and Field::display_value for
/// Tag::FNumber: the aperture as displayed, unit included.
#[verifier::external_body]
fn f_number_display(block: &exif::Exif) -> (result: Option<String>)
{
    block
        .get_field(exif::Tag::FNumber, exif::In::PRIMARY)
        .map(|field| field.display_value().with_unit(block).to_string())
}

/// Relies on exif::Exif::get_field and Field::display_value for
/// Tag::FocalLength: the focal length as displayed, unit included.
#[verifier::external_body]
fn focal_length_display(block: &exif::Exif) -> (result: Option<String>)
{
    block
        .get_field(exif::Tag::FocalLength, exif::In::PRIMARY)
        .map(|field| field.display_value().with_unit(block).to_string())
}

/// Relies on exif::Exif::get_field for Tag::Orientation: the values of the
/// orientation field, if the field is present in short form.
#[verifier::external_body]
fn orientation_values(block: &exif::Exif) -> (result: Option<Vec<u16>>)
{
    match block.get_field(exif::Tag::Orientation, exif::In::PRIMARY) {
        Some(field) => match &field.value {
            exif::Value::Short(values) => Some(values.clone()),
            _ => None,
        },
        None => None,
    }
}

/// The EXIF reading that an upload's bytes denote, every field as plain
/// values, or `None` when the bytes hold no readable EXIF block at all: a
/// function of the bytes alone.
pub uninterp spec fn exif_reading(data: Seq<u8>) -> Option<RawExif>;

/// Reads every field of interest out of an upload's bytes, through the
/// accessors above. `None` means the bytes hold no readable EXIF block at
/// all; a block with missing or malformed fields yields a `RawExif` with
/// those fields absent. Relies on the exif crate end to end: parsing and
/// every field lookup are deterministic in the bytes, so the reading is a
/// function of them alone.
#[verifier::external_body]
pub fn read_raw_exif(data: &[u8]) -> (result: Option<RawExif>)
    ensures
        result == exif_reading(data@),
{
    let block = read_exif_block(data)?;
    Some(RawExif {
        latitude: gps_latitude_parts(&block),
        longitude: gps_longitude_parts(&block),
        latitude_ref: gps_latitude_ref_display(&block),
        longitude_ref: gps_longitude_ref_display(&block),
        taken_at: taken_at_display(&block),
        camera_brand: camera_brand_text(&block),
        camera_model: camera_model_text(&block),
        exposure_time: exposure_time_display(&block),
        f_number: f_number_display(&block),
        focal_length: focal_length_display(&block),
        orientation: orientation_values(&block),
    })
}

} // verus!
