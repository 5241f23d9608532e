//! GPS coordinates as EXIF stores them: three non-negative rationals for
//! degrees, minutes and seconds, plus a hemisphere letter. They are turned
//! into one exact signed fraction of degrees, so that the conversion
//! `deg + min/60 + sec/3600`, negated in the southern and western
//! hemispheres, can be stated and proved without rounding.

use vstd::prelude::*;

verus! {

/// A non-negative rational read from an EXIF field: a numerator over a
/// denominator.
#[derive(Clone, Copy, Debug, PartialEq, Eq, Structural)]
pub struct UnsignedRational {
    pub num: u32,
    pub den: u32,
}

/// An exact angle in decimal degrees: a magnitude `num / den` and a sign.
#[derive(Clone, Copy, Debug, PartialEq, Eq, Structural)]
pub struct SignedDegrees {
    pub negative: bool,
    pub num: u128,
    pub den: u128,
}

/// A pair of coordinates. It exists only whole: a record never carries one
/// axis without the other.
#[derive(Clone, Copy, Debug, PartialEq, Eq, Structural)]
pub struct GpsLocation {
    pub latitude: SignedDegrees,
    pub longitude: SignedDegrees,
}

/// The numerator of `deg + min/60 + sec/3600` over the common denominator
/// `deg.den * min.den * sec.den * 3600`.
pub open spec fn dms_numerator(
    deg: UnsignedRational,
    min: UnsignedRational,
    sec: UnsignedRational,
) -> int {
    deg.num * min.den * sec.den * 3600 + min.num * deg.den * sec.den * 60
        + sec.num * deg.den * min.den
}

/// The common denominator of `deg + min/60 + sec/3600`.
pub open spec fn dms_denominator(
    deg: UnsignedRational,
    min: UnsignedRational,
    sec: UnsignedRational,
) -> int {
    deg.den * min.den * sec.den * 3600
}

/// Whether a component list read from one GPS axis denotes an angle: it
/// holds at least the three degree, minute and second rationals, and none
/// of them divides by zero.
pub open spec fn axis_parses(parts: Seq<UnsignedRational>) -> bool {
    &&& parts.len() >= 3
    &&& parts[0].den != 0
    &&& parts[1].den != 0
    &&& parts[2].den != 0
}

/// The angle denoted by a component list that parses, under the given sign.
pub open spec fn axis_degrees(parts: Seq<UnsignedRational>, negative: bool) -> SignedDegrees
    recommends
        axis_parses(parts),
{
    SignedDegrees {
        negative,
        num: dms_numerator(parts[0], parts[1], parts[2]) as u128,
        den: dms_denominator(parts[0], parts[1], parts[2]) as u128,
    }
}

proof fn lemma_mul_le(a: int, b: int, a_max: int, b_max: int)
    by (nonlinear_arith)
    requires
        0 <= a <= a_max,
        0 <= b <= b_max,
    ensures
        a * b <= a_max * b_max,
{
}

proof fn lemma_mul_pos(a: int, b: int)
    by (nonlinear_arith)
    requires
        a > 0,
        b > 0,
    ensures
        a * b > 0,
{
}

/// Converts one axis from degrees, minutes and seconds into an exact signed
/// fraction of decimal degrees: `deg + min/60 + sec/3600` over the common
/// denominator, with the sign the hemisphere reference dictates.
pub fn dms_to_degrees(
    deg: UnsignedRational,
    min: UnsignedRational,
    sec: UnsignedRational,
    negative: bool,
) -> (result: SignedDegrees)
    requires
        deg.den != 0,
        min.den != 0,
        sec.den != 0,
    ensures
        result.num == dms_numerator(deg, min, sec),
        result.den == dms_denominator(deg, min, sec),
        result.den != 0,
        result.negative == negative,
{
    let deg_num: u128 = deg.num as u128;
    let deg_den: u128 = deg.den as u128;
    let min_num: u128 = min.num as u128;
    let min_den: u128 = min.den as u128;
    let sec_num: u128 = sec.num as u128;
    let sec_den: u128 = sec.den as u128;
    proof {
        let bound: int = 0xffff_ffff;
        lemma_mul_le(deg_num as int, min_den as int, bound, bound);
        lemma_mul_le((deg_num * min_den) as int, sec_den as int, bound * bound, bound);
        lemma_mul_le((deg_num * min_den * sec_den) as int, 3600, bound * bound * bound, 3600);
        lemma_mul_le(min_num as int, deg_den as int, bound, bound);
        lemma_mul_le((min_num * deg_den) as int, sec_den as int, bound * bound, bound);
        lemma_mul_le((min_num * deg_den * sec_den) as int, 60, bound * bound * bound, 60);
        lemma_mul_le(sec_num as int, deg_den as int, bound, bound);
        lemma_mul_le((sec_num * deg_den) as int, min_den as int, bound * bound, bound);
        lemma_mul_le(deg_den as int, min_den as int, bound, bound);
        lemma_mul_le((deg_den * min_den) as int, sec_den as int, bound * bound, bound);
        lemma_mul_le((deg_den * min_den * sec_den) as int, 3600, bound * bound * bound, 3600);
        lemma_mul_pos(deg_den as int, min_den as int);
        lemma_mul_pos((deg_den * min_den) as int, sec_den as int);
        lemma_mul_pos((deg_den * min_den * sec_den) as int, 3600);
    }
    let degrees_term: u128 = deg_num * min_den * sec_den * 3600;
    let minutes_term: u128 = min_num * deg_den * sec_den * 60;
    let seconds_term: u128 = sec_num * deg_den * min_den;
    let num: u128 = degrees_term + minutes_term + seconds_term;
    let den: u128 = deg_den * min_den * sec_den * 3600;
    SignedDegrees { negative, num, den }
}

/// Converts one axis's component list, or reports that it does not parse.
/// The result exists exactly when the list holds three usable rationals.
pub fn axis_to_degrees(parts: &Vec<UnsignedRational>, negative: bool) -> (result: Option<
    SignedDegrees,
>)
    ensures
        result is Some <==> axis_parses(parts@),
        axis_parses(parts@) ==> result == Some(axis_degrees(parts@, negative)),
{
    if parts.len() >= 3 {
        let deg = parts[0];
        let min = parts[1];
        let sec = parts[2];
        if deg.den != 0 && min.den != 0 && sec.den != 0 {
            Some(dms_to_degrees(deg, min, sec, negative))
        } else {
            None
        }
    } else {
        None
    }
}

/// Whether a hemisphere reference field carries exactly the given letter.
pub open spec fn ref_carries(reference: Option<String>, letter: Seq<char>) -> bool {
    match reference {
        Some(text) => text@ == letter,
        None => false,
    }
}

/// The location that a whole GPS reading denotes: both axes must be present
/// with their hemisphere references, and both component lists must parse;
/// anything less gives no location at all.
pub open spec fn spec_location(
    latitude: Option<Vec<UnsignedRational>>,
    latitude_ref: Option<String>,
    longitude: Option<Vec<UnsignedRational>>,
    longitude_ref: Option<String>,
) -> Option<GpsLocation> {
    if latitude is Some && latitude_ref is Some && longitude is Some && longitude_ref is Some
        && axis_parses(latitude.unwrap()@) && axis_parses(longitude.unwrap()@) {
        Some(
            GpsLocation {
                latitude: axis_degrees(latitude.unwrap()@, ref_carries(latitude_ref, "S"@)),
                longitude: axis_degrees(longitude.unwrap()@, ref_carries(longitude_ref, "W"@)),
            },
        )
    } else {
        None
    }
}

/// Combines the four GPS fields of a reading into a location, negating an
/// axis when its hemisphere reference is `S` or `W`. A partial reading — a
/// missing axis, a missing reference, or a component list that does not
/// parse — is discarded whole, never half-used.
pub fn extract_location(
    latitude: &Option<Vec<UnsignedRational>>,
    latitude_ref: &Option<String>,
    longitude: &Option<Vec<UnsignedRational>>,
    longitude_ref: &Option<String>,
) -> (result: Option<GpsLocation>)
    ensures
        result == spec_location(*latitude, *latitude_ref, *longitude, *longitude_ref),
{
    let south = match latitude_ref {
        Some(text) => *text == "S".to_owned(),
        None => false,
    };
    let west = match longitude_ref {
        Some(text) => *text == "W".to_owned(),
        None => false,
    };
    match (latitude, latitude_ref, longitude, longitude_ref) {
        (Some(lat_parts), Some(_), Some(lon_parts), Some(_)) => {
            let lat = axis_to_degrees(lat_parts, south);
            let lon = axis_to_degrees(lon_parts, west);
            match (lat, lon) {
                (Some(lat_degrees), Some(lon_degrees)) => Some(
                    GpsLocation { latitude: lat_degrees, longitude: lon_degrees },
                ),
                _ => None,
            }
        },
        _ => None,
    }
}

/// The sign convention: the same magnitude read under the opposite
/// hemisphere reference gives the same fraction with the opposite sign.
pub proof fn lemma_gps_sign_convention(parts: Seq<UnsignedRational>)
    requires
        axis_parses(parts),
    ensures
        !axis_degrees(parts, false).negative,
        axis_degrees(parts, true).negative,
        axis_degrees(parts, false).num == axis_degrees(parts, true).num,
        axis_degrees(parts, false).den == axis_degrees(parts, true).den,
{
}

} // verus!
