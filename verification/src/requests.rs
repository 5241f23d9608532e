//! The bodies of the update requests, and the SQL `SET` clauses they give
//! rise to. Each request is a bundle of optional fields; its update string
//! names, in a fixed order, exactly the columns whose fields are present,
//! joined by commas. An empty string means there is nothing to update.

use vstd::prelude::*;
use vstd::string::StringExecFns;

use crate::error::Error;
use crate::gps::{GpsLocation, SignedDegrees};

verus! {

/// One value bound to a `?` of an update statement, in the order the
/// statement's clauses name their columns. The surrounding layer turns
/// each into the database driver's own parameter type.
#[derive(Debug, PartialEq)]
pub enum SqlValue {
    /// A text column.
    Text(String),
    /// A signed integer column.
    Int(i64),
    /// An unsigned integer column.
    UInt(u64),
    /// A boolean column.
    Bool(bool),
    /// A nullable signed integer column.
    NullableInt(Option<i64>),
    /// A location axis, stored as decimal degrees.
    Degrees(SignedDegrees),
}

/// The clauses joined by `, `: nothing for no clause, and otherwise each
/// clause after the first preceded by the separator.
pub open spec fn spec_join_clauses(clauses: Seq<Seq<char>>) -> Seq<char>
    decreases clauses.len(),
{
    if clauses.len() == 0 {
        Seq::empty()
    } else if clauses.len() == 1 {
        clauses[0]
    } else {
        spec_join_clauses(clauses.drop_last()) + ", "@ + clauses.last()
    }
}

/// Joins clauses with `, `.
pub fn join_clauses(clauses: &Vec<&str>) -> (result: String)
    ensures
        result@ == spec_join_clauses(clauses@.map_values(|clause: &str| clause@)),
{
    let ghost mapped = clauses@.map_values(|clause: &str| clause@);
    let mut result = String::new();
    let mut i: usize = 0;
    while i < clauses.len()
        invariant
            i <= clauses.len(),
            mapped == clauses@.map_values(|clause: &str| clause@),
            result@ == spec_join_clauses(mapped.take(i as int)),
        decreases clauses.len() - i,
    {
        if i > 0 {
            result.append(", ");
        }
        result.append(clauses[i]);
        proof {
            assert(mapped.take(i + 1 as int).drop_last() =~= mapped.take(i as int));
            assert(mapped.take(i + 1 as int).last() == mapped[i as int]);
        }
        i += 1;
    }
    proof {
        assert(mapped.take(clauses@.len() as int) =~= mapped);
    }
    result
}

/// A span of time an album covers; either bound may be open.
#[derive(Clone, Copy, Debug, PartialEq, Eq, Structural)]
pub struct Timeframe {
    pub from: Option<i64>,
    pub to: Option<i64>,
}

impl Timeframe {
    /// Whether the bounds are in order; a half-open or open timeframe
    /// always is.
    pub open spec fn is_ordered(self) -> bool {
        match (self.from, self.to) {
            (Some(from), Some(to)) => from <= to,
            _ => true,
        }
    }

    /// Accepts a timeframe whose bounds are in order and refuses one whose
    /// start lies after its end.
    pub fn validate(&self) -> (result: Result<(), Error>)
        ensures
            result is Ok <==> self.is_ordered(),
            result matches Err(error) ==> error matches Error::InvalidTimeframe,
    {
        match (self.from, self.to) {
            (Some(from), Some(to)) => if from > to {
                Err(Error::InvalidTimeframe)
            } else {
                Ok(())
            },
            _ => Ok(()),
        }
    }
}

/// A request to update an album's own columns and associations.
#[derive(Debug)]
pub struct PutAlbumRequest {
    pub title: Option<String>,
    pub description: Option<String>,
    pub cover_key: Option<String>,
    pub author: Option<String>,
    pub draft: Option<bool>,
    pub timeframe: Option<Timeframe>,
    pub created_at: Option<u64>,
    pub image_keys: Option<Vec<String>>,
    pub tagged_users: Option<Vec<String>>,
}

impl PutAlbumRequest {
    /// The `SET` clauses this request asks for, in column order. Setting
    /// the draft flag also stamps the publication time, and setting the
    /// timeframe sets both of its bounds.
    pub open spec fn spec_update_clauses(self) -> Seq<Seq<char>> {
        let clauses = Seq::<Seq<char>>::empty();
        let clauses = if self.title is Some {
            clauses.push("title = ?"@)
        } else {
            clauses
        };
        let clauses = if self.description is Some {
            clauses.push("description = ?"@)
        } else {
            clauses
        };
        let clauses = if self.cover_key is Some {
            clauses.push("cover_key = ?"@)
        } else {
            clauses
        };
        let clauses = if self.draft is Some {
            clauses.push("draft = ?"@).push("published_at = ?"@)
        } else {
            clauses
        };
        let clauses = if self.timeframe is Some {
            clauses.push("timeframe_from = ?"@).push("timeframe_to = ?"@)
        } else {
            clauses
        };
        clauses
    }

    /// The `SET` string of this request: its clauses joined by commas.
    pub fn album_update_str(&self) -> (result: String)
        ensures
            result@ == spec_join_clauses(self.spec_update_clauses()),
    {
        let mut clauses: Vec<&str> = Vec::new();
        if self.title.is_some() {
            clauses.push("title = ?");
        }
        if self.description.is_some() {
            clauses.push("description = ?");
        }
        if self.cover_key.is_some() {
            clauses.push("cover_key = ?");
        }
        if self.draft.is_some() {
            clauses.push("draft = ?");
            clauses.push("published_at = ?");
        }
        if self.timeframe.is_some() {
            clauses.push("timeframe_from = ?");
            clauses.push("timeframe_to = ?");
        }
        let result = join_clauses(&clauses);
        proof {
            assert(clauses@.map_values(|clause: &str| clause@) =~= self.spec_update_clauses());
        }
        result
    }

    /// The values bound to this request's clauses, in the same order.
    /// Setting the draft flag stamps `now` as the publication time.
    pub open spec fn spec_update_params(self, now: u64) -> Seq<SqlValue> {
        let params = Seq::<SqlValue>::empty();
        let params = if self.title is Some {
            params.push(SqlValue::Text(self.title.unwrap()))
        } else {
            params
        };
        let params = if self.description is Some {
            params.push(SqlValue::Text(self.description.unwrap()))
        } else {
            params
        };
        let params = if self.cover_key is Some {
            params.push(SqlValue::Text(self.cover_key.unwrap()))
        } else {
            params
        };
        let params = if self.draft is Some {
            params.push(SqlValue::Bool(self.draft.unwrap())).push(SqlValue::UInt(now))
        } else {
            params
        };
        let params = if self.timeframe is Some {
            params.push(SqlValue::NullableInt(self.timeframe.unwrap().from)).push(
                SqlValue::NullableInt(self.timeframe.unwrap().to),
            )
        } else {
            params
        };
        params
    }

    /// Binds this request's values, one per `?` of its update string and in
    /// the same order, stamping `now` as the publication time when the
    /// draft flag is set.
    pub fn update_params(self, now: u64) -> (result: Vec<SqlValue>)
        ensures
            result@ == self.spec_update_params(now),
    {
        let ghost original = self;
        let mut params: Vec<SqlValue> = Vec::new();
        if let Some(title) = self.title {
            params.push(SqlValue::Text(title));
        }
        if let Some(description) = self.description {
            params.push(SqlValue::Text(description));
        }
        if let Some(cover_key) = self.cover_key {
            params.push(SqlValue::Text(cover_key));
        }
        if let Some(draft) = self.draft {
            params.push(SqlValue::Bool(draft));
            params.push(SqlValue::UInt(now));
        }
        if let Some(timeframe) = self.timeframe {
            params.push(SqlValue::NullableInt(timeframe.from));
            params.push(SqlValue::NullableInt(timeframe.to));
        }
        proof {
            assert(params@ =~= original.spec_update_params(now));
        }
        params
    }
}

/// A request to update an image's metadata columns.
#[derive(Debug)]
pub struct PutImageMetadataRequest {
    pub file_name: Option<String>,
    pub taken_at: Option<i64>,
    pub location: Option<GpsLocation>,
    pub camera_brand: Option<String>,
    pub camera_model: Option<String>,
    pub exposure_time: Option<String>,
    pub f_number: Option<String>,
    pub focal_length: Option<String>,
    pub description: Option<String>,
}

impl PutImageMetadataRequest {
    /// The `SET` clauses this request asks for, in column order. Setting
    /// the location sets both of its axis columns.
    pub open spec fn spec_update_clauses(self) -> Seq<Seq<char>> {
        let clauses = Seq::<Seq<char>>::empty();
        let clauses = if self.file_name is Some {
            clauses.push("file_name = ?"@)
        } else {
            clauses
        };
        let clauses = if self.taken_at is Some {
            clauses.push("taken_at = ?"@)
        } else {
            clauses
        };
        let clauses = if self.location is Some {
            clauses.push("location_latitude = ?"@).push("location_longitude = ?"@)
        } else {
            clauses
        };
        let clauses = if self.camera_brand is Some {
            clauses.push("camera_brand = ?"@)
        } else {
            clauses
        };
        let clauses = if self.exposure_time is Some {
            clauses.push("exposure_time = ?"@)
        } else {
            clauses
        };
        let clauses = if self.f_number is Some {
            clauses.push("f_number = ?"@)
        } else {
            clauses
        };
        let clauses = if self.focal_length is Some {
            clauses.push("focal_length = ?"@)
        } else {
            clauses
        };
        let clauses = if self.description is Some {
            clauses.push("description = ?"@)
        } else {
            clauses
        };
        clauses
    }

    /// The `SET` string of this request: its clauses joined by commas.
    pub fn update_str(&self) -> (result: String)
        ensures
            result@ == spec_join_clauses(self.spec_update_clauses()),
    {
        let mut clauses: Vec<&str> = Vec::new();
        if self.file_name.is_some() {
            clauses.push("file_name = ?");
        }
        if self.taken_at.is_some() {
            clauses.push("taken_at = ?");
        }
        if self.location.is_some() {
            clauses.push("location_latitude = ?");
            clauses.push("location_longitude = ?");
        }
        if self.camera_brand.is_some() {
            clauses.push("camera_brand = ?");
        }
        if self.exposure_time.is_some() {
            clauses.push("exposure_time = ?");
        }
        if self.f_number.is_some() {
            clauses.push("f_number = ?");
        }
        if self.focal_length.is_some() {
            clauses.push("focal_length = ?");
        }
        if self.description.is_some() {
            clauses.push("description = ?");
        }
        let result = join_clauses(&clauses);
        proof {
            assert(clauses@.map_values(|clause: &str| clause@) =~= self.spec_update_clauses());
        }
        result
    }

    /// The values bound to this request's statement. The camera model is
    /// bound whenever present, although no clause of the update string
    /// names its column, as the handler has always done.
    pub open spec fn spec_update_params(self) -> Seq<SqlValue> {
        let params = Seq::<SqlValue>::empty();
        let params = if self.file_name is Some {
            params.push(SqlValue::Text(self.file_name.unwrap()))
        } else {
            params
        };
        let params = if self.taken_at is Some {
            params.push(SqlValue::Int(self.taken_at.unwrap()))
        } else {
            params
        };
        let params = if self.location is Some {
            params.push(SqlValue::Degrees(self.location.unwrap().latitude)).push(
                SqlValue::Degrees(self.location.unwrap().longitude),
            )
        } else {
            params
        };
        let params = if self.camera_brand is Some {
            params.push(SqlValue::Text(self.camera_brand.unwrap()))
        } else {
            params
        };
        let params = if self.camera_model is Some {
            params.push(SqlValue::Text(self.camera_model.unwrap()))
        } else {
            params
        };
        let params = if self.exposure_time is Some {
            params.push(SqlValue::Text(self.exposure_time.unwrap()))
        } else {
            params
        };
        let params = if self.f_number is Some {
            params.push(SqlValue::Text(self.f_number.unwrap()))
        } else {
            params
        };
        let params = if self.focal_length is Some {
            params.push(SqlValue::Text(self.focal_length.unwrap()))
        } else {
            params
        };
        let params = if self.description is Some {
            params.push(SqlValue::Text(self.description.unwrap()))
        } else {
            params
        };
        params
    }

    /// Binds this request's values in field order.
    pub fn update_params(self) -> (result: Vec<SqlValue>)
        ensures
            result@ == self.spec_update_params(),
    {
        let ghost original = self;
        let mut params: Vec<SqlValue> = Vec::new();
        if let Some(file_name) = self.file_name {
            params.push(SqlValue::Text(file_name));
        }
        if let Some(taken_at) = self.taken_at {
            params.push(SqlValue::Int(taken_at));
        }
        if let Some(location) = self.location {
            params.push(SqlValue::Degrees(location.latitude));
            params.push(SqlValue::Degrees(location.longitude));
        }
        if let Some(camera_brand) = self.camera_brand {
            params.push(SqlValue::Text(camera_brand));
        }
        if let Some(camera_model) = self.camera_model {
            params.push(SqlValue::Text(camera_model));
        }
        if let Some(exposure_time) = self.exposure_time {
            params.push(SqlValue::Text(exposure_time));
        }
        if let Some(f_number) = self.f_number {
            params.push(SqlValue::Text(f_number));
        }
        if let Some(focal_length) = self.focal_length {
            params.push(SqlValue::Text(focal_length));
        }
        if let Some(description) = self.description {
            params.push(SqlValue::Text(description));
        }
        proof {
            assert(params@ =~= original.spec_update_params());
        }
        params
    }
}

/// A request to update the caller's profile settings.
#[derive(Debug)]
pub struct PutSettingsRequest {
    pub display_name: Option<String>,
    pub bio: Option<String>,
    pub avatar_key: Option<String>,
    pub banner_key: Option<String>,
    pub accent_color: Option<String>,
    pub featured_album_key: Option<String>,
    pub country: Option<String>,
    pub color_theme: Option<String>,
}

impl PutSettingsRequest {
    /// The `SET` clauses this request asks for, in column order.
    pub open spec fn spec_update_clauses(self) -> Seq<Seq<char>> {
        let clauses = Seq::<Seq<char>>::empty();
        let clauses = if self.display_name is Some {
            clauses.push("display_name = ?"@)
        } else {
            clauses
        };
        let clauses = if self.bio is Some {
            clauses.push("bio = ?"@)
        } else {
            clauses
        };
        let clauses = if self.avatar_key is Some {
            clauses.push("avatar_key = ?"@)
        } else {
            clauses
        };
        let clauses = if self.banner_key is Some {
            clauses.push("banner_key = ?"@)
        } else {
            clauses
        };
        let clauses = if self.accent_color is Some {
            clauses.push("accent_color = ?"@)
        } else {
            clauses
        };
        let clauses = if self.featured_album_key is Some {
            clauses.push("featured_album_key = ?"@)
        } else {
            clauses
        };
        let clauses = if self.country is Some {
            clauses.push("country = ?"@)
        } else {
            clauses
        };
        let clauses = if self.color_theme is Some {
            clauses.push("color_theme = ?"@)
        } else {
            clauses
        };
        clauses
    }

    /// The `SET` string of this request: its clauses joined by commas.
    pub fn update_str(&self) -> (result: String)
        ensures
            result@ == spec_join_clauses(self.spec_update_clauses()),
    {
        let mut clauses: Vec<&str> = Vec::new();
        if self.display_name.is_some() {
            clauses.push("display_name = ?");
        }
        if self.bio.is_some() {
            clauses.push("bio = ?");
        }
        if self.avatar_key.is_some() {
            clauses.push("avatar_key = ?");
        }
        if self.banner_key.is_some() {
            clauses.push("banner_key = ?");
        }
        if self.accent_color.is_some() {
            clauses.push("accent_color = ?");
        }
        if self.featured_album_key.is_some() {
            clauses.push("featured_album_key = ?");
        }
        if self.country.is_some() {
            clauses.push("country = ?");
        }
        if self.color_theme.is_some() {
            clauses.push("color_theme = ?");
        }
        let result = join_clauses(&clauses);
        proof {
            assert(clauses@.map_values(|clause: &str| clause@) =~= self.spec_update_clauses());
        }
        result
    }

    /// The values bound to this request's clauses, in the same order.
    pub open spec fn spec_update_params(self) -> Seq<SqlValue> {
        let params = Seq::<SqlValue>::empty();
        let params = if self.display_name is Some {
            params.push(SqlValue::Text(self.display_name.unwrap()))
        } else {
            params
        };
        let params = if self.bio is Some {
            params.push(SqlValue::Text(self.bio.unwrap()))
        } else {
            params
        };
        let params = if self.avatar_key is Some {
            params.push(SqlValue::Text(self.avatar_key.unwrap()))
        } else {
            params
        };
        let params = if self.banner_key is Some {
            params.push(SqlValue::Text(self.banner_key.unwrap()))
        } else {
            params
        };
        let params = if self.accent_color is Some {
            params.push(SqlValue::Text(self.accent_color.unwrap()))
        } else {
            params
        };
        let params = if self.featured_album_key is Some {
            params.push(SqlValue::Text(self.featured_album_key.unwrap()))
        } else {
            params
        };
        let params = if self.country is Some {
            params.push(SqlValue::Text(self.country.unwrap()))
        } else {
            params
        };
        let params = if self.color_theme is Some {
            params.push(SqlValue::Text(self.color_theme.unwrap()))
        } else {
            params
        };
        params
    }

    /// Binds this request's values, one per `?` of its update string and in
    /// the same order.
    pub fn update_params(self) -> (result: Vec<SqlValue>)
        ensures
            result@ == self.spec_update_params(),
    {
        let ghost original = self;
        let mut params: Vec<SqlValue> = Vec::new();
        if let Some(display_name) = self.display_name {
            params.push(SqlValue::Text(display_name));
        }
        if let Some(bio) = self.bio {
            params.push(SqlValue::Text(bio));
        }
        if let Some(avatar_key) = self.avatar_key {
            params.push(SqlValue::Text(avatar_key));
        }
        if let Some(banner_key) = self.banner_key {
            params.push(SqlValue::Text(banner_key));
        }
        if let Some(accent_color) = self.accent_color {
            params.push(SqlValue::Text(accent_color));
        }
        if let Some(featured_album_key) = self.featured_album_key {
            params.push(SqlValue::Text(featured_album_key));
        }
        if let Some(country) = self.country {
            params.push(SqlValue::Text(country));
        }
        if let Some(color_theme) = self.color_theme {
            params.push(SqlValue::Text(color_theme));
        }
        proof {
            assert(params@ =~= original.spec_update_params());
        }
        params
    }
}

/// A request to change the caller's password.
#[derive(Debug)]
pub struct PutPasswordRequest {
    pub old: String,
    pub new: String,
}

} // verus!
