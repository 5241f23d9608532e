//! The remaining records the service passes around: user profiles and
//! their settings, comments, and text aliases.

use vstd::prelude::*;

verus! {

/// A caller's profile settings as handed back to it.
#[derive(Debug)]
pub struct Settings {
    pub display_name: Option<String>,
    pub bio: Option<String>,
    pub avatar_key: Option<String>,
    pub banner_key: Option<String>,
    pub accent_color: String,
    pub featured_album_key: Option<String>,
    pub country: Option<String>,
    pub color_theme: String,
}

/// A caller's profile settings as the database stores them.
#[derive(Debug)]
pub struct DbSettings {
    pub display_name: Option<String>,
    pub bio: Option<String>,
    pub avatar_key: Option<String>,
    pub banner_key: Option<String>,
    pub accent_color: String,
    pub featured_album_key: Option<String>,
    pub country: Option<String>,
    pub color_theme: String,
}

impl Settings {
    /// Turns a settings row into the caller-shaped record, field by field.
    pub fn from_db(db_settings: DbSettings) -> (result: Self)
        ensures
            result.display_name == db_settings.display_name,
            result.bio == db_settings.bio,
            result.avatar_key == db_settings.avatar_key,
            result.banner_key == db_settings.banner_key,
            result.accent_color == db_settings.accent_color,
            result.featured_album_key == db_settings.featured_album_key,
            result.country == db_settings.country,
            result.color_theme == db_settings.color_theme,
    {
        Self {
            display_name: db_settings.display_name,
            bio: db_settings.bio,
            avatar_key: db_settings.avatar_key,
            banner_key: db_settings.banner_key,
            accent_color: db_settings.accent_color,
            featured_album_key: db_settings.featured_album_key,
            country: db_settings.country,
            color_theme: db_settings.color_theme,
        }
    }
}

/// A user's public profile, with the albums they appear in and uploaded.
#[derive(Debug)]
pub struct User {
    pub username: String,
    pub display_name: Option<String>,
    pub bio: Option<String>,
    pub avatar_key: Option<String>,
    pub banner_key: Option<String>,
    pub accent_color: Option<String>,
    pub featured_album_key: Option<String>,
    pub country: Option<String>,
    pub met: Vec<String>,
    pub albums_uploaded: Vec<String>,
    pub created_at: i64,
}

/// One comment on an image within an album.
#[derive(Debug)]
pub struct Comment {
    pub id: i64,
    pub author: String,
    pub image_key: String,
    pub album_key: String,
    pub created_at: u64,
    pub text: String,
}

/// A request to delete one comment by its identifier.
#[derive(Clone, Copy, Debug, PartialEq, Eq, Structural)]
pub struct DeleteCommentRequest {
    pub id: u64,
}

/// A named text snippet that comments may reference.
#[derive(Debug)]
pub struct Alias {
    pub name: String,
    pub content: String,
}

} // verus!
