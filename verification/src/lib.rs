//! Ingestion of one uploaded photograph: decoding, EXIF metadata extraction,
//! orientation correction, a bounded derivative cascade, and a storage layout
//! plan, together with the record types the surrounding service persists.

pub mod auth;
pub mod cascade;
pub mod error;
pub mod exif_read;
pub mod gps;
pub mod ingest;
pub mod layout;
pub mod orientation;
pub mod raster;
pub mod records;
pub mod requests;
pub mod site;
pub mod util;
