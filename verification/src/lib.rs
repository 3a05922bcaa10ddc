//! Turn a text payload into a QR-code image, rendered on demand in a
//! caller-selected raster or vector format and size.

pub mod data_uri;
pub mod encode;
pub mod laws;
pub mod params;
pub mod raster;
pub mod response;
pub mod symbol;
