//! Recovery of tile-index layers from tile-map documents.
//!
//! A layer's tile data arrives either as a plain list of indices or as
//! base64 text, optionally compressed with zlib, gzip or zstd. The text
//! decodes to a flat little-endian array of signed 32-bit integers.
pub mod codec;
pub mod data_source;
pub mod error;
pub mod text;
pub mod utils;

pub use codec::Compression;
pub use data_source::DataSource;
pub use error::Error;
pub use text::HorizontalAlign;
pub use text::VerticalAlign;
pub use utils::le_bytes_to_vec;
pub use utils::EndianRead;
