//! Decides how an image and its acquisition metadata are laid out in a FITS
//! file: the file name with its compression qualifier, single or dual
//! header-data units, the on-disk sample type and axes, and every header record.

pub mod compression;
pub mod image;
pub mod laws;
pub mod layout;
pub mod save;

pub use compression::FitsCompression;
pub use image::{DynamicImage, ExtendedMetadata, ImageData, ImageMetaData, SampleType, Timestamp};
