//! The types that a caller of the library needs, in one import.

pub use crate::client::DiffusionClient;
pub use crate::error::DiffusionError;
pub use crate::image::{DiffusionImage, ImageToken};
pub use crate::params::{ImageModel, ImageOrientation, ImageSize, ImageSteps};
pub use crate::request::ImageRequest;
