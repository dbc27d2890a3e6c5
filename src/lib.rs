//! Client-side logic for a hosted image-generation service: the validated
//! generation parameters, the request body, the client's connection set-up,
//! the decisions taken on the service's replies while polling, and the
//! decoding and naming of the image that comes back.

pub mod client;
pub mod error;
pub mod image;
pub mod json;
pub mod params;
pub mod payload;
pub mod prelude;
pub mod request;
pub mod text;

pub use client::{
    authorization_value, next_poll_step, status_outcome, DiffusionClient, PollStep, API_URL, HTTP_CREATED,
    HTTP_NO_CONTENT, POLL_INTERVAL_MS, STATUS_URL,
};
pub use error::DiffusionError;
pub use image::{DiffusionImage, ImageToken};
pub use params::{ImageModel, ImageOrientation, ImageSize, ImageSteps};
pub use payload::{decode_raw_image, default_filename, image_data, name_for_digest, output_filename};
pub use request::ImageRequest;
