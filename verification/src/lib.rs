//! Classification of identity-document photographs.
//!
//! The crate prepares an encoded picture for a pre-trained network (decode,
//! resample to the network's input size, normalise every channel) and reduces
//! the network's scores to a single labelled result. The forward pass itself
//! works on machine floating-point numbers and is supplied by the caller;
//! scores travel through the crate as IEEE-754 binary32 bit patterns.

pub mod error;
pub mod scores;
pub mod labels;
pub mod model;
pub mod raster;
pub mod tensor;
pub mod pipeline;

pub use error::ValidationError;
pub use model::setup;
pub use model::Classifier;
pub use pipeline::validate_id;
pub use pipeline::ValidationResult;
