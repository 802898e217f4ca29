//! The errors of the crate, one for each stage that can fail.

use vstd::prelude::*;

verus! {

/// The stage of a classification that failed.
#[derive(Clone, Copy, Debug, PartialEq, Eq, Structural)]
pub enum ValidationError {
    /// The model document could not be parsed or compiled.
    ModelLoad,
    /// A classification was asked for while no model was loaded.
    ModelNotLoaded,
    /// The encoded picture is larger than the context allows.
    ImageTooLarge,
    /// The bytes do not encode a picture that can be decoded.
    ImageDecode,
    /// The forward pass of the network failed.
    Inference,
    /// The first output of the network is not an array of binary32 numbers.
    TensorShape,
    /// The network produced no score at all.
    EmptyOutput,
    /// One of the scores is not a number, so no maximum exists.
    NanScore,
}

impl ValidationError {
    /// The text that describes this error to a person.
    pub open spec fn text(self) -> Seq<char> {
        match self {
            ValidationError::ModelLoad => "The model could not be loaded"@,
            ValidationError::ModelNotLoaded => "Model is not loaded"@,
            ValidationError::ImageTooLarge => "Image size too large"@,
            ValidationError::ImageDecode => "The image could not be decoded"@,
            ValidationError::Inference => "The model could not be run"@,
            ValidationError::TensorShape => "The model output is not an array of scores"@,
            ValidationError::EmptyOutput => "Failed to find max score"@,
            ValidationError::NanScore => "A score is not a number"@,
        }
    }

    /// Describes the error in words.
    pub fn message(&self) -> (r: String)
        ensures
            r@ == self.text(),
    {
        match self {
            ValidationError::ModelLoad => "The model could not be loaded".to_owned(),
            ValidationError::ModelNotLoaded => "Model is not loaded".to_owned(),
            ValidationError::ImageTooLarge => "Image size too large".to_owned(),
            ValidationError::ImageDecode => "The image could not be decoded".to_owned(),
            ValidationError::Inference => "The model could not be run".to_owned(),
            ValidationError::TensorShape => "The model output is not an array of scores".to_owned(),
            ValidationError::EmptyOutput => "Failed to find max score".to_owned(),
            ValidationError::NanScore => "A score is not a number".to_owned(),
        }
    }
}

} // verus!
