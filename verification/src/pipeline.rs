//! From an encoded picture to a labelled result.

use vstd::prelude::*;
use crate::error::ValidationError;
use crate::labels::label_for;
use crate::labels::label_of;
use crate::model::Classifier;
use crate::model::Plan;
use crate::raster::decode_rgb;
use crate::raster::RgbImage;
use crate::scores::has_nan;
use crate::scores::is_first_maximum;
use crate::scores::first_maximum_is_unique;
use crate::scores::top_score;
use crate::tensor::input_tensor;
use crate::tensor::Ratio;
use crate::tensor::TENSOR_LEN;

verus! {

/// The outcome of a classification: the name of the class with the greatest
/// score, and that score as the bit pattern of a binary32 number.
#[derive(Clone, Debug, PartialEq, Eq)]
pub struct ValidationResult {
    pub label: String,
    pub score: u32,
}

/// Why a forward pass gave no score vector.
#[derive(Clone, Copy, Debug, PartialEq, Eq, Structural)]
pub enum ForwardFault {
    /// The runtime could not execute the model on the tensor.
    RunFailed,
    /// The model has no output.
    NoOutput,
    /// The first output is not an array of binary32 numbers.
    NotScores,
}

/// The error that a failed forward pass is reported as.
pub open spec fn fault_error(fault: ForwardFault) -> ValidationError {
    match fault {
        ForwardFault::RunFailed => ValidationError::Inference,
        ForwardFault::NoOutput => ValidationError::EmptyOutput,
        ForwardFault::NotScores => ValidationError::TensorShape,
    }
}

/// Position of the greatest score, the first one among equals.
pub open spec fn top_index(scores: Seq<u32>) -> int {
    choose|i: int| is_first_maximum(scores, i)
}

/// What a score vector is classified as: label and score of the first
/// greatest entry, or the reason why there is none.
pub open spec fn verdict(scores: Seq<u32>) -> Result<(Seq<char>, u32), ValidationError> {
    if scores.len() == 0 {
        Err(ValidationError::EmptyOutput)
    } else if has_nan(scores) {
        Err(ValidationError::NanScore)
    } else {
        Ok((label_of(top_index(scores)), scores[top_index(scores)]))
    }
}

/// Whether `outcome` reports exactly what `expected` says.
pub open spec fn reports(
    outcome: Result<ValidationResult, ValidationError>,
    expected: Result<(Seq<char>, u32), ValidationError>,
) -> bool {
    match outcome {
        Ok(found) => expected == Ok::<(Seq<char>, u32), ValidationError>((found.label@, found.score)),
        Err(error) => expected == Err::<(Seq<char>, u32), ValidationError>(error),
    }
}

/// Maps the fault of a forward pass to the error that the caller sees.
pub fn error_of_fault(fault: ForwardFault) -> (error: ValidationError)
    ensures
        error == fault_error(fault),
{
    match fault {
        ForwardFault::RunFailed => ValidationError::Inference,
        ForwardFault::NoOutput => ValidationError::EmptyOutput,
        ForwardFault::NotScores => ValidationError::TensorShape,
    }
}

/// Reduces the scores of the network to one labelled result.
pub fn classify(scores: &Vec<u32>) -> (r: Result<ValidationResult, ValidationError>)
    ensures
        reports(r, verdict(scores@)),
{
    match top_score(scores) {
        Ok((index, score)) => {
            proof {
                first_maximum_is_unique(scores@, index as int, top_index(scores@));
            }
            Ok(ValidationResult { label: label_for(index), score })
        },
        Err(error) => Err(error),
    }
}

/// What is made of a decoded picture: its input tensor, or an `ImageDecode`
/// error where it has no pixels.
pub open spec fn prepared(decoded: RgbImage) -> Result<Seq<Ratio>, ValidationError> {
    if decoded.has_area() {
        Ok(
            crate::tensor::tensor_of(
                crate::raster::resampled(
                    decoded.pixels@,
                    decoded.width,
                    decoded.height,
                    crate::tensor::INPUT_WIDTH,
                    crate::tensor::INPUT_HEIGHT,
                ),
            ),
        )
    } else {
        Err(ValidationError::ImageDecode)
    }
}

/// Whether `tensor` is the input tensor of some decoded picture: three planes
/// of 224 by 224 normalised samples of the resampled picture.
pub open spec fn is_input_tensor(tensor: Seq<Ratio>) -> bool {
    &&& tensor.len() == TENSOR_LEN
    &&& exists|decoded: RgbImage|
        decoded.well_formed() && #[trigger] prepared(decoded) == Ok::<
            Seq<Ratio>,
            ValidationError,
        >(tensor)
}

/// Builds the input tensor of a decoded picture.
pub fn tensor_of_decoded(decoded: &RgbImage) -> (r: Result<Vec<Ratio>, ValidationError>)
    requires
        decoded.well_formed(),
    ensures
        match r {
            Ok(tensor) => prepared(*decoded) == Ok::<Seq<Ratio>, ValidationError>(tensor@)
                && tensor@.len() == TENSOR_LEN,
            Err(error) => prepared(*decoded) == Err::<Seq<Ratio>, ValidationError>(error),
        },
{
    if decoded.width == 0 || decoded.height == 0 {
        Err(ValidationError::ImageDecode)
    } else {
        Ok(input_tensor(decoded))
    }
}

/// Decodes a picture and builds the input tensor from it.
///
/// Bytes that do not decode, and a picture without pixels, are an
/// `ImageDecode` error.
pub fn prepare(image: &[u8]) -> (r: Result<Vec<Ratio>, ValidationError>)
    ensures
        match r {
            Ok(tensor) => is_input_tensor(tensor@),
            Err(error) => error == ValidationError::ImageDecode,
        },
{
    match decode_rgb(image) {
        Ok(decoded) => {
            let r = tensor_of_decoded(&decoded);
            assert(r is Ok ==> prepared(decoded) == Ok::<Seq<Ratio>, ValidationError>(
                r->Ok_0@,
            ));
            r
        },
        Err(_) => Err(ValidationError::ImageDecode),
    }
}

/// What is returned once the forward pass has answered.
pub open spec fn concluded(answer: Result<Vec<u32>, ForwardFault>) -> Result<
    (Seq<char>, u32),
    ValidationError,
> {
    match answer {
        Ok(scores) => verdict(scores@),
        Err(fault) => Err(fault_error(fault)),
    }
}

/// Where no score is a NaN and `index` is the first maximum, the verdict is
/// the label of `index` together with the score found there.
pub proof fn verdict_follows_first_maximum(scores: Seq<u32>, index: int)
    requires
        !has_nan(scores),
        is_first_maximum(scores, index),
    ensures
        verdict(scores) == Ok::<(Seq<char>, u32), ValidationError>(
            (label_of(index), scores[index]),
        ),
{
    first_maximum_is_unique(scores, index, top_index(scores));
}

/// Two outcomes that report the classification of the same scores agree: in
/// whether they succeed, in label and score, and in the error.
pub proof fn same_scores_same_outcome(
    first: Result<ValidationResult, ValidationError>,
    second: Result<ValidationResult, ValidationError>,
    scores: Seq<u32>,
)
    requires
        reports(first, verdict(scores)),
        reports(second, verdict(scores)),
    ensures
        first is Ok <==> second is Ok,
        first is Ok ==> first->Ok_0.label@ == second->Ok_0.label@ && first->Ok_0.score
            == second->Ok_0.score,
        first is Err ==> first->Err_0 == second->Err_0,
{
}

/// Turns the answer of a forward pass into the result of the classification.
pub fn conclude(answer: Result<Vec<u32>, ForwardFault>) -> (r: Result<
    ValidationResult,
    ValidationError,
>)
    ensures
        reports(r, concluded(answer)),
{
    match answer {
        Ok(scores) => classify(&scores),
        Err(fault) => Err(error_of_fault(fault)),
    }
}

/// Classifies an encoded picture with the model of `context`.
///
/// Without a model nothing else is looked at. With one, a picture larger than
/// the ceiling of the context is refused before it is decoded.
///
/// `forward` performs the forward pass: it is handed the compiled model and
/// the input tensor, and answers with the scores of the first output, each as
/// the bit pattern of a binary32 number. It is called at most once, and only
/// when a model is loaded and the picture was decoded.
pub fn validate_id<F>(context: &Classifier, image: Vec<u8>, forward: F) -> (r: Result<
    ValidationResult,
    ValidationError,
>) where F: Fn(&Plan, &Vec<Ratio>) -> Result<Vec<u32>, ForwardFault>
    requires
        forall|plan: &Plan, tensor: &Vec<Ratio>|
            is_input_tensor(tensor@) ==> call_requires(forward, (plan, tensor)),
    ensures
        !context.is_loaded() <==> r == Err::<ValidationResult, ValidationError>(
            ValidationError::ModelNotLoaded,
        ),
        context.is_loaded() && context.exceeds_limit(image@.len()) <==> r == Err::<
            ValidationResult,
            ValidationError,
        >(ValidationError::ImageTooLarge),
        context.is_loaded() && !context.exceeds_limit(image@.len()) ==> r == Err::<
            ValidationResult,
            ValidationError,
        >(ValidationError::ImageDecode) || exists|
            plan: &Plan,
            tensor: &Vec<Ratio>,
            answer: Result<Vec<u32>, ForwardFault>,
        |
            context.model() == Some(*plan) && is_input_tensor(tensor@) && call_ensures(
                forward,
                (plan, tensor),
                answer,
            ) && reports(r, concluded(answer)),
{
    let plan = match context.plan() {
        Some(plan) => plan,
        None => {
            return Err(ValidationError::ModelNotLoaded);
        },
    };
    match context.limit() {
        Some(max_bytes) => {
            if image.len() > max_bytes {
                return Err(ValidationError::ImageTooLarge);
            }
        },
        None => {},
    }
    let tensor = match prepare(image.as_slice()) {
        Ok(tensor) => tensor,
        Err(error) => {
            return Err(error);
        },
    };
    let answer = forward(plan, &tensor);
    let ghost seen = answer;
    let r = conclude(answer);
    proof {
        assert(call_ensures(forward, (plan, &tensor), seen));
        assert(reports(r, concluded(seen)));
        assert(r != Err::<ValidationResult, ValidationError>(ValidationError::ModelNotLoaded));
        assert(r != Err::<ValidationResult, ValidationError>(ValidationError::ImageTooLarge));
    }
    r
}

} // verus!
