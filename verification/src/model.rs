//! The compiled model and the context that keeps it.

use vstd::prelude::*;
use std::sync::Arc;
use prost::Message;
use tract_onnx::prelude::Framework;
use tract_onnx::prelude::InferenceModelExt;
use tract_onnx::prelude::IntoRunnable;
use tract_onnx::prelude::TypedSimplePlan;
use crate::error::ValidationError;

verus! {

/// The error of the inference runtime, `anyhow::Error`: carried, never read.
#[verifier::external_type_specification]
#[verifier::external_body]
pub struct ExError(anyhow::Error);

/// A compiled model: the runnable plan of `tract_onnx`, kept whole. The plan's
/// type is generic over a trait object of the runtime, so the verifier is told
/// nothing of what is inside; the code that performs the forward pass reads
/// the field.
#[verifier::external_body]
pub struct Plan {
    pub inner: Arc<TypedSimplePlan>,
}

/// Parses a model document and compiles it into an optimised, runnable plan.
///
/// Calls `ModelProto::decode` of `tract_onnx::pb`, then `model_for_proto_model`,
/// `into_optimized` and `into_runnable` of `tract_onnx`. Nothing is claimed of
/// the outcome: which documents compile is the runtime's matter.
#[verifier::external_body]
fn compile(document: &[u8]) -> (r: Result<Plan, anyhow::Error>) {
    let proto = tract_onnx::pb::ModelProto::decode(bytes::Bytes::copy_from_slice(document))?;
    let inner = tract_onnx::onnx().model_for_proto_model(&proto)?.into_optimized()?.into_runnable()?;
    Ok(Plan { inner })
}

/// The state of one execution context: the compiled model, once it is loaded,
/// and the greatest number of bytes that an encoded picture may have, where
/// the context was made with such a ceiling.
pub struct Classifier {
    plan: Option<Plan>,
    limit: Option<usize>,
}

impl Classifier {
    /// Whether a compiled model is available.
    pub closed spec fn is_loaded(&self) -> bool {
        self.plan is Some
    }

    /// The ceiling on the size of an encoded picture, if there is one.
    pub closed spec fn byte_limit(&self) -> Option<usize> {
        self.limit
    }

    /// Whether a picture of `len` bytes is larger than the ceiling allows.
    pub open spec fn exceeds_limit(&self, len: nat) -> bool {
        self.byte_limit() is Some && len > self.byte_limit()->Some_0
    }

    /// A context in which no model is loaded yet, and which accepts encoded
    /// pictures of any size.
    pub fn new() -> (r: Classifier)
        ensures
            !r.is_loaded(),
            r.byte_limit() is None,
    {
        Classifier { plan: None, limit: None }
    }

    /// A context in which no model is loaded yet, and which refuses encoded
    /// pictures of more than `max_bytes` bytes.
    pub fn with_limit(max_bytes: usize) -> (r: Classifier)
        ensures
            !r.is_loaded(),
            r.byte_limit() == Some(max_bytes),
    {
        Classifier { plan: None, limit: Some(max_bytes) }
    }

    /// The ceiling on the size of an encoded picture, if there is one.
    pub fn limit(&self) -> (r: Option<usize>)
        ensures
            r == self.byte_limit(),
    {
        self.limit
    }

    /// The compiled model, if one is loaded.
    pub closed spec fn model(&self) -> Option<Plan> {
        self.plan
    }

    /// The compiled model, if one is loaded.
    pub fn plan(&self) -> (r: Option<&Plan>)
        ensures
            r is Some == self.is_loaded(),
            r is Some ==> self.model() == Some(*r->Some_0),
    {
        self.plan.as_ref()
    }

    /// Tells whether a compiled model is available.
    pub fn loaded(&self) -> (r: bool)
        ensures
            r == self.is_loaded(),
    {
        self.plan.is_some()
    }
}

/// Stores a freshly compiled plan in `context`, in place of any plan that was
/// there. Where the compilation failed the context is left as it was and the
/// failure is reported as `ModelLoad`.
pub fn install(context: &mut Classifier, compiled: Result<Plan, anyhow::Error>) -> (r: Result<
    (),
    ValidationError,
>)
    ensures
        final(context).byte_limit() == old(context).byte_limit(),
        match compiled {
            Ok(plan) => r == Ok::<(), ValidationError>(()) && final(context).model() == Some(plan),
            Err(_) => r == Err::<(), ValidationError>(ValidationError::ModelLoad)
                && *final(context) == *old(context),
        },
{
    match compiled {
        Ok(plan) => {
            context.plan = Some(plan);
            Ok(())
        },
        Err(_) => Err(ValidationError::ModelLoad),
    }
}

/// Compiles the model document and stores the plan in `context`, in place of
/// any plan that was there.
///
/// When the document does not compile the context is left as it was.
pub fn setup(context: &mut Classifier, document: &[u8]) -> (r: Result<(), ValidationError>)
    ensures
        final(context).byte_limit() == old(context).byte_limit(),
        r is Ok ==> final(context).is_loaded(),
        r is Err ==> r == Err::<(), ValidationError>(ValidationError::ModelLoad) && *final(context)
            == *old(context),
{
    install(context, compile(document))
}

} // verus!
