//! The errors of the runtime.

use vstd::prelude::*;

verus! {

/// Why an operation of the runtime was refused.
#[derive(Debug)]
pub enum Qwen3TtsError {
    /// An argument does not have the form that the operation needs.
    InvalidInput(String),
    /// The model file holds no tensor of this name.
    MissingTensor(String),
    /// The tensor of this name cannot be used.
    InvalidTensor(String),
    /// A tensor's element type is not handled by this step.
    UnsupportedTensorType(String),
    /// A path names no file.
    InvalidPath,
}

/// What contracts say of a [`Qwen3TtsError`]: its kind and its text.
pub enum ErrorModel {
    InvalidInput(Seq<char>),
    MissingTensor(Seq<char>),
    InvalidTensor(Seq<char>),
    UnsupportedTensorType(Seq<char>),
    InvalidPath,
}

impl View for Qwen3TtsError {
    type V = ErrorModel;

    open spec fn view(&self) -> ErrorModel {
        match self {
            Qwen3TtsError::InvalidInput(text) => ErrorModel::InvalidInput(text@),
            Qwen3TtsError::MissingTensor(text) => ErrorModel::MissingTensor(text@),
            Qwen3TtsError::InvalidTensor(text) => ErrorModel::InvalidTensor(text@),
            Qwen3TtsError::UnsupportedTensorType(text) => ErrorModel::UnsupportedTensorType(text@),
            Qwen3TtsError::InvalidPath => ErrorModel::InvalidPath,
        }
    }
}

impl Qwen3TtsError {
    /// A copy of the error.
    pub fn copied(&self) -> (r: Qwen3TtsError)
        ensures
            r@ == self@,
    {
        match self {
            Qwen3TtsError::InvalidInput(text) => Qwen3TtsError::InvalidInput(text.clone()),
            Qwen3TtsError::MissingTensor(text) => Qwen3TtsError::MissingTensor(text.clone()),
            Qwen3TtsError::InvalidTensor(text) => Qwen3TtsError::InvalidTensor(text.clone()),
            Qwen3TtsError::UnsupportedTensorType(text) => Qwen3TtsError::UnsupportedTensorType(
                text.clone(),
            ),
            Qwen3TtsError::InvalidPath => Qwen3TtsError::InvalidPath,
        }
    }
}

/// A copy of an error is of the same kind and says the same.
pub proof fn lemma_copied(e: Qwen3TtsError, r: Qwen3TtsError)
    requires
        call_ensures(Qwen3TtsError::copied, (&e,), r),
    ensures
        e matches Qwen3TtsError::InvalidInput(a) ==> r is InvalidInput && r->InvalidInput_0@ == a@,
        e matches Qwen3TtsError::MissingTensor(a) ==> r is MissingTensor && r->MissingTensor_0@
            == a@,
        e matches Qwen3TtsError::InvalidTensor(a) ==> r is InvalidTensor && r->InvalidTensor_0@
            == a@,
        e matches Qwen3TtsError::UnsupportedTensorType(a) ==> r is UnsupportedTensorType
            && r->UnsupportedTensorType_0@ == a@,
        e is InvalidPath ==> r is InvalidPath,
{
}

} // verus!
