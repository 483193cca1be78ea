//! The uniform result of a point operation.
//!
//! Whatever the engine reports is brought into one of three shapes: success,
//! with the bytes that were found where there are any; not found, which only
//! a read can give; and failure, which carries the engine's own words
//! unchanged.

use vstd::prelude::*;

verus! {

/// The outcome of `put`, `delete` or `get`.
#[derive(Clone, Debug, PartialEq, Eq)]
pub enum OperationResult {
    /// The operation was carried out. A read carries the stored bytes.
    Success(Option<Vec<u8>>),
    /// A read found no value under the key.
    NotFound,
    /// The engine failed, and said why.
    Failure(String),
}

/// The mathematical content of an [`OperationResult`].
pub enum ResultModel {
    Success(Option<Seq<u8>>),
    NotFound,
    Failure(Seq<char>),
}

impl View for OperationResult {
    type V = ResultModel;

    open spec fn view(&self) -> ResultModel {
        match self {
            OperationResult::Success(Some(bytes)) => ResultModel::Success(Some(bytes@)),
            OperationResult::Success(None) => ResultModel::Success(None),
            OperationResult::NotFound => ResultModel::NotFound,
            OperationResult::Failure(reason) => ResultModel::Failure(reason@),
        }
    }
}

/// What a write comes to: success without bytes where the engine accepted
/// it, failure with the engine's words where it did not.
pub open spec fn spec_conclude_write(outcome: Result<(), Seq<char>>) -> ResultModel {
    match outcome {
        Ok(_) => ResultModel::Success(None),
        Err(reason) => ResultModel::Failure(reason),
    }
}

/// What a read comes to: success with the stored bytes where the key holds
/// a value, not found where it holds none, failure with the engine's words
/// where the engine failed.
pub open spec fn spec_conclude_read(outcome: Result<Option<Seq<u8>>, Seq<char>>) -> ResultModel {
    match outcome {
        Ok(Some(bytes)) => ResultModel::Success(Some(bytes)),
        Ok(None) => ResultModel::NotFound,
        Err(reason) => ResultModel::Failure(reason),
    }
}

/// The engine's answer to a write, with the text of its error as a model.
pub open spec fn write_model(outcome: Result<(), String>) -> Result<(), Seq<char>> {
    match outcome {
        Ok(_) => Ok(()),
        Err(reason) => Err(reason@),
    }
}

/// The engine's answer to a read, with bytes and text as models.
pub open spec fn read_model(outcome: Result<Option<Vec<u8>>, String>) -> Result<Option<Seq<u8>>, Seq<char>> {
    match outcome {
        Ok(Some(bytes)) => Ok(Some(bytes@)),
        Ok(None) => Ok(None),
        Err(reason) => Err(reason@),
    }
}

/// Brings the engine's answer to a `put` or a `delete` into the uniform
/// shape. A write never comes to [`OperationResult::NotFound`]: removing a
/// key that holds no value is a success like any other.
pub fn conclude_write(outcome: Result<(), String>) -> (r: OperationResult)
    ensures
        r@ == spec_conclude_write(write_model(outcome)),
        !(r is NotFound),
        r is Success <==> outcome is Ok,
{
    match outcome {
        Ok(_) => OperationResult::Success(None),
        Err(reason) => OperationResult::Failure(reason),
    }
}

/// Brings the engine's answer to a `get` into the uniform shape. The bytes
/// that the engine found are handed on as they are.
pub fn conclude_read(outcome: Result<Option<Vec<u8>>, String>) -> (r: OperationResult)
    ensures
        r@ == spec_conclude_read(read_model(outcome)),
        r is NotFound <==> outcome == Ok::<Option<Vec<u8>>, String>(None),
        r is Failure <==> outcome is Err,
{
    match outcome {
        Ok(Some(bytes)) => OperationResult::Success(Some(bytes)),
        Ok(None) => OperationResult::NotFound,
        Err(reason) => OperationResult::Failure(reason),
    }
}

} // verus!
