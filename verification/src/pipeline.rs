//! The boundary to the pipeline builder: how its reports become results for the caller.
//!
//! Building the processing graph is somebody else's work. What is decided here is which
//! error the caller sees for each way in which that work can fail.

use crate::error::MediaPipelineError;
use vstd::prelude::*;

verus! {

/// What the builder reports after it was given a pipeline description.
#[derive(Debug, Clone, PartialEq, Eq)]
pub enum Construction {
    /// The media framework could not be initialised; the text says why.
    InitFailed(String),
    /// The description could not be parsed; the text says why.
    ParseFailed(String),
    /// The description was parsed, but what it describes is no pipeline.
    NotAPipeline,
    /// The pipeline stands.
    Built,
}

/// What the builder reports after it was asked for a named element of a given type.
#[derive(Debug, Clone, Copy, PartialEq, Eq)]
pub enum Lookup {
    /// The pipeline has no element of that name.
    Missing,
    /// The element of that name has another type.
    Mistyped,
    /// The element is there and has the type asked for.
    Found,
}

/// The result of building a pipeline, for each report of the builder.
pub open spec fn construction_result(report: Construction) -> Result<(), MediaPipelineError> {
    match report {
        Construction::InitFailed(cause) => Err(MediaPipelineError::GlibError(cause)),
        Construction::ParseFailed(cause) => Err(MediaPipelineError::ParseLaunchError(cause)),
        Construction::NotAPipeline => Err(MediaPipelineError::CreatePipelineError),
        Construction::Built => Ok(()),
    }
}

/// The result of looking an element up, for each report of the builder.
pub open spec fn lookup_result(name: &'static str, report: Lookup) -> Result<
    (),
    MediaPipelineError,
> {
    match report {
        Lookup::Missing => Err(MediaPipelineError::CreateElementError(name)),
        Lookup::Mistyped => Err(MediaPipelineError::DowncastElementError(name)),
        Lookup::Found => Ok(()),
    }
}

/// Turns the builder's report on a pipeline into the result that the caller sees. A failure
/// here comes before any thread of the session is started.
pub fn create_pipeline(report: Construction) -> (result: Result<(), MediaPipelineError>)
    ensures
        result == construction_result(report),
{
    match report {
        Construction::InitFailed(cause) => Err(MediaPipelineError::glib_error(cause)),
        Construction::ParseFailed(cause) => Err(MediaPipelineError::ParseLaunchError(cause)),
        Construction::NotAPipeline => Err(MediaPipelineError::CreatePipelineError),
        Construction::Built => Ok(()),
    }
}

/// Turns the builder's report on an element into the result that the caller sees.
pub fn element(name: &'static str, report: Lookup) -> (result: Result<(), MediaPipelineError>)
    ensures
        result == lookup_result(name, report),
{
    match report {
        Lookup::Missing => Err(MediaPipelineError::CreateElementError(name)),
        Lookup::Mistyped => Err(MediaPipelineError::DowncastElementError(name)),
        Lookup::Found => Ok(()),
    }
}

} // verus!
