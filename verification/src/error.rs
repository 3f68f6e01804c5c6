//! Errors that a media pipeline session reports to its caller.

use vstd::prelude::*;
use vstd::string::StringExecFns;

verus! {

/// Everything that can go wrong while a pipeline is built, started or torn down.
#[derive(Debug, Clone, PartialEq, Eq)]
pub enum MediaPipelineError {
    /// The named element is missing from the pipeline.
    CreateElementError(&'static str),
    /// The launch description did not produce a pipeline.
    CreatePipelineError,
    /// The named element exists but has another type than asked for.
    DowncastElementError(&'static str),
    /// An error raised by the object system below the pipeline, or carried by a bus message.
    GlibError(String),
    /// The media framework could not be initialised.
    InitError(String),
    /// The launch description could not be parsed.
    ParseLaunchError(String),
    /// The pipeline refused to change state.
    StateChangeError(String),
}

impl MediaPipelineError {
    /// What the text shown for this error starts with, before the detail it carries.
    pub open spec fn headline(self) -> Seq<char> {
        match self {
            MediaPipelineError::CreateElementError(_) => "Could not create element: "@,
            MediaPipelineError::CreatePipelineError => "Failed to create a pipeline"@,
            MediaPipelineError::DowncastElementError(_) => "Could not downcast element: "@,
            MediaPipelineError::GlibError(_) => "Error in glib: "@,
            MediaPipelineError::InitError(_) => "Failed to initialize GStreamer: "@,
            MediaPipelineError::ParseLaunchError(_) => "Failed to parse the launch: "@,
            MediaPipelineError::StateChangeError(_) => "Failed to parse the launch: "@,
        }
    }

    /// The detail that the error carries: an element name, or the text of the cause.
    pub open spec fn detail(self) -> Seq<char> {
        match self {
            MediaPipelineError::CreateElementError(name) => name@,
            MediaPipelineError::CreatePipelineError => Seq::empty(),
            MediaPipelineError::DowncastElementError(name) => name@,
            MediaPipelineError::GlibError(text) => text@,
            MediaPipelineError::InitError(text) => text@,
            MediaPipelineError::ParseLaunchError(text) => text@,
            MediaPipelineError::StateChangeError(text) => text@,
        }
    }

    /// The full text shown for this error.
    pub open spec fn message_spec(self) -> Seq<char> {
        self.headline() + self.detail()
    }

    /// The error for a failure reported by the object system, from the failure's own text.
    pub fn glib_error(text: String) -> (error: MediaPipelineError)
        ensures
            error == MediaPipelineError::GlibError(text),
    {
        MediaPipelineError::GlibError(text)
    }

    /// The error for a refused state change, from the refusal's own text.
    pub fn state_change_error(text: String) -> (error: MediaPipelineError)
        ensures
            error == MediaPipelineError::StateChangeError(text),
    {
        MediaPipelineError::StateChangeError(text)
    }

    /// Renders the error as the text shown to a user.
    pub fn message(&self) -> (text: String)
        ensures
            text@ == self.message_spec(),
    {
        match self {
            MediaPipelineError::CreateElementError(name) => {
                String::from_str("Could not create element: ").concat(name)
            },
            MediaPipelineError::CreatePipelineError => {
                let text = String::from_str("Failed to create a pipeline");
                assert(text@ + Seq::<char>::empty() =~= text@);
                text
            },
            MediaPipelineError::DowncastElementError(name) => {
                String::from_str("Could not downcast element: ").concat(name)
            },
            MediaPipelineError::GlibError(cause) => {
                String::from_str("Error in glib: ").concat(cause.as_str())
            },
            MediaPipelineError::InitError(cause) => {
                String::from_str("Failed to initialize GStreamer: ").concat(cause.as_str())
            },
            MediaPipelineError::ParseLaunchError(cause) => {
                String::from_str("Failed to parse the launch: ").concat(cause.as_str())
            },
            MediaPipelineError::StateChangeError(cause) => {
                String::from_str("Failed to parse the launch: ").concat(cause.as_str())
            },
        }
    }
}

} // verus!
