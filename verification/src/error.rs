//! The ways an operation on a video file can fail.

use vstd::prelude::*;

verus! {

/// Why an extraction, a validation or a merge did not produce its result.
#[derive(Debug, Clone, PartialEq, Eq)]
pub enum VideoError {
    /// The source file is missing; holds its path.  Reported before any
    /// process is started.
    NotFound(String),
    /// The tool could not be started; holds the reason.
    ProcessSpawnFailure(String),
    /// The tool exited with a non-zero status; holds what it wrote to its
    /// error stream.
    ProcessFailure(String),
    /// The tool succeeded but its output could not be used; holds what was
    /// wrong with it.
    MalformedOutput(String),
    /// The tool reported success but the file it should have written is
    /// absent; holds the expected path.
    OutputMissing(String),
}

/// A [`VideoError`] with its text as a sequence of characters.
pub enum VideoErrorView {
    NotFound(Seq<char>),
    ProcessSpawnFailure(Seq<char>),
    ProcessFailure(Seq<char>),
    MalformedOutput(Seq<char>),
    OutputMissing(Seq<char>),
}

impl View for VideoError {
    type V = VideoErrorView;

    open spec fn view(&self) -> VideoErrorView {
        match self {
            VideoError::NotFound(s) => VideoErrorView::NotFound(s@),
            VideoError::ProcessSpawnFailure(s) => VideoErrorView::ProcessSpawnFailure(s@),
            VideoError::ProcessFailure(s) => VideoErrorView::ProcessFailure(s@),
            VideoError::MalformedOutput(s) => VideoErrorView::MalformedOutput(s@),
            VideoError::OutputMissing(s) => VideoErrorView::OutputMissing(s@),
        }
    }
}

} // verus!
