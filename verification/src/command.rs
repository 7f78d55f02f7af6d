//! What the host is asked to run, and what it reports back.

use vstd::prelude::*;
use crate::error::{VideoError, VideoErrorView};

verus! {

/// One of the two binaries of the media tool.  They are installed side by
/// side; the host locates them.
#[derive(Debug, Clone, Copy, PartialEq, Eq, Structural)]
pub enum Tool {
    /// The decoder and encoder.
    Ffmpeg,
    /// The read-only prober.
    Ffprobe,
}

/// One invocation for the host to perform.
#[derive(Debug, Clone, PartialEq, Eq)]
pub struct ToolCommand {
    pub tool: Tool,
    pub args: Vec<String>,
}

/// A [`ToolCommand`] with its arguments as character sequences.
pub struct ToolCommandView {
    pub tool: Tool,
    pub args: Seq<Seq<char>>,
}

impl View for ToolCommand {
    type V = ToolCommandView;

    open spec fn view(&self) -> ToolCommandView {
        ToolCommandView { tool: self.tool, args: self.args.deep_view() }
    }
}

/// How a run of the tool ended.
#[derive(Debug, Clone, PartialEq, Eq)]
pub enum ToolExit {
    /// The process could not be started; holds the reason.
    SpawnFailed(String),
    /// The process exited with a non-zero status; holds its error stream.
    Failed(String),
    /// The process exited with status zero.
    Succeeded,
}

impl ToolExit {
    /// The error that a run which did not succeed stands for.
    pub open spec fn failure(&self) -> Option<VideoErrorView> {
        match self {
            ToolExit::SpawnFailed(reason) => Some(VideoErrorView::ProcessSpawnFailure(reason@)),
            ToolExit::Failed(stderr) => Some(VideoErrorView::ProcessFailure(stderr@)),
            ToolExit::Succeeded => None,
        }
    }

    /// Turns a run that did not succeed into its error.
    pub fn check(&self) -> (r: Result<(), VideoError>)
        ensures
            match r {
                Ok(_) => self.failure() is None,
                Err(e) => self.failure() == Some(e@),
            },
    {
        match self {
            ToolExit::SpawnFailed(reason) => Err(VideoError::ProcessSpawnFailure(reason.clone())),
            ToolExit::Failed(stderr) => Err(VideoError::ProcessFailure(stderr.clone())),
            ToolExit::Succeeded => Ok(()),
        }
    }
}

/// A finished run of the prober: how it ended and what it printed.  When
/// the process could not be started the printed text is empty.
#[derive(Debug, Clone, PartialEq, Eq)]
pub struct ProbeRun {
    pub exit: ToolExit,
    pub stdout: String,
}

/// Appends a copy of `arg` to an argument list.
pub fn push_arg(args: &mut Vec<String>, arg: &str)
    ensures
        final(args).deep_view() == old(args).deep_view().push(arg@),
{
    let ghost before = args.deep_view();
    args.push(arg.to_owned());
    assert(args.deep_view() =~= before.push(arg@));
}

} // verus!
