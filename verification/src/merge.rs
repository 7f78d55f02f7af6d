//! Validation of media files and the merging of segments into one file.

use vstd::prelude::*;
use crate::command::{push_arg, Tool, ToolCommand, ToolCommandView, ToolExit};
use crate::error::{VideoError, VideoErrorView};
use crate::frames::{is_uuid_text, random_id};
use crate::text::chars_of;

verus! {

/// The segments to merge, in the order in which they are to appear.
#[derive(Debug, Clone, PartialEq, Eq)]
pub struct MergeVideosRequest {
    pub video_paths: Vec<String>,
}

/// The file that a merge produced.
#[derive(Debug, Clone, PartialEq, Eq)]
pub struct MergeVideosResponse {
    pub video_path: String,
}

/// The file to validate.
#[derive(Debug, Clone, PartialEq, Eq)]
pub struct ValidateMediaParams {
    pub file_path: String,
}

/// The arguments that decode a file to a null sink, reporting errors only.
pub open spec fn validation_args(path: Seq<char>) -> Seq<Seq<char>> {
    seq!["-v"@, "error"@, "-i"@, path, "-f"@, "null"@, "-"@]
}

/// Plans the validation of a media file.  A missing file is reported and
/// nothing is to be run.
pub fn validate_media_command(file_path: &str, exists: bool) -> (r: Result<
    ToolCommand,
    VideoError,
>)
    ensures
        match r {
            Ok(command) => exists && command@ == (ToolCommandView {
                tool: Tool::Ffmpeg,
                args: validation_args(file_path@),
            }),
            Err(e) => !exists && e@ == VideoErrorView::NotFound(file_path@),
        },
{
    if !exists {
        return Err(VideoError::NotFound(file_path.to_owned()));
    }
    let mut args: Vec<String> = Vec::new();
    push_arg(&mut args, "-v");
    push_arg(&mut args, "error");
    push_arg(&mut args, "-i");
    push_arg(&mut args, file_path);
    push_arg(&mut args, "-f");
    push_arg(&mut args, "null");
    push_arg(&mut args, "-");
    assert(args.deep_view() =~= validation_args(file_path@));
    Ok(ToolCommand { tool: Tool::Ffmpeg, args })
}

/// Concludes a validation: the file is valid exactly when the run
/// succeeded, and a run that did not succeed is reported as its failure.
pub fn validate_media(exit: &ToolExit) -> (r: Result<(), VideoError>)
    ensures
        match r {
            Ok(_) => exit.failure() is None,
            Err(e) => exit.failure() == Some(e@),
        },
{
    exit.check()
}

/// What stands for a single quote inside a quoted manifest entry: the
/// quote is closed, an escaped quote follows, and the quote is reopened.
pub open spec fn escaped_quote() -> Seq<char> {
    seq!['\'', '\\', '\'', '\'']
}

/// What stands for one character inside a quoted manifest entry.
pub open spec fn escaped_char(c: char) -> Seq<char> {
    if c == '\'' {
        escaped_quote()
    } else {
        seq![c]
    }
}

/// A path with every single quote escaped.
pub open spec fn escaped(path: Seq<char>) -> Seq<char> {
    path.map_values(|c: char| escaped_char(c)).flatten()
}

/// The manifest line for one segment.
pub open spec fn manifest_entry(path: Seq<char>) -> Seq<char> {
    "file '"@ + escaped(path) + seq!['\'', '\n']
}

/// The segments that passed validation, in the order given.
pub open spec fn kept_segments(paths: Seq<Seq<char>>, valid: Seq<bool>) -> Seq<Seq<char>>
    recommends
        paths.len() == valid.len(),
    decreases paths.len(),
{
    if paths.len() == 0 {
        Seq::empty()
    } else {
        let before = kept_segments(paths.drop_last(), valid.take(paths.len() - 1));
        if valid[paths.len() - 1] {
            before.push(paths.last())
        } else {
            before
        }
    }
}

/// The manifest of a merge: one line for each segment that passed
/// validation, in the order given, and nothing for the others.
pub open spec fn manifest(paths: Seq<Seq<char>>, valid: Seq<bool>) -> Seq<char> {
    kept_segments(paths, valid).map_values(|p: Seq<char>| manifest_entry(p)).flatten()
}

/// Appends `path`, with every single quote escaped, to `out`.
pub fn push_escaped(out: &mut String, path: &str)
    ensures
        final(out)@ == old(out)@ + escaped(path@),
{
    let ghost before = out@;
    let chars = chars_of(path);
    let ghost each = |c: char| escaped_char(c);
    let mut i: usize = 0;
    assert(chars@.take(0).map_values(each) =~= Seq::<Seq<char>>::empty());
    while i < chars.len()
        invariant
            i <= chars.len(),
            chars@ == path@,
            each == |c: char| escaped_char(c),
            out@ == before + chars@.take(i as int).map_values(each).flatten(),
        decreases chars.len() - i,
    {
        let c = chars[i];
        proof {
            let done = chars@.take(i as int);
            assert(chars@.take(i + 1) =~= done.push(c));
            done.lemma_push_map_commute(each, c);
            done.map_values(each).lemma_flatten_push(each(c));
        }
        if c == '\'' {
            out.push('\'');
            out.push('\\');
            out.push('\'');
            out.push('\'');
        } else {
            out.push(c);
        }
        assert(out@ =~= before + chars@.take(i + 1).map_values(each).flatten());
        i += 1;
    }
    assert(chars@.take(chars.len() as int) =~= chars@);
}

/// Appends the manifest line of `path` to `out`.
pub fn push_manifest_entry(out: &mut String, path: &str)
    ensures
        final(out)@ == old(out)@ + manifest_entry(path@),
{
    let ghost before = out@;
    out.append("file '");
    push_escaped(out, path);
    out.push('\'');
    out.push('\n');
    assert(out@ =~= before + manifest_entry(path@));
}

/// Writes the manifest of a merge from the outcome of each validation.
pub fn merge_manifest(request: &MergeVideosRequest, valid: &Vec<bool>) -> (text: String)
    requires
        valid@.len() == request.video_paths@.len(),
    ensures
        text@ == manifest(request.video_paths.deep_view(), valid@),
{
    let paths = &request.video_paths;
    let ghost all = paths.deep_view();
    let ghost line = |p: Seq<char>| manifest_entry(p);
    let mut text = String::new();
    let mut i: usize = 0;
    assert(kept_segments(all.take(0), valid@.take(0)).map_values(line) =~= Seq::<
        Seq<char>,
    >::empty());
    while i < paths.len()
        invariant
            i <= paths.len(),
            valid@.len() == paths@.len(),
            all == paths.deep_view(),
            line == |p: Seq<char>| manifest_entry(p),
            text@ == kept_segments(all.take(i as int), valid@.take(i as int)).map_values(
                line,
            ).flatten(),
        decreases paths.len() - i,
    {
        proof {
            let kept = kept_segments(all.take(i as int), valid@.take(i as int));
            assert(all.take(i + 1).drop_last() =~= all.take(i as int));
            assert(valid@.take(i + 1).take(i as int) =~= valid@.take(i as int));
            assert(all.take(i + 1).last() == paths@[i as int]@);
            kept.lemma_push_map_commute(line, paths@[i as int]@);
            kept.map_values(line).lemma_flatten_push(line(paths@[i as int]@));
        }
        if valid[i] {
            push_manifest_entry(&mut text, paths[i].as_str());
        }
        i += 1;
    }
    assert(all.take(paths.len() as int) =~= all);
    assert(valid@.take(paths.len() as int) =~= valid@);
    text
}

/// The name of the manifest file for an identifier.
pub open spec fn manifest_name_for(id: Seq<char>) -> Seq<char> {
    "input_list_"@ + id + ".txt"@
}

/// Names the manifest file after an identifier.
pub fn manifest_file_name(id: &str) -> (name: String)
    ensures
        name@ == manifest_name_for(id@),
{
    let mut name = "input_list_".to_owned();
    name.append(id);
    name.append(".txt");
    name
}

/// Names the manifest file with a fresh random identifier, so that merges
/// into one directory do not share it.
pub fn new_manifest_file_name() -> (name: String)
    ensures
        exists|id: Seq<char>| is_uuid_text(id) && name@ == #[trigger] manifest_name_for(id),
{
    let id = random_id();
    manifest_file_name(id.as_str())
}

/// The name of the merged file for an identifier.
pub open spec fn output_name(id: Seq<char>) -> Seq<char> {
    "output_"@ + id + ".mp4"@
}

/// Names the merged file after an identifier.
pub fn merge_output_name(id: &str) -> (name: String)
    ensures
        name@ == output_name(id@),
{
    let mut name = "output_".to_owned();
    name.append(id);
    name.append(".mp4");
    name
}

/// Names the merged file with a fresh random identifier.
pub fn new_merge_output_name() -> (name: String)
    ensures
        exists|id: Seq<char>| is_uuid_text(id) && name@ == #[trigger] output_name(id),
{
    let id = random_id();
    merge_output_name(id.as_str())
}

/// The arguments that concatenate the segments of a manifest by stream
/// copy.
pub open spec fn concat_args(list: Seq<char>, output: Seq<char>) -> Seq<Seq<char>> {
    seq!["-f"@, "concat"@, "-safe"@, "0"@, "-i"@, list, "-c"@, "copy"@, "-y"@, output]
}

/// Plans the concatenation of the segments listed in the manifest at
/// `list_path` into `output_path`.
pub fn merge_videos_command(list_path: &str, output_path: &str) -> (command: ToolCommand)
    ensures
        command@ == (ToolCommandView {
            tool: Tool::Ffmpeg,
            args: concat_args(list_path@, output_path@),
        }),
{
    let mut args: Vec<String> = Vec::new();
    push_arg(&mut args, "-f");
    push_arg(&mut args, "concat");
    push_arg(&mut args, "-safe");
    push_arg(&mut args, "0");
    push_arg(&mut args, "-i");
    push_arg(&mut args, list_path);
    push_arg(&mut args, "-c");
    push_arg(&mut args, "copy");
    push_arg(&mut args, "-y");
    push_arg(&mut args, output_path);
    assert(args.deep_view() =~= concat_args(list_path@, output_path@));
    ToolCommand { tool: Tool::Ffmpeg, args }
}

/// The outcome of a merge: the failure of a run that did not succeed, the
/// expected path as missing where the run succeeded without writing it,
/// else the path.
pub open spec fn merge_outcome(exit: ToolExit, output_exists: bool, output: Seq<char>) -> Result<
    Seq<char>,
    VideoErrorView,
> {
    match exit.failure() {
        Some(e) => Err(e),
        None => if output_exists {
            Ok(output)
        } else {
            Err(VideoErrorView::OutputMissing(output))
        },
    }
}

/// Concludes a merge from how the run ended and whether the merged file
/// is on disk.
pub fn merge_videos(exit: &ToolExit, output_exists: bool, output_path: &str) -> (r: Result<
    MergeVideosResponse,
    VideoError,
>)
    ensures
        match r {
            Ok(response) => merge_outcome(*exit, output_exists, output_path@) == Ok::<
                Seq<char>,
                VideoErrorView,
            >(response.video_path@),
            Err(e) => merge_outcome(*exit, output_exists, output_path@) == Err::<
                Seq<char>,
                VideoErrorView,
            >(e@),
        },
{
    match exit.check() {
        Err(e) => Err(e),
        Ok(_) => if output_exists {
            Ok(MergeVideosResponse { video_path: output_path.to_owned() })
        } else {
            Err(VideoError::OutputMissing(output_path.to_owned()))
        },
    }
}

/// When no segment passed validation, nothing is kept and the manifest is
/// empty.
pub proof fn lemma_manifest_without_valid_segments(paths: Seq<Seq<char>>, valid: Seq<bool>)
    requires
        paths.len() == valid.len(),
        forall|i: int| 0 <= i < valid.len() ==> !valid[i],
    ensures
        kept_segments(paths, valid) == Seq::<Seq<char>>::empty(),
        manifest(paths, valid) == Seq::<char>::empty(),
    decreases paths.len(),
{
    if paths.len() > 0 {
        lemma_manifest_without_valid_segments(paths.drop_last(), valid.take(paths.len() - 1));
    }
    assert(kept_segments(paths, valid).map_values(|p: Seq<char>| manifest_entry(p)) =~= Seq::<
        Seq<char>,
    >::empty());
}

/// When every segment passed validation, all are kept in the order given.
pub proof fn lemma_manifest_with_all_segments_valid(paths: Seq<Seq<char>>, valid: Seq<bool>)
    requires
        paths.len() == valid.len(),
        forall|i: int| 0 <= i < valid.len() ==> valid[i],
    ensures
        kept_segments(paths, valid) == paths,
    decreases paths.len(),
{
    if paths.len() > 0 {
        lemma_manifest_with_all_segments_valid(paths.drop_last(), valid.take(paths.len() - 1));
        assert(paths.drop_last().push(paths.last()) =~= paths);
    } else {
        assert(kept_segments(paths, valid) =~= paths);
    }
}

/// Dropping a segment that failed validation from the request changes
/// neither what is kept nor the manifest.
pub proof fn lemma_invalid_segment_leaves_no_trace(
    paths: Seq<Seq<char>>,
    valid: Seq<bool>,
    at: int,
)
    requires
        paths.len() == valid.len(),
        0 <= at < paths.len(),
        !valid[at],
    ensures
        kept_segments(paths, valid) == kept_segments(paths.remove(at), valid.remove(at)),
        manifest(paths, valid) == manifest(paths.remove(at), valid.remove(at)),
    decreases paths.len(),
{
    let last = paths.len() - 1;
    if at == last {
        assert(paths.remove(at) =~= paths.drop_last());
        assert(valid.remove(at) =~= valid.take(last));
    } else {
        lemma_invalid_segment_leaves_no_trace(paths.drop_last(), valid.take(last), at);
        assert(paths.remove(at).drop_last() =~= paths.drop_last().remove(at));
        assert(valid.remove(at).take(last - 1) =~= valid.take(last).remove(at));
        assert(paths.remove(at).last() == paths.last());
        assert(valid.remove(at)[last - 1] == valid[last]);
    }
}

} // verus!
