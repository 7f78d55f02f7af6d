//! Extraction of frames: one frame through a pipe, one frame to a file in
//! standard or high quality, and a whole sequence of frames.

use vstd::prelude::*;
use crate::command::{push_arg, ProbeRun, Tool, ToolCommand, ToolCommandView, ToolExit};
use crate::error::{VideoError, VideoErrorView};
use crate::probe::{get_video_fps_command, light_probe_args, source_rate, source_rate_of};
use crate::rate::{
    cap_above_ten, cap_from_ten, capped_above_ten, capped_from_ten, frames_seek, frames_seek_text,
    millis_seek, millis_seek_text, push_rate, rate_text, Ratio,
};
use crate::text::{push_signed_decimal, signed_decimal};
use crate::timestamp::{current_time, Timestamp};

verus! {

/// `image::DynamicImage`, a decoded picture.  Nothing inside it is visible
/// to proofs.
#[verifier::external_type_specification]
#[verifier::external_body]
pub struct ExDynamicImage(image::DynamicImage);

/// The standard base64 text, with padding, that the `base64` crate gives
/// for a sequence of bytes.
pub uninterp spec fn base64_text(bytes: Seq<u8>) -> Seq<char>;

/// Whether the base64 text of `len` bytes can be held in memory: four
/// characters for every three bytes begun.
pub open spec fn base64_fits(len: nat) -> bool {
    (len + 2) / 3 * 4 <= isize::MAX
}

/// `Engine::encode` of `base64::engine::general_purpose::STANDARD`.  The
/// text depends on the bytes alone and has four characters for every three
/// bytes begun.  The call panics where the length of the text cannot be
/// represented, which the precondition rules out.
#[verifier::external_body]
fn encode_base64(bytes: &Vec<u8>) -> (text: String)
    requires
        base64_fits(bytes@.len()),
    ensures
        text@ == base64_text(bytes@),
        text@.len() == (bytes@.len() + 2) / 3 * 4,
{
    base64::Engine::encode(&base64::engine::general_purpose::STANDARD, bytes)
}

/// Whether `c` is a decimal digit or one of the letters `a` to `f`.
pub open spec fn is_lower_hex(c: char) -> bool {
    ('0' <= c && c <= '9') || ('a' <= c && c <= 'f')
}

/// Whether `id` has the hyphenated form of a UUID: thirty-six characters,
/// hyphens at positions 8, 13, 18 and 23, lower-case hexadecimal digits
/// elsewhere.
pub open spec fn is_uuid_text(id: Seq<char>) -> bool {
    &&& id.len() == 36
    &&& forall|i: int|
        0 <= i < 36 ==> if i == 8 || i == 13 || i == 18 || i == 23 {
            #[trigger] id[i] == '-'
        } else {
            is_lower_hex(id[i])
        }
}

/// `uuid::Uuid::new_v4`, displayed.  Which identifier comes back is left
/// open; only its form is stated.
#[verifier::external_body]
pub(crate) fn random_id() -> (id: String)
    ensures
        is_uuid_text(id@),
{
    uuid::Uuid::new_v4().to_string()
}

/// `image::load_from_memory`, the error given as its display text.  The
/// decoders consulted can be changed while the process runs, so nothing is
/// claimed of the result.
#[verifier::external_body]
fn decode_image(bytes: &Vec<u8>) -> Result<image::DynamicImage, String> {
    image::load_from_memory(bytes).map_err(|e| e.to_string())
}

/// The arguments that extract one frame through a pipe: seek, decode one
/// frame, scale it to three quarters, and write it as JPEG to standard
/// output.
pub open spec fn pipe_frame_args(path: Seq<char>, seek: Seq<char>) -> Seq<Seq<char>> {
    seq![
        "-ss"@,
        seek,
        "-i"@,
        path,
        "-vf"@,
        "scale=iw*0.75:ih*0.75"@,
        "-vframes"@,
        "1"@,
        "-f"@,
        "image2pipe"@,
        "-c:v"@,
        "mjpeg"@,
        "-q:v"@,
        "10"@,
        "-"@,
    ]
}

/// Plans the extraction of one frame through a pipe.  The offset is in
/// milliseconds.  A missing source is reported and nothing is to be run.
pub fn extract_frame_command(file_path: &str, offset_index: i64, source_exists: bool) -> (r:
    Result<ToolCommand, VideoError>)
    ensures
        match r {
            Ok(command) => source_exists && command@ == (ToolCommandView {
                tool: Tool::Ffmpeg,
                args: pipe_frame_args(file_path@, millis_seek(offset_index as int)),
            }),
            Err(e) => !source_exists && e@ == VideoErrorView::NotFound(file_path@),
        },
{
    if !source_exists {
        return Err(VideoError::NotFound(file_path.to_owned()));
    }
    let seek = millis_seek_text(offset_index);
    let mut args: Vec<String> = Vec::new();
    push_arg(&mut args, "-ss");
    push_arg(&mut args, seek.as_str());
    push_arg(&mut args, "-i");
    push_arg(&mut args, file_path);
    push_arg(&mut args, "-vf");
    push_arg(&mut args, "scale=iw*0.75:ih*0.75");
    push_arg(&mut args, "-vframes");
    push_arg(&mut args, "1");
    push_arg(&mut args, "-f");
    push_arg(&mut args, "image2pipe");
    push_arg(&mut args, "-c:v");
    push_arg(&mut args, "mjpeg");
    push_arg(&mut args, "-q:v");
    push_arg(&mut args, "10");
    push_arg(&mut args, "-");
    assert(args.deep_view() =~= pipe_frame_args(file_path@, millis_seek(offset_index as int)));
    Ok(ToolCommand { tool: Tool::Ffmpeg, args })
}

/// What is reported of a run that succeeded without printing a frame.
pub open spec fn no_frame_data() -> Seq<char> {
    "failed to extract frame: no data received"@
}

/// The outcome of a pipe extraction: the failure of a run that did not
/// succeed, a fault where the run printed nothing, else the frame in
/// base64.
pub open spec fn pipe_frame_outcome(exit: ToolExit, frame_data: Seq<u8>) -> Result<
    Seq<char>,
    VideoErrorView,
> {
    match exit.failure() {
        Some(e) => Err(e),
        None => if frame_data.len() == 0 {
            Err(VideoErrorView::MalformedOutput(no_frame_data()))
        } else {
            Ok(base64_text(frame_data))
        },
    }
}

/// Concludes a pipe extraction from how the run ended and what it printed.
pub fn extract_frame(exit: &ToolExit, frame_data: &Vec<u8>) -> (r: Result<String, VideoError>)
    requires
        base64_fits(frame_data@.len()),
    ensures
        match r {
            Ok(text) => pipe_frame_outcome(*exit, frame_data@) == Ok::<Seq<char>, VideoErrorView>(
                text@,
            ),
            Err(e) => pipe_frame_outcome(*exit, frame_data@) == Err::<Seq<char>, VideoErrorView>(
                e@,
            ),
        },
{
    match exit.check() {
        Err(e) => Err(e),
        Ok(_) => if frame_data.len() == 0 {
            Err(VideoError::MalformedOutput("failed to extract frame: no data received".to_owned()))
        } else {
            Ok(encode_base64(frame_data))
        },
    }
}

/// Concludes a pipe extraction for frame data of any length: data too long
/// to encode is handed back untouched as `None`.
pub fn extract_frame_checked(exit: &ToolExit, frame_data: &Vec<u8>) -> (r: Option<
    Result<String, VideoError>,
>)
    ensures
        match r {
            Some(Ok(text)) => base64_fits(frame_data@.len()) && pipe_frame_outcome(
                *exit,
                frame_data@,
            ) == Ok::<Seq<char>, VideoErrorView>(text@),
            Some(Err(e)) => base64_fits(frame_data@.len()) && pipe_frame_outcome(
                *exit,
                frame_data@,
            ) == Err::<Seq<char>, VideoErrorView>(e@),
            None => !base64_fits(frame_data@.len()),
        },
{
    let len = frame_data.len() as u128;
    if (len + 2) / 3 * 4 <= isize::MAX as u128 {
        Some(extract_frame(exit, frame_data))
    } else {
        None
    }
}

/// The directory shared by all standard-quality frames.
pub open spec fn frames_dir() -> Seq<char> {
    "/tmp/screenpipe_frames"@
}

/// The shared directory of standard-quality frames.
pub fn standard_frames_dir() -> (dir: String)
    ensures
        dir@ == frames_dir(),
{
    "/tmp/screenpipe_frames".to_owned()
}

/// The name of a standard-quality frame file: offset and identifier.
pub open spec fn frame_name(offset_index: int, id: Seq<char>) -> Seq<char> {
    "frame_"@ + signed_decimal(offset_index) + "_"@ + id + ".jpg"@
}

/// The name of a high-quality frame file: microseconds and offset.
pub open spec fn high_quality_name(micros: int, offset_index: int) -> Seq<char> {
    "frame_"@ + signed_decimal(micros) + "_"@ + signed_decimal(offset_index) + ".png"@
}

/// Names a standard-quality frame file after an offset and an identifier.
pub fn frame_file_name(offset_index: i64, id: &str) -> (name: String)
    ensures
        name@ == frame_name(offset_index as int, id@),
{
    let mut name = "frame_".to_owned();
    push_signed_decimal(&mut name, offset_index as i128);
    name.append("_");
    name.append(id);
    name.append(".jpg");
    name
}

/// Names a standard-quality frame file with a fresh random identifier.
pub fn new_frame_file_name(offset_index: i64) -> (name: String)
    ensures
        exists|id: Seq<char>|
            is_uuid_text(id) && name@ == #[trigger] frame_name(offset_index as int, id),
{
    let id = random_id();
    frame_file_name(offset_index, id.as_str())
}

/// Names a high-quality frame file after an instant and an offset.
pub fn high_quality_file_name(at: Timestamp, offset_index: i64) -> (name: String)
    ensures
        name@ == high_quality_name(at.micros(), offset_index as int),
{
    let mut name = "frame_".to_owned();
    push_signed_decimal(&mut name, at.to_micros());
    name.append("_");
    push_signed_decimal(&mut name, offset_index as i128);
    name.append(".png");
    name
}

/// Names a high-quality frame file after the present instant.
pub fn new_high_quality_file_name(offset_index: i64) -> (name: String)
    ensures
        exists|at: Timestamp|
            name@ == #[trigger] high_quality_name(at.micros(), offset_index as int),
{
    let at = current_time();
    let name = high_quality_file_name(at, offset_index);
    assert(name@ == high_quality_name(at.micros(), offset_index as int));
    name
}

/// The rate that disk-mode extraction multiplies the frame index by: the
/// source rate from the light probe, one where the probe gives none, and
/// one in place of any rate of ten or more.
pub open spec fn disk_seek_rate(exit: ToolExit, stdout: Seq<char>) -> Ratio {
    capped_from_ten(source_rate(exit, stdout))
}

/// The rate at which a whole sequence is sampled: the source rate from the
/// light probe, one where the probe gives none, and one in place of any
/// rate above ten.
pub open spec fn bulk_rate(exit: ToolExit, stdout: Seq<char>) -> Ratio {
    capped_above_ten(source_rate(exit, stdout))
}

/// The arguments that write one frame as a full-size JPEG file.
pub open spec fn standard_frame_args(path: Seq<char>, seek: Seq<char>, output: Seq<char>) -> Seq<
    Seq<char>,
> {
    seq![
        "-ss"@,
        seek,
        "-i"@,
        path,
        "-vf"@,
        "scale=iw:ih,format=yuvj420p"@,
        "-vframes"@,
        "1"@,
        "-c:v"@,
        "mjpeg"@,
        "-strict"@,
        "unofficial"@,
        "-pix_fmt"@,
        "yuvj420p"@,
        "-q:v"@,
        "10"@,
        "-y"@,
        output,
    ]
}

/// The arguments that write one frame as a lossless PNG file on a canvas
/// of 3840 by 2160.
pub open spec fn high_quality_frame_args(path: Seq<char>, seek: Seq<char>, output: Seq<char>) -> Seq<
    Seq<char>,
> {
    seq![
        "-y"@,
        "-loglevel"@,
        "error"@,
        "-ss"@,
        seek,
        "-i"@,
        path,
        "-vframes"@,
        "1"@,
        "-vf"@,
        "scale=3840:2160:flags=lanczos"@,
        "-c:v"@,
        "png"@,
        "-compression_level"@,
        "0"@,
        "-preset"@,
        "veryslow"@,
        "-qscale:v"@,
        "1"@,
        output,
    ]
}

/// Plans a standard-quality extraction to `output_path`.  The offset is a
/// frame index, and the seek position is the index multiplied by the
/// rate.  A missing source is reported and nothing is to be run.
pub fn extract_frame_from_video_command(
    file_path: &str,
    offset_index: i64,
    source_exists: bool,
    fps_probe: &ProbeRun,
    output_path: &str,
) -> (r: Result<ToolCommand, VideoError>)
    ensures
        match r {
            Ok(command) => source_exists && command@ == (ToolCommandView {
                tool: Tool::Ffmpeg,
                args: standard_frame_args(
                    file_path@,
                    frames_seek(
                        offset_index as int,
                        disk_seek_rate(fps_probe.exit, fps_probe.stdout@),
                    ),
                    output_path@,
                ),
            }),
            Err(e) => !source_exists && e@ == VideoErrorView::NotFound(file_path@),
        },
{
    if !source_exists {
        return Err(VideoError::NotFound(file_path.to_owned()));
    }
    let rate = cap_from_ten(source_rate_of(fps_probe));
    let seek = frames_seek_text(offset_index, rate);
    let mut args: Vec<String> = Vec::new();
    push_arg(&mut args, "-ss");
    push_arg(&mut args, seek.as_str());
    push_arg(&mut args, "-i");
    push_arg(&mut args, file_path);
    push_arg(&mut args, "-vf");
    push_arg(&mut args, "scale=iw:ih,format=yuvj420p");
    push_arg(&mut args, "-vframes");
    push_arg(&mut args, "1");
    push_arg(&mut args, "-c:v");
    push_arg(&mut args, "mjpeg");
    push_arg(&mut args, "-strict");
    push_arg(&mut args, "unofficial");
    push_arg(&mut args, "-pix_fmt");
    push_arg(&mut args, "yuvj420p");
    push_arg(&mut args, "-q:v");
    push_arg(&mut args, "10");
    push_arg(&mut args, "-y");
    push_arg(&mut args, output_path);
    assert(args.deep_view() =~= standard_frame_args(file_path@, seek@, output_path@));
    Ok(ToolCommand { tool: Tool::Ffmpeg, args })
}

/// Plans a high-quality extraction to `output_path`, with the same seek
/// convention as the standard one.
pub fn extract_high_quality_frame_command(
    file_path: &str,
    offset_index: i64,
    source_exists: bool,
    fps_probe: &ProbeRun,
    output_path: &str,
) -> (r: Result<ToolCommand, VideoError>)
    ensures
        match r {
            Ok(command) => source_exists && command@ == (ToolCommandView {
                tool: Tool::Ffmpeg,
                args: high_quality_frame_args(
                    file_path@,
                    frames_seek(
                        offset_index as int,
                        disk_seek_rate(fps_probe.exit, fps_probe.stdout@),
                    ),
                    output_path@,
                ),
            }),
            Err(e) => !source_exists && e@ == VideoErrorView::NotFound(file_path@),
        },
{
    if !source_exists {
        return Err(VideoError::NotFound(file_path.to_owned()));
    }
    let rate = cap_from_ten(source_rate_of(fps_probe));
    let seek = frames_seek_text(offset_index, rate);
    let mut args: Vec<String> = Vec::new();
    push_arg(&mut args, "-y");
    push_arg(&mut args, "-loglevel");
    push_arg(&mut args, "error");
    push_arg(&mut args, "-ss");
    push_arg(&mut args, seek.as_str());
    push_arg(&mut args, "-i");
    push_arg(&mut args, file_path);
    push_arg(&mut args, "-vframes");
    push_arg(&mut args, "1");
    push_arg(&mut args, "-vf");
    push_arg(&mut args, "scale=3840:2160:flags=lanczos");
    push_arg(&mut args, "-c:v");
    push_arg(&mut args, "png");
    push_arg(&mut args, "-compression_level");
    push_arg(&mut args, "0");
    push_arg(&mut args, "-preset");
    push_arg(&mut args, "veryslow");
    push_arg(&mut args, "-qscale:v");
    push_arg(&mut args, "1");
    push_arg(&mut args, output_path);
    assert(args.deep_view() =~= high_quality_frame_args(file_path@, seek@, output_path@));
    Ok(ToolCommand { tool: Tool::Ffmpeg, args })
}

/// The outcome of a standard-quality extraction: the failure of a run that
/// did not succeed, the expected path as missing where the run succeeded
/// without writing it, else the path.
pub open spec fn standard_frame_outcome(exit: ToolExit, output_exists: bool, output: Seq<char>) -> Result<
    Seq<char>,
    VideoErrorView,
> {
    match exit.failure() {
        Some(e) => Err(e),
        None => if output_exists {
            Ok(output)
        } else {
            Err(VideoErrorView::OutputMissing(output))
        },
    }
}

/// Concludes a standard-quality extraction.
pub fn extract_frame_from_video(exit: &ToolExit, output_exists: bool, output_path: &str) -> (r:
    Result<String, VideoError>)
    ensures
        match r {
            Ok(path) => standard_frame_outcome(*exit, output_exists, output_path@) == Ok::<
                Seq<char>,
                VideoErrorView,
            >(path@),
            Err(e) => standard_frame_outcome(*exit, output_exists, output_path@) == Err::<
                Seq<char>,
                VideoErrorView,
            >(e@),
        },
{
    match exit.check() {
        Err(e) => Err(e),
        Ok(_) => if output_exists {
            Ok(output_path.to_owned())
        } else {
            Err(VideoError::OutputMissing(output_path.to_owned()))
        },
    }
}

/// The outcome of a high-quality extraction: the failure of a run that did
/// not succeed, else the path.
pub open spec fn high_quality_outcome(exit: ToolExit, output: Seq<char>) -> Result<
    Seq<char>,
    VideoErrorView,
> {
    match exit.failure() {
        Some(e) => Err(e),
        None => Ok(output),
    }
}

/// Concludes a high-quality extraction.
pub fn extract_high_quality_frame(exit: &ToolExit, output_path: &str) -> (r: Result<
    String,
    VideoError,
>)
    ensures
        match r {
            Ok(path) => high_quality_outcome(*exit, output_path@) == Ok::<
                Seq<char>,
                VideoErrorView,
            >(path@),
            Err(e) => high_quality_outcome(*exit, output_path@) == Err::<
                Seq<char>,
                VideoErrorView,
            >(e@),
        },
{
    match exit.check() {
        Err(e) => Err(e),
        Ok(_) => Ok(output_path.to_owned()),
    }
}

/// The file-name pattern under which a sequence of frames is written.
pub open spec fn frame_pattern() -> Seq<char> {
    "frame%d.jpg"@
}

/// The file-name pattern of a sequence of frames.
pub fn frame_pattern_name() -> (name: String)
    ensures
        name@ == frame_pattern(),
{
    "frame%d.jpg".to_owned()
}

/// The filter that samples at `rate` frames per second.
pub open spec fn fps_filter(rate: Ratio) -> Seq<char> {
    "fps="@ + rate_text(rate)
}

/// The arguments that write a sequence of frames as JPEG files.
pub open spec fn bulk_frame_args(path: Seq<char>, filter: Seq<char>, pattern: Seq<char>) -> Seq<
    Seq<char>,
> {
    seq![
        "-i"@,
        path,
        "-vf"@,
        filter,
        "-strict"@,
        "unofficial"@,
        "-c:v"@,
        "mjpeg"@,
        "-q:v"@,
        "2"@,
        "-qmin"@,
        "2"@,
        "-qmax"@,
        "4"@,
        "-vsync"@,
        "0"@,
        "-threads"@,
        "2"@,
        "-y"@,
        pattern,
    ]
}

/// Plans the extraction of a whole sequence of frames to files that match
/// `output_pattern`.  A missing source is reported and nothing is to be
/// run.
pub fn extract_frames_from_video_command(
    video_path: &str,
    source_exists: bool,
    fps_probe: &ProbeRun,
    output_pattern: &str,
) -> (r: Result<ToolCommand, VideoError>)
    ensures
        match r {
            Ok(command) => source_exists && command@ == (ToolCommandView {
                tool: Tool::Ffmpeg,
                args: bulk_frame_args(
                    video_path@,
                    fps_filter(bulk_rate(fps_probe.exit, fps_probe.stdout@)),
                    output_pattern@,
                ),
            }),
            Err(e) => !source_exists && e@ == VideoErrorView::NotFound(video_path@),
        },
{
    if !source_exists {
        return Err(VideoError::NotFound(video_path.to_owned()));
    }
    let rate = cap_above_ten(source_rate_of(fps_probe));
    let mut filter = "fps=".to_owned();
    push_rate(&mut filter, rate);
    let mut args: Vec<String> = Vec::new();
    push_arg(&mut args, "-i");
    push_arg(&mut args, video_path);
    push_arg(&mut args, "-vf");
    push_arg(&mut args, filter.as_str());
    push_arg(&mut args, "-strict");
    push_arg(&mut args, "unofficial");
    push_arg(&mut args, "-c:v");
    push_arg(&mut args, "mjpeg");
    push_arg(&mut args, "-q:v");
    push_arg(&mut args, "2");
    push_arg(&mut args, "-qmin");
    push_arg(&mut args, "2");
    push_arg(&mut args, "-qmax");
    push_arg(&mut args, "4");
    push_arg(&mut args, "-vsync");
    push_arg(&mut args, "0");
    push_arg(&mut args, "-threads");
    push_arg(&mut args, "2");
    push_arg(&mut args, "-y");
    push_arg(&mut args, output_pattern);
    assert(args.deep_view() =~= bulk_frame_args(video_path@, filter@, output_pattern@));
    Ok(ToolCommand { tool: Tool::Ffmpeg, args })
}

/// What is reported when a run succeeded without writing any frame.
pub open spec fn no_frames() -> Seq<char> {
    "no frames were extracted"@
}

/// Takes in what decoding one file gave: an image is appended to
/// `frames`, an error is reported with the decoder's message and leaves
/// `frames` as it was.
pub fn keep_decoded(
    frames: &mut Vec<image::DynamicImage>,
    decoded: Result<image::DynamicImage, String>,
) -> (r: Result<(), VideoError>)
    ensures
        decoded is Ok ==> r is Ok && final(frames)@ == old(frames)@.push(decoded->Ok_0),
        decoded is Err ==> r is Err && r->Err_0@ == VideoErrorView::MalformedOutput(
            decoded->Err_0@,
        ) && final(frames)@ == old(frames)@,
{
    match decoded {
        Ok(frame) => {
            frames.push(frame);
            Ok(())
        },
        Err(message) => Err(VideoError::MalformedOutput(message)),
    }
}

/// Decodes the bytes of one file and appends the image to `frames`.  A
/// file that cannot be decoded is reported and leaves `frames` as it was.
pub fn decode_next(frames: &mut Vec<image::DynamicImage>, bytes: &Vec<u8>) -> (r: Result<
    (),
    VideoError,
>)
    ensures
        match r {
            Ok(_) => final(frames)@.len() == old(frames)@.len() + 1
                && final(frames)@.drop_last() == old(frames)@,
            Err(e) => e@ is MalformedOutput && final(frames)@ == old(frames)@,
        },
{
    let ghost before = frames@;
    let decoded = decode_image(bytes);
    let r = keep_decoded(frames, decoded);
    assert(r is Ok ==> frames@.drop_last() =~= before);
    r
}

/// Hands back the frames of a sequence, provided there is at least one.
pub fn frames_or_fault(frames: Vec<image::DynamicImage>) -> (r: Result<
    Vec<image::DynamicImage>,
    VideoError,
>)
    ensures
        match r {
            Ok(kept) => frames@.len() > 0 && kept@ == frames@,
            Err(e) => frames@.len() == 0 && e@ == VideoErrorView::MalformedOutput(no_frames()),
        },
{
    if frames.len() == 0 {
        Err(VideoError::MalformedOutput("no frames were extracted".to_owned()))
    } else {
        Ok(frames)
    }
}

/// Concludes the extraction of a sequence from how the run ended and the
/// bytes of the files it wrote, in the order of the directory listing.
/// Each file is decoded in turn and its image appended; the first file
/// that cannot be decoded ends the extraction.  A run that did not succeed
/// is reported as its failure, and a run that wrote no file as a fault.
pub fn extract_frames_from_video(exit: &ToolExit, files: &Vec<Vec<u8>>) -> (r: Result<
    Vec<image::DynamicImage>,
    VideoError,
>)
    ensures
        match r {
            Ok(frames) => exit.failure() is None && files@.len() > 0 && frames@.len()
                == files@.len(),
            Err(e) => exit.failure() == Some(e@) || (exit.failure() is None
                && e@ is MalformedOutput),
        },
        exit.failure() is Some ==> r is Err,
        exit.failure() is None && files@.len() == 0 ==> r is Err && r->Err_0@
            == VideoErrorView::MalformedOutput(no_frames()),
{
    match exit.check() {
        Err(e) => {
            return Err(e);
        },
        Ok(_) => {},
    }
    let mut frames: Vec<image::DynamicImage> = Vec::new();
    let mut i: usize = 0;
    while i < files.len()
        invariant
            i <= files.len(),
            frames@.len() == i,
            exit.failure() is None,
        decreases files.len() - i,
    {
        match decode_next(&mut frames, &files[i]) {
            Ok(_) => {},
            Err(e) => {
                return Err(e);
            },
        }
        i += 1;
    }
    frames_or_fault(frames)
}

/// Plans the light probe that frame extraction to disk begins with.  A
/// missing source is reported and nothing is to be run.
pub fn source_rate_probe(file_path: &str, source_exists: bool) -> (r: Result<
    ToolCommand,
    VideoError,
>)
    ensures
        match r {
            Ok(command) => source_exists && command@ == (ToolCommandView {
                tool: Tool::Ffprobe,
                args: light_probe_args(file_path@),
            }),
            Err(e) => !source_exists && e@ == VideoErrorView::NotFound(file_path@),
        },
{
    if !source_exists {
        return Err(VideoError::NotFound(file_path.to_owned()));
    }
    Ok(get_video_fps_command(file_path))
}

} // verus!
