//! Reading what the prober prints: the typed fields of a full report, and
//! the frame rate of a light, stream-only report.

use vstd::prelude::*;
use crate::command::{push_arg, ProbeRun, Tool, ToolCommand, ToolCommandView, ToolExit};
use crate::error::{VideoError, VideoErrorView};
use crate::json::{lemma_array_view, parse_json, json_document, views, Json, JsonView};
use crate::rate::{decimal_number, frame_rate_of, parse_decimal, parse_frame_rate, Ratio};

verus! {

/// The fields of a full report that this crate reads.
#[derive(Debug, Clone, PartialEq, Eq)]
pub struct ProbeOutput {
    /// `format.duration`, a decimal string, where present.
    pub duration: Option<String>,
    /// `r_frame_rate` of every stream, in order.
    pub frame_rates: Vec<String>,
    /// `format.tags.creation_time`, where present.
    pub creation_time: Option<String>,
}

/// A [`ProbeOutput`] with its texts as character sequences.
pub struct ProbeOutputView {
    pub duration: Option<Seq<char>>,
    pub frame_rates: Seq<Seq<char>>,
    pub creation_time: Option<Seq<char>>,
}

/// The text of an optional string.
pub open spec fn text_of(s: Option<String>) -> Option<Seq<char>> {
    match s {
        Some(s) => Some(s@),
        None => None,
    }
}

impl View for ProbeOutput {
    type V = ProbeOutputView;

    open spec fn view(&self) -> ProbeOutputView {
        ProbeOutputView {
            duration: text_of(self.duration),
            frame_rates: self.frame_rates.deep_view(),
            creation_time: text_of(self.creation_time),
        }
    }
}

/// An optional string member of an object: absent or `null` reads as no
/// text, a string as its text, and anything else is a fault, shown as
/// `None` on the outside.
pub open spec fn optional_text(owner: JsonView, key: Seq<char>) -> Option<Option<Seq<char>>> {
    match owner.member(key) {
        None => Some(None),
        Some(JsonView::Null) => Some(None),
        Some(JsonView::Text(s)) => Some(Some(s)),
        Some(_) => None,
    }
}

/// The `creation_time` under the optional `tags` object of `format`, with
/// faults shown as in [`optional_text`].
pub open spec fn tagged_creation_time(format: JsonView) -> Option<Option<Seq<char>>> {
    match format.member("tags"@) {
        None => Some(None),
        Some(JsonView::Null) => Some(None),
        Some(JsonView::Object(members)) => optional_text(
            JsonView::Object(members),
            "creation_time"@,
        ),
        Some(_) => None,
    }
}

/// The `r_frame_rate` of a stream, which must be a string.
pub open spec fn stream_rate(stream: JsonView) -> Option<Seq<char>> {
    match stream.member("r_frame_rate"@) {
        Some(JsonView::Text(s)) => Some(s),
        _ => None,
    }
}

/// The frame rates of all `streams`, provided each has one.
pub open spec fn stream_rates(streams: Seq<JsonView>) -> Option<Seq<Seq<char>>> {
    if forall|i: int| 0 <= i < streams.len() ==> (#[trigger] stream_rate(streams[i])) is Some {
        Some(Seq::new(streams.len(), |i: int| stream_rate(streams[i])->0))
    } else {
        None
    }
}

/// The fields of a full report.  The document must be an object with an
/// object `format` and an array `streams`, every stream must state its
/// frame rate as a string, and `duration`, `tags` and `creation_time` must
/// each be absent, `null` or of the right kind.  Otherwise the report is
/// malformed and there are no fields.
pub open spec fn probe_fields(doc: JsonView) -> Option<ProbeOutputView> {
    match (doc.member("format"@), doc.member("streams"@)) {
        (Some(JsonView::Object(members)), Some(JsonView::Array(streams))) => {
            let format = JsonView::Object(members);
            match (
                optional_text(format, "duration"@),
                tagged_creation_time(format),
                stream_rates(streams),
            ) {
                (Some(duration), Some(creation_time), Some(frame_rates)) => Some(
                    ProbeOutputView { duration, frame_rates, creation_time },
                ),
                _ => None,
            }
        },
        _ => None,
    }
}

/// What is reported of a document that is JSON but not a full report.
pub open spec fn structure_fault() -> Seq<char> {
    "probe output lacks the expected structure"@
}

/// The fields that the text of a full report states, or the reason why it
/// states none: the parser's message where the text is not JSON, a fixed
/// message where the document has the wrong structure.
pub open spec fn probe_output(text: Seq<char>) -> Result<ProbeOutputView, VideoErrorView> {
    match json_document(text) {
        Err(message) => Err(VideoErrorView::MalformedOutput(message)),
        Ok(doc) => match probe_fields(doc) {
            Some(fields) => Ok(fields),
            None => Err(VideoErrorView::MalformedOutput(structure_fault())),
        },
    }
}

fn read_optional_text(owner: &Json, key: &str) -> (r: Option<Option<String>>)
    ensures
        match r {
            Some(found) => optional_text(owner@, key@) == Some(text_of(found)),
            None => optional_text(owner@, key@) is None,
        },
{
    match owner.member(key) {
        None => Some(None),
        Some(Json::Null) => Some(None),
        Some(Json::Text(s)) => Some(Some(s.clone())),
        Some(_) => None,
    }
}

fn read_tagged_creation_time(format: &Json) -> (r: Option<Option<String>>)
    ensures
        match r {
            Some(found) => tagged_creation_time(format@) == Some(text_of(found)),
            None => tagged_creation_time(format@) is None,
        },
{
    match format.member("tags") {
        None => Some(None),
        Some(tags) => match tags {
            Json::Null => Some(None),
            Json::Object(_) => read_optional_text(tags, "creation_time"),
            _ => None,
        },
    }
}

fn read_stream_rate(stream: &Json) -> (r: Option<String>)
    ensures
        text_of(r) == stream_rate(stream@),
{
    match stream.member("r_frame_rate") {
        Some(Json::Text(s)) => Some(s.clone()),
        _ => None,
    }
}

fn read_stream_rates(streams: &Vec<Json>) -> (r: Option<Vec<String>>)
    ensures
        match r {
            Some(rates) => stream_rates(views(streams@)) == Some(rates.deep_view()),
            None => stream_rates(views(streams@)) is None,
        },
{
    let mut rates: Vec<String> = Vec::new();
    let mut i: usize = 0;
    while i < streams.len()
        invariant
            i <= streams.len(),
            rates@.len() == i,
            forall|j: int|
                0 <= j < i ==> stream_rate(#[trigger] views(streams@)[j]) == Some(rates@[j]@),
        decreases streams.len() - i,
    {
        assert(views(streams@)[i as int] == streams@[i as int]@);
        match read_stream_rate(&streams[i]) {
            Some(rate) => {
                rates.push(rate);
            },
            None => {
                return None;
            },
        }
        i += 1;
    }
    assert(stream_rates(views(streams@))->0 =~= rates.deep_view());
    Some(rates)
}

/// Reads the fields of a full report from a parsed document.
pub fn probe_from_json(doc: &Json) -> (r: Result<ProbeOutput, VideoError>)
    ensures
        match r {
            Ok(fields) => probe_fields(doc@) == Some(fields@),
            Err(e) => probe_fields(doc@) is None && e@ == VideoErrorView::MalformedOutput(
                structure_fault(),
            ),
        },
{
    let fault = "probe output lacks the expected structure";
    let format = match doc.member("format") {
        Some(format) => format,
        None => {
            return Err(VideoError::MalformedOutput(fault.to_owned()));
        },
    };
    let streams = match doc.member("streams") {
        Some(streams) => streams,
        None => {
            return Err(VideoError::MalformedOutput(fault.to_owned()));
        },
    };
    match (format, streams) {
        (Json::Object(_), Json::Array(items)) => {
            proof {
                lemma_array_view(*items);
            }
            let duration = read_optional_text(format, "duration");
            let creation_time = read_tagged_creation_time(format);
            let frame_rates = read_stream_rates(items);
            match (duration, creation_time, frame_rates) {
                (Some(duration), Some(creation_time), Some(frame_rates)) => Ok(
                    ProbeOutput { duration, frame_rates, creation_time },
                ),
                _ => Err(VideoError::MalformedOutput(fault.to_owned())),
            }
        },
        _ => Err(VideoError::MalformedOutput(fault.to_owned())),
    }
}

/// Reads the text of a full report.
pub fn parse_probe_output(text: &str) -> (r: Result<ProbeOutput, VideoError>)
    ensures
        match r {
            Ok(fields) => probe_output(text@) == Ok::<ProbeOutputView, VideoErrorView>(fields@),
            Err(e) => probe_output(text@) == Err::<ProbeOutputView, VideoErrorView>(e@),
        },
{
    match parse_json(text) {
        Ok(doc) => probe_from_json(&doc),
        Err(message) => Err(VideoError::MalformedOutput(message)),
    }
}

/// The rate assumed when a full report states none that can be read.
pub open spec fn default_full_rate() -> Ratio {
    Ratio { num: 30, den: 1 }
}

/// The rate assumed when a light report states none that can be read.
pub open spec fn default_light_rate() -> Ratio {
    Ratio { num: 1, den: 1 }
}

/// The duration assumed when a report states none that can be read.
pub open spec fn default_duration() -> Ratio {
    Ratio { num: 0, den: 1 }
}

/// The rate that a ratio string states, or `fallback` where it states
/// none.  A frame rate is positive, so a string that states zero states no
/// rate.
pub open spec fn rate_or(text: Option<Seq<char>>, fallback: Ratio) -> Ratio {
    match text {
        Some(t) => match frame_rate_of(t) {
            Some(rate) => if rate.num > 0 {
                rate
            } else {
                fallback
            },
            None => fallback,
        },
        None => fallback,
    }
}

/// Reads a ratio string as a frame rate, with `fallback` for a string that
/// states none.
pub fn read_rate_or(text: &str, fallback: Ratio) -> (r: Ratio)
    requires
        fallback.wf(),
        fallback.num > 0,
    ensures
        r == rate_or(Some(text@), fallback),
        r.wf(),
        r.num > 0,
{
    match parse_frame_rate(text) {
        Some(rate) => if rate.num > 0 {
            rate
        } else {
            fallback
        },
        None => fallback,
    }
}

/// The frame rate of a full report: that of the first stream, thirty where
/// there is no stream or its ratio cannot be read.
pub open spec fn full_rate(fields: ProbeOutputView) -> Ratio {
    rate_or(
        if fields.frame_rates.len() > 0 {
            Some(fields.frame_rates[0])
        } else {
            None
        },
        default_full_rate(),
    )
}

/// The duration of a full report: the decimal number that `format.duration`
/// states, zero where it is absent or cannot be read.
pub open spec fn full_duration(fields: ProbeOutputView) -> Ratio {
    match fields.duration {
        Some(t) => match decimal_number(t) {
            Some(d) => d,
            None => default_duration(),
        },
        None => default_duration(),
    }
}

/// Frame rate and duration of a full report.
pub fn technical_fields(fields: &ProbeOutput) -> (r: (Ratio, Ratio))
    ensures
        r.0 == full_rate(fields@),
        r.1 == full_duration(fields@),
        r.0.wf(),
        r.0.num > 0,
        r.1.wf(),
{
    let rate = if fields.frame_rates.len() > 0 {
        assert(fields@.frame_rates[0] == fields.frame_rates@[0]@);
        read_rate_or(fields.frame_rates[0].as_str(), Ratio { num: 30, den: 1 })
    } else {
        Ratio { num: 30, den: 1 }
    };
    let duration = match &fields.duration {
        Some(text) => match parse_decimal(text.as_str()) {
            Some(d) => d,
            None => Ratio { num: 0, den: 1 },
        },
        None => Ratio { num: 0, den: 1 },
    };
    (rate, duration)
}

/// The arguments of a full probe of the file at `path`.
pub open spec fn full_probe_args(path: Seq<char>) -> Seq<Seq<char>> {
    seq!["-v"@, "quiet"@, "-print_format"@, "json"@, "-show_format"@, "-show_streams"@, path]
}

/// The arguments of a probe for the `creation_time` tag of the file at
/// `path`.
pub open spec fn tag_probe_args(path: Seq<char>) -> Seq<Seq<char>> {
    seq![
        "-v"@,
        "quiet"@,
        "-print_format"@,
        "json"@,
        "-show_format"@,
        "-show_streams"@,
        "-show_entries"@,
        "format_tags=creation_time"@,
        path,
    ]
}

/// The arguments of a light probe, which asks for the frame rate of the
/// first video stream of the file at `path` and nothing else.
pub open spec fn light_probe_args(path: Seq<char>) -> Seq<Seq<char>> {
    seq![
        "-v"@,
        "quiet"@,
        "-print_format"@,
        "json"@,
        "-select_streams"@,
        "v:0"@,
        "-show_entries"@,
        "stream=r_frame_rate"@,
        path,
    ]
}

/// The full probe of a file.
pub fn get_video_technical_metadata_command(video_path: &str) -> (command: ToolCommand)
    ensures
        command@ == (ToolCommandView { tool: Tool::Ffprobe, args: full_probe_args(video_path@) }),
{
    let mut args: Vec<String> = Vec::new();
    push_arg(&mut args, "-v");
    push_arg(&mut args, "quiet");
    push_arg(&mut args, "-print_format");
    push_arg(&mut args, "json");
    push_arg(&mut args, "-show_format");
    push_arg(&mut args, "-show_streams");
    push_arg(&mut args, video_path);
    assert(args.deep_view() =~= full_probe_args(video_path@));
    ToolCommand { tool: Tool::Ffprobe, args }
}

/// The probe for a file's `creation_time` tag.
pub fn creation_time_command(video_path: &str) -> (command: ToolCommand)
    ensures
        command@ == (ToolCommandView { tool: Tool::Ffprobe, args: tag_probe_args(video_path@) }),
{
    let mut args: Vec<String> = Vec::new();
    push_arg(&mut args, "-v");
    push_arg(&mut args, "quiet");
    push_arg(&mut args, "-print_format");
    push_arg(&mut args, "json");
    push_arg(&mut args, "-show_format");
    push_arg(&mut args, "-show_streams");
    push_arg(&mut args, "-show_entries");
    push_arg(&mut args, "format_tags=creation_time");
    push_arg(&mut args, video_path);
    assert(args.deep_view() =~= tag_probe_args(video_path@));
    ToolCommand { tool: Tool::Ffprobe, args }
}

/// The light probe of a file.
pub fn get_video_fps_command(video_path: &str) -> (command: ToolCommand)
    ensures
        command@ == (ToolCommandView { tool: Tool::Ffprobe, args: light_probe_args(video_path@) }),
{
    let mut args: Vec<String> = Vec::new();
    push_arg(&mut args, "-v");
    push_arg(&mut args, "quiet");
    push_arg(&mut args, "-print_format");
    push_arg(&mut args, "json");
    push_arg(&mut args, "-select_streams");
    push_arg(&mut args, "v:0");
    push_arg(&mut args, "-show_entries");
    push_arg(&mut args, "stream=r_frame_rate");
    push_arg(&mut args, video_path);
    assert(args.deep_view() =~= light_probe_args(video_path@));
    ToolCommand { tool: Tool::Ffprobe, args }
}

/// Frame rate and duration that a full probe yields.  A probe that could
/// not be started yields its failure; a probe that ran is read for what it
/// printed, whatever its exit status.
pub open spec fn technical_metadata(exit: ToolExit, stdout: Seq<char>) -> Result<
    (Ratio, Ratio),
    VideoErrorView,
> {
    match exit {
        ToolExit::SpawnFailed(reason) => Err(VideoErrorView::ProcessSpawnFailure(reason@)),
        _ => match probe_output(stdout) {
            Ok(fields) => Ok((full_rate(fields), full_duration(fields))),
            Err(e) => Err(e),
        },
    }
}

/// Reads frame rate and duration from a full probe.
pub fn get_video_technical_metadata(run: &ProbeRun) -> (r: Result<(Ratio, Ratio), VideoError>)
    ensures
        match r {
            Ok(pair) => technical_metadata(run.exit, run.stdout@) == Ok::<
                (Ratio, Ratio),
                VideoErrorView,
            >(pair) && pair.0.wf() && pair.0.num > 0 && pair.1.wf(),
            Err(e) => technical_metadata(run.exit, run.stdout@) == Err::<
                (Ratio, Ratio),
                VideoErrorView,
            >(e@),
        },
{
    match &run.exit {
        ToolExit::SpawnFailed(reason) => Err(VideoError::ProcessSpawnFailure(reason.clone())),
        _ => match parse_probe_output(run.stdout.as_str()) {
            Ok(fields) => Ok(technical_fields(&fields)),
            Err(e) => Err(e),
        },
    }
}

/// The ratio string of the first stream of a light report, read
/// leniently: `streams` must be an array, its first element must have a
/// string `r_frame_rate`, and nothing else is asked of the document.
pub open spec fn first_stream_rate(doc: JsonView) -> Option<Seq<char>> {
    match doc.member("streams"@) {
        Some(JsonView::Array(streams)) => if streams.len() > 0 {
            stream_rate(streams[0])
        } else {
            None
        },
        _ => None,
    }
}

/// The frame rate of a light report: one where none can be read.
pub open spec fn light_rate(doc: JsonView) -> Ratio {
    rate_or(first_stream_rate(doc), default_light_rate())
}

/// Reads the frame rate from the document of a light report.
pub fn light_rate_from_json(doc: &Json) -> (r: Ratio)
    ensures
        r == light_rate(doc@),
        r.wf(),
        r.num > 0,
{
    let fallback = Ratio { num: 1, den: 1 };
    match doc.member("streams") {
        Some(Json::Array(streams)) => {
            proof {
                lemma_array_view(*streams);
            }
            if streams.len() > 0 {
                assert(views(streams@)[0] == streams@[0]@);
                match read_stream_rate(&streams[0]) {
                    Some(text) => read_rate_or(text.as_str(), fallback),
                    None => fallback,
                }
            } else {
                fallback
            }
        },
        _ => fallback,
    }
}

/// The frame rate that a light probe yields: the failure of a probe that
/// did not succeed, the parser's message where the text printed is not
/// JSON, else the rate read from the document.
pub open spec fn light_probe_rate(exit: ToolExit, stdout: Seq<char>) -> Result<
    Ratio,
    VideoErrorView,
> {
    match exit.failure() {
        Some(e) => Err(e),
        None => match json_document(stdout) {
            Ok(doc) => Ok(light_rate(doc)),
            Err(message) => Err(VideoErrorView::MalformedOutput(message)),
        },
    }
}

/// Reads the frame rate from a light probe.
pub fn get_video_fps(run: &ProbeRun) -> (r: Result<Ratio, VideoError>)
    ensures
        match r {
            Ok(rate) => light_probe_rate(run.exit, run.stdout@) == Ok::<Ratio, VideoErrorView>(rate)
                && rate.wf() && rate.num > 0,
            Err(e) => light_probe_rate(run.exit, run.stdout@) == Err::<Ratio, VideoErrorView>(e@),
        },
{
    match run.exit.check() {
        Err(e) => Err(e),
        Ok(_) => match parse_json(run.stdout.as_str()) {
            Ok(doc) => Ok(light_rate_from_json(&doc)),
            Err(message) => Err(VideoError::MalformedOutput(message)),
        },
    }
}

/// The source rate that frame extraction works with: what the light probe
/// yields, one where it yields none.
pub open spec fn source_rate(exit: ToolExit, stdout: Seq<char>) -> Ratio {
    match light_probe_rate(exit, stdout) {
        Ok(rate) => rate,
        Err(_) => default_light_rate(),
    }
}

/// Computes [`source_rate`].
pub fn source_rate_of(run: &ProbeRun) -> (r: Ratio)
    ensures
        r == source_rate(run.exit, run.stdout@),
        r.wf(),
        r.num > 0,
{
    match get_video_fps(run) {
        Ok(rate) => rate,
        Err(_) => Ratio { num: 1, den: 1 },
    }
}

/// A ratio string that states no rate, or states zero, gives the default
/// of the probe that met it: one for a light probe, thirty for a full one.
pub proof fn lemma_unreadable_rate_falls_back(text: Seq<char>, fields: ProbeOutputView)
    requires
        frame_rate_of(text) is None || frame_rate_of(text)->0.num == 0,
    ensures
        rate_or(Some(text), default_light_rate()) == (Ratio { num: 1, den: 1 }),
        rate_or(Some(text), default_full_rate()) == (Ratio { num: 30, den: 1 }),
        fields.frame_rates.len() > 0 && fields.frame_rates[0] == text ==> full_rate(fields) == (
        Ratio { num: 30, den: 1 }),
{
}

/// The frame rate read from any probe is positive.
pub proof fn lemma_rates_are_positive(text: Option<Seq<char>>, doc: JsonView, fields: ProbeOutputView)
    ensures
        rate_or(text, default_light_rate()).num > 0,
        rate_or(text, default_full_rate()).num > 0,
        light_rate(doc).num > 0,
        full_rate(fields).num > 0,
{
}

/// The frame rate that a full probe yields is positive.
pub proof fn lemma_technical_rate_is_positive(exit: ToolExit, stdout: Seq<char>)
    ensures
        technical_metadata(exit, stdout) matches Ok(pair) ==> pair.0.num > 0,
{
}

} // verus!
