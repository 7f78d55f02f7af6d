//! The metadata of a recording, how it is resolved from several sources,
//! and how a sparse correction is applied to it.

use vstd::prelude::*;
use crate::command::{ProbeRun, ToolExit};
use crate::probe::{
    default_duration, default_full_rate, get_video_technical_metadata, parse_probe_output,
    probe_output, technical_metadata, text_of,
};
use crate::rate::Ratio;
use crate::timestamp::{
    current_time, file_name_instant, final_component, parse_creation_tag,
    time_in_optional_file_name, tag_instant, Timestamp,
};

verus! {

/// What is known of a recording.
#[derive(Debug, Clone, PartialEq, Eq)]
pub struct VideoMetadata {
    pub creation_time: Timestamp,
    /// Frames per second.
    pub fps: Ratio,
    /// Length in seconds.
    pub duration: Ratio,
    pub device_name: Option<String>,
    pub name: Option<String>,
}

/// A [`VideoMetadata`] with its texts as character sequences.
pub struct VideoMetadataView {
    pub creation_time: Timestamp,
    pub fps: Ratio,
    pub duration: Ratio,
    pub device_name: Option<Seq<char>>,
    pub name: Option<Seq<char>>,
}

impl View for VideoMetadata {
    type V = VideoMetadataView;

    open spec fn view(&self) -> VideoMetadataView {
        VideoMetadataView {
            creation_time: self.creation_time,
            fps: self.fps,
            duration: self.duration,
            device_name: text_of(self.device_name),
            name: text_of(self.name),
        }
    }
}

/// A sparse correction: each field that is present replaces the field of
/// the same name, each absent one leaves it alone.
#[derive(Debug, Clone, PartialEq, Eq)]
pub struct VideoMetadataOverride {
    pub creation_time: Option<Timestamp>,
    pub fps: Option<Ratio>,
    pub duration: Option<Ratio>,
    pub device_name: Option<String>,
    pub name: Option<String>,
}

/// A [`VideoMetadataOverride`] with its texts as character sequences.
pub struct VideoMetadataOverrideView {
    pub creation_time: Option<Timestamp>,
    pub fps: Option<Ratio>,
    pub duration: Option<Ratio>,
    pub device_name: Option<Seq<char>>,
    pub name: Option<Seq<char>>,
}

impl View for VideoMetadataOverride {
    type V = VideoMetadataOverrideView;

    open spec fn view(&self) -> VideoMetadataOverrideView {
        VideoMetadataOverrideView {
            creation_time: self.creation_time,
            fps: self.fps,
            duration: self.duration,
            device_name: text_of(self.device_name),
            name: text_of(self.name),
        }
    }
}

/// A correction for the recording at one path.
#[derive(Debug, Clone, PartialEq, Eq)]
pub struct VideoMetadataItem {
    pub file_path: String,
    pub metadata: VideoMetadataOverride,
}

/// A batch of corrections.
#[derive(Debug, Clone, PartialEq, Eq)]
pub struct VideoMetadataOverrides {
    pub overrides: Vec<VideoMetadataItem>,
}

/// `replacement` where there is one, else `current`.
pub open spec fn replaced<T>(replacement: Option<T>, current: T) -> T {
    match replacement {
        Some(value) => value,
        None => current,
    }
}

/// `replacement` where there is one, else `current`, for a field that may
/// itself be absent.
pub open spec fn replaced_optional<T>(replacement: Option<T>, current: Option<T>) -> Option<T> {
    match replacement {
        Some(value) => Some(value),
        None => current,
    }
}

impl VideoMetadataOverrideView {
    /// The metadata that results from applying this correction to
    /// `metadata`.  Every field is decided by the two fields of its own
    /// name and by nothing else.
    pub open spec fn applied(self, metadata: VideoMetadataView) -> VideoMetadataView {
        VideoMetadataView {
            creation_time: replaced(self.creation_time, metadata.creation_time),
            fps: replaced(self.fps, metadata.fps),
            duration: replaced(self.duration, metadata.duration),
            device_name: replaced_optional(self.device_name, metadata.device_name),
            name: replaced_optional(self.name, metadata.name),
        }
    }

    /// Whether no field other than `fps` is present.
    pub open spec fn touches_only_fps(self) -> bool {
        self.creation_time is None && self.duration is None && self.device_name is None
            && self.name is None
    }

    /// Whether no field is present in both this correction and `other`.
    pub open spec fn disjoint_from(self, other: VideoMetadataOverrideView) -> bool {
        &&& self.creation_time is None || other.creation_time is None
        &&& self.fps is None || other.fps is None
        &&& self.duration is None || other.duration is None
        &&& self.device_name is None || other.device_name is None
        &&& self.name is None || other.name is None
    }
}

impl VideoMetadataOverride {
    /// Applies the correction to `metadata` in place.
    pub fn apply_to(&self, metadata: &mut VideoMetadata)
        ensures
            final(metadata)@ == self@.applied(old(metadata)@),
    {
        if let Some(creation_time) = self.creation_time {
            metadata.creation_time = creation_time;
        }
        if let Some(fps) = self.fps {
            metadata.fps = fps;
        }
        if let Some(duration) = self.duration {
            metadata.duration = duration;
        }
        if let Some(device_name) = &self.device_name {
            metadata.device_name = Some(device_name.clone());
        }
        if let Some(name) = &self.name {
            metadata.name = Some(name.clone());
        }
    }
}

/// Applying a correction twice gives what applying it once gives.
pub proof fn lemma_apply_idempotent(
    correction: VideoMetadataOverrideView,
    metadata: VideoMetadataView,
)
    ensures
        correction.applied(correction.applied(metadata)) == correction.applied(metadata),
{
}

/// A correction that holds only `fps` leaves creation time, duration,
/// device name and name as they were.
pub proof fn lemma_apply_fps_only(
    correction: VideoMetadataOverrideView,
    metadata: VideoMetadataView,
)
    requires
        correction.touches_only_fps(),
    ensures
        correction.applied(metadata) == (VideoMetadataView {
            fps: replaced(correction.fps, metadata.fps),
            ..metadata
        }),
{
}

/// Two corrections that share no field may be applied in either order.
pub proof fn lemma_apply_order_independent(
    first: VideoMetadataOverrideView,
    second: VideoMetadataOverrideView,
    metadata: VideoMetadataView,
)
    requires
        first.disjoint_from(second),
    ensures
        first.applied(second.applied(metadata)) == second.applied(first.applied(metadata)),
{
}

/// The creation time that the tag probe yields: the probe must have
/// succeeded, what it printed must be a full report, and the report must
/// hold a `creation_time` tag that can be read.
pub open spec fn tag_time(exit: ToolExit, stdout: Seq<char>) -> Option<Timestamp> {
    match exit {
        ToolExit::Succeeded => match probe_output(stdout) {
            Ok(fields) => match fields.creation_time {
                Some(tag) => tag_instant(tag),
                None => None,
            },
            Err(_) => None,
        },
        _ => None,
    }
}

/// The first of `tag`, `from_name` and `file_created` that is known, and
/// `now` where none is.
pub open spec fn first_known(
    tag: Option<Timestamp>,
    from_name: Option<Timestamp>,
    file_created: Option<Timestamp>,
    now: Timestamp,
) -> Timestamp {
    match tag {
        Some(t) => t,
        None => match from_name {
            Some(t) => t,
            None => match file_created {
                Some(t) => t,
                None => now,
            },
        },
    }
}

/// Frame rate and duration that the full probe yields, or thirty frames
/// per second and zero seconds where it yields none.
pub open spec fn technical_or_default(exit: ToolExit, stdout: Seq<char>) -> (Ratio, Ratio) {
    match technical_metadata(exit, stdout) {
        Ok(pair) => pair,
        Err(_) => (default_full_rate(), default_duration()),
    }
}

/// The creation time known without the clock: from the tag, else from the
/// file name, else from the file system.
pub open spec fn known_creation_time(
    tag_probe: ProbeRun,
    file_name: Option<Seq<char>>,
    file_created: Option<Timestamp>,
) -> Option<Timestamp> {
    match tag_time(tag_probe.exit, tag_probe.stdout@) {
        Some(t) => Some(t),
        None => match file_name_instant(file_name) {
            Some(t) => Some(t),
            None => file_created,
        },
    }
}

/// The metadata resolved for the recording at `path`, whose file name is
/// `file_name`, from the two probes, the file system's record of the
/// file's creation, and the clock.
pub open spec fn resolved(
    path: Seq<char>,
    file_name: Option<Seq<char>>,
    tag_probe: ProbeRun,
    technical_probe: ProbeRun,
    file_created: Option<Timestamp>,
    now: Timestamp,
) -> VideoMetadataView {
    let technical = technical_or_default(technical_probe.exit, technical_probe.stdout@);
    VideoMetadataView {
        creation_time: first_known(
            tag_time(tag_probe.exit, tag_probe.stdout@),
            file_name_instant(file_name),
            file_created,
            now,
        ),
        fps: technical.0,
        duration: technical.1,
        device_name: None,
        name: Some(path),
    }
}

/// Reads the creation time from the tag probe.
pub fn creation_time_from_probe(run: &ProbeRun) -> (r: Option<Timestamp>)
    ensures
        r == tag_time(run.exit, run.stdout@),
{
    match &run.exit {
        ToolExit::Succeeded => match parse_probe_output(run.stdout.as_str()) {
            Ok(fields) => match &fields.creation_time {
                Some(tag) => parse_creation_tag(tag.as_str()),
                None => None,
            },
            Err(_) => None,
        },
        _ => None,
    }
}

/// Finds the creation time that is known without the clock.
pub fn find_creation_time(
    tag_probe: &ProbeRun,
    file_name: &Option<String>,
    file_created: Option<Timestamp>,
) -> (r: Option<Timestamp>)
    ensures
        r == known_creation_time(*tag_probe, text_of(*file_name), file_created),
{
    match creation_time_from_probe(tag_probe) {
        Some(t) => Some(t),
        None => match time_in_optional_file_name(file_name) {
            Some(t) => Some(t),
            None => file_created,
        },
    }
}

/// Puts the metadata of a recording together from a creation time and the
/// full probe.
pub fn metadata_with(video_path: &str, creation_time: Timestamp, technical_probe: &ProbeRun) -> (r:
    VideoMetadata)
    ensures
        r@ == (VideoMetadataView {
            creation_time,
            fps: technical_or_default(technical_probe.exit, technical_probe.stdout@).0,
            duration: technical_or_default(technical_probe.exit, technical_probe.stdout@).1,
            device_name: None,
            name: Some(video_path@),
        }),
        r.fps.wf(),
        r.fps.num > 0,
        r.duration.wf(),
{
    let (fps, duration) = match get_video_technical_metadata(technical_probe) {
        Ok(pair) => pair,
        Err(_) => (Ratio { num: 30, den: 1 }, Ratio { num: 0, den: 1 }),
    };
    VideoMetadata {
        creation_time,
        fps,
        duration,
        device_name: None,
        name: Some(video_path.to_owned()),
    }
}

/// Resolves the metadata of a recording, with the file name and the
/// clock's reading given.
pub fn video_metadata_at(
    video_path: &str,
    file_name: &Option<String>,
    tag_probe: &ProbeRun,
    technical_probe: &ProbeRun,
    file_created: Option<Timestamp>,
    now: Timestamp,
) -> (r: VideoMetadata)
    ensures
        r@ == resolved(
            video_path@,
            text_of(*file_name),
            *tag_probe,
            *technical_probe,
            file_created,
            now,
        ),
        r.fps.wf(),
        r.fps.num > 0,
        r.duration.wf(),
{
    let creation_time = match find_creation_time(tag_probe, file_name, file_created) {
        Some(t) => t,
        None => now,
    };
    metadata_with(video_path, creation_time, technical_probe)
}

/// Resolves the metadata of a recording.  It never fails: the creation
/// time falls back from tag to file name to file system to the clock, and
/// frame rate and duration fall back to their defaults.  The clock is read
/// only where the other three give nothing.
pub fn get_video_metadata(
    video_path: &str,
    tag_probe: &ProbeRun,
    technical_probe: &ProbeRun,
    file_created: Option<Timestamp>,
) -> (r: VideoMetadata)
    ensures
        exists|file_name: Option<Seq<char>>, now: Timestamp|
            r@ == #[trigger] resolved(
                video_path@,
                file_name,
                *tag_probe,
                *technical_probe,
                file_created,
                now,
            ),
        r.fps.wf(),
        r.fps.num > 0,
        r.duration.wf(),
{
    let file_name = final_component(video_path);
    let creation_time = match find_creation_time(tag_probe, &file_name, file_created) {
        Some(t) => t,
        None => current_time(),
    };
    let r = metadata_with(video_path, creation_time, technical_probe);
    assert(r@ == resolved(
        video_path@,
        text_of(file_name),
        *tag_probe,
        *technical_probe,
        file_created,
        creation_time,
    ));
    r
}

/// When the full probe prints something that is not a full report, the
/// frame rate is thirty and the duration zero; when the tag probe does,
/// the creation time comes from the file name, else from the file system,
/// else from the clock.  The frame rate is positive in every case.
pub proof fn lemma_malformed_probe_defaults(
    path: Seq<char>,
    file_name: Option<Seq<char>>,
    tag_probe: ProbeRun,
    technical_probe: ProbeRun,
    file_created: Option<Timestamp>,
    now: Timestamp,
)
    ensures
        probe_output(technical_probe.stdout@) is Err ==> {
            &&& resolved(path, file_name, tag_probe, technical_probe, file_created, now).fps
                == default_full_rate()
            &&& resolved(path, file_name, tag_probe, technical_probe, file_created, now).duration
                == default_duration()
        },
        probe_output(tag_probe.stdout@) is Err ==> resolved(
            path,
            file_name,
            tag_probe,
            technical_probe,
            file_created,
            now,
        ).creation_time == first_known(None, file_name_instant(file_name), file_created, now),
        resolved(path, file_name, tag_probe, technical_probe, file_created, now).fps.num > 0,
{
    crate::probe::lemma_technical_rate_is_positive(technical_probe.exit, technical_probe.stdout@);
}

} // verus!
