use video_utils::command::{ProbeRun, Tool, ToolExit};
use video_utils::error::VideoError;
use video_utils::frames::{
    decode_next, extract_frame, extract_frame_checked, extract_frame_command,
    extract_frame_from_video, extract_frame_from_video_command, extract_frames_from_video,
    extract_frames_from_video_command, extract_high_quality_frame,
    extract_high_quality_frame_command, frame_file_name, frame_pattern_name, frames_or_fault,
    high_quality_file_name, keep_decoded, new_frame_file_name, new_high_quality_file_name,
    source_rate_probe, standard_frames_dir,
};
use video_utils::timestamp::Timestamp;

fn strings(items: &[&str]) -> Vec<String> {
    items.iter().map(|s| s.to_string()).collect()
}

fn probe(rate: &str) -> ProbeRun {
    ProbeRun {
        exit: ToolExit::Succeeded,
        stdout: format!(r#"{{"streams": [{{"r_frame_rate": "{}"}}]}}"#, rate),
    }
}

fn failed_probe() -> ProbeRun {
    ProbeRun { exit: ToolExit::Failed("no".to_string()), stdout: String::new() }
}

fn png_bytes(width: u32, height: u32) -> Vec<u8> {
    let picture = image::DynamicImage::ImageRgb8(image::RgbImage::new(width, height));
    let mut bytes = Vec::new();
    picture
        .write_to(&mut std::io::Cursor::new(&mut bytes), image::ImageFormat::Png)
        .unwrap();
    bytes
}

#[test]
fn pipe_extraction_seeks_in_milliseconds() {
    let command = extract_frame_command("clip.mp4", 500, true).unwrap();
    assert_eq!(command.tool, Tool::Ffmpeg);
    assert_eq!(
        command.args,
        strings(&[
            "-ss",
            "0.500",
            "-i",
            "clip.mp4",
            "-vf",
            "scale=iw*0.75:ih*0.75",
            "-vframes",
            "1",
            "-f",
            "image2pipe",
            "-c:v",
            "mjpeg",
            "-q:v",
            "10",
            "-"
        ])
    );
    let command = extract_frame_command("clip.mp4", 61_250, true).unwrap();
    assert_eq!(command.args[1], "61.250");
}

#[test]
fn missing_source_is_reported_before_anything_runs() {
    let missing = Err(VideoError::NotFound("gone.mp4".to_string()));
    assert_eq!(extract_frame_command("gone.mp4", 500, false), missing);
    assert_eq!(
        extract_frame_from_video_command("gone.mp4", 1, false, &probe("5/1"), "/tmp/o.jpg"),
        missing
    );
    assert_eq!(
        extract_high_quality_frame_command("gone.mp4", 1, false, &probe("5/1"), "/tmp/o.png"),
        missing
    );
    assert_eq!(
        extract_frames_from_video_command("gone.mp4", false, &probe("5/1"), "/tmp/f%d.jpg"),
        missing
    );
}

#[test]
fn pipe_extraction_returns_the_frame_in_base64() {
    assert_eq!(extract_frame(&ToolExit::Succeeded, &b"hello".to_vec()), Ok("aGVsbG8=".to_string()));
    assert_eq!(extract_frame(&ToolExit::Succeeded, &vec![0xff, 0xd8, 0xff]), Ok("/9j/".to_string()));
    assert_eq!(
        extract_frame_checked(&ToolExit::Succeeded, &b"hello".to_vec()),
        Some(Ok("aGVsbG8=".to_string()))
    );
}

#[test]
fn zero_byte_output_is_malformed_output() {
    assert_eq!(
        extract_frame(&ToolExit::Succeeded, &vec![]),
        Err(VideoError::MalformedOutput("failed to extract frame: no data received".to_string()))
    );
}

#[test]
fn pipe_extraction_reports_process_failures() {
    assert_eq!(
        extract_frame(&ToolExit::Failed("moov atom not found".to_string()), &b"x".to_vec()),
        Err(VideoError::ProcessFailure("moov atom not found".to_string()))
    );
    assert_eq!(
        extract_frame(&ToolExit::SpawnFailed("not installed".to_string()), &vec![]),
        Err(VideoError::ProcessSpawnFailure("not installed".to_string()))
    );
}

#[test]
fn standard_extraction_multiplies_index_by_rate() {
    let command =
        extract_frame_from_video_command("clip.mp4", 3, true, &probe("5/1"), "/tmp/f/x.jpg")
            .unwrap();
    assert_eq!(command.tool, Tool::Ffmpeg);
    assert_eq!(
        command.args,
        strings(&[
            "-ss",
            "15.000",
            "-i",
            "clip.mp4",
            "-vf",
            "scale=iw:ih,format=yuvj420p",
            "-vframes",
            "1",
            "-c:v",
            "mjpeg",
            "-strict",
            "unofficial",
            "-pix_fmt",
            "yuvj420p",
            "-q:v",
            "10",
            "-y",
            "/tmp/f/x.jpg"
        ])
    );
}

#[test]
fn standard_extraction_folds_fast_rates_and_failed_probes_to_one() {
    for p in [probe("30/1"), probe("10/1"), probe("30000/1001"), probe("0/0"), failed_probe()] {
        let command =
            extract_frame_from_video_command("clip.mp4", 7, true, &p, "o.jpg").unwrap();
        assert_eq!(command.args[1], "7.000");
    }
    let command =
        extract_frame_from_video_command("clip.mp4", 7, true, &probe("19/2"), "o.jpg").unwrap();
    assert_eq!(command.args[1], "66.500");
}

#[test]
fn high_quality_extraction_uses_the_same_seek() {
    let command =
        extract_high_quality_frame_command("clip.mp4", 4, true, &probe("15/2"), "/out/x.png")
            .unwrap();
    assert_eq!(command.tool, Tool::Ffmpeg);
    assert_eq!(
        command.args,
        strings(&[
            "-y",
            "-loglevel",
            "error",
            "-ss",
            "30.000",
            "-i",
            "clip.mp4",
            "-vframes",
            "1",
            "-vf",
            "scale=3840:2160:flags=lanczos",
            "-c:v",
            "png",
            "-compression_level",
            "0",
            "-preset",
            "veryslow",
            "-qscale:v",
            "1",
            "/out/x.png"
        ])
    );
    let command =
        extract_high_quality_frame_command("clip.mp4", 4, true, &probe("60/1"), "x.png").unwrap();
    assert_eq!(command.args[4], "4.000");
}

#[test]
fn standard_extraction_checks_that_the_file_was_written() {
    assert_eq!(
        extract_frame_from_video(&ToolExit::Succeeded, true, "/tmp/f/x.jpg"),
        Ok("/tmp/f/x.jpg".to_string())
    );
    assert_eq!(
        extract_frame_from_video(&ToolExit::Succeeded, false, "/tmp/f/x.jpg"),
        Err(VideoError::OutputMissing("/tmp/f/x.jpg".to_string()))
    );
    assert_eq!(
        extract_frame_from_video(&ToolExit::Failed("err".to_string()), true, "/tmp/f/x.jpg"),
        Err(VideoError::ProcessFailure("err".to_string()))
    );
    assert_eq!(
        extract_frame_from_video(&ToolExit::SpawnFailed("s".to_string()), false, "x"),
        Err(VideoError::ProcessSpawnFailure("s".to_string()))
    );
}

#[test]
fn high_quality_extraction_returns_the_path() {
    assert_eq!(
        extract_high_quality_frame(&ToolExit::Succeeded, "/out/x.png"),
        Ok("/out/x.png".to_string())
    );
    assert_eq!(
        extract_high_quality_frame(&ToolExit::Failed("err".to_string()), "/out/x.png"),
        Err(VideoError::ProcessFailure("err".to_string()))
    );
}

#[test]
fn frame_file_names_hold_offset_and_identifier() {
    assert_eq!(frame_file_name(12, "abc"), "frame_12_abc.jpg");
    assert_eq!(frame_file_name(-3, ""), "frame_-3_.jpg");
    assert_eq!(standard_frames_dir(), "/tmp/screenpipe_frames");
    assert_eq!(frame_pattern_name(), "frame%d.jpg");
}

#[test]
fn fresh_frame_file_names_hold_a_uuid() {
    let name = new_frame_file_name(42);
    assert!(name.starts_with("frame_42_"));
    assert!(name.ends_with(".jpg"));
    let id: Vec<char> = name["frame_42_".len()..name.len() - 4].chars().collect();
    assert_eq!(id.len(), 36);
    for (i, c) in id.iter().enumerate() {
        if i == 8 || i == 13 || i == 18 || i == 23 {
            assert_eq!(*c, '-');
        } else {
            assert!(c.is_ascii_digit() || ('a'..='f').contains(c), "{}", c);
        }
    }
    assert_ne!(name, new_frame_file_name(42));
}

#[test]
fn high_quality_file_names_hold_microseconds_and_offset() {
    assert_eq!(
        high_quality_file_name(Timestamp { secs: 1729306280, nanos: 123_456_789 }, 9),
        "frame_1729306280123456_9.png"
    );
    assert_eq!(high_quality_file_name(Timestamp { secs: 0, nanos: 999 }, -1), "frame_0_-1.png");
    let name = new_high_quality_file_name(5);
    assert!(name.starts_with("frame_1"));
    assert!(name.ends_with("_5.png"));
    assert_eq!(name.len(), "frame_".len() + 16 + "_5.png".len());
}

#[test]
fn bulk_extraction_samples_at_a_capped_rate() {
    let command =
        extract_frames_from_video_command("clip.mp4", true, &probe("30/1"), "/t/frame%d.jpg")
            .unwrap();
    assert_eq!(command.tool, Tool::Ffmpeg);
    assert_eq!(
        command.args,
        strings(&[
            "-i",
            "clip.mp4",
            "-vf",
            "fps=1",
            "-strict",
            "unofficial",
            "-c:v",
            "mjpeg",
            "-q:v",
            "2",
            "-qmin",
            "2",
            "-qmax",
            "4",
            "-vsync",
            "0",
            "-threads",
            "2",
            "-y",
            "/t/frame%d.jpg"
        ])
    );
    for (rate, filter) in
        [("10/1", "fps=10"), ("5/1", "fps=5"), ("15/2", "fps=15/2"), ("11/1", "fps=1"), ("0/0", "fps=1")]
    {
        let command =
            extract_frames_from_video_command("clip.mp4", true, &probe(rate), "p").unwrap();
        assert_eq!(command.args[3], filter);
    }
    let command =
        extract_frames_from_video_command("clip.mp4", true, &failed_probe(), "p").unwrap();
    assert_eq!(command.args[3], "fps=1");
}

#[test]
fn bulk_extraction_decodes_every_file_in_order() {
    let files = vec![png_bytes(2, 3), png_bytes(5, 1)];
    let frames = extract_frames_from_video(&ToolExit::Succeeded, &files).unwrap();
    assert_eq!(frames.len(), 2);
    assert_eq!((frames[0].width(), frames[0].height()), (2, 3));
    assert_eq!((frames[1].width(), frames[1].height()), (5, 1));
}

#[test]
fn decoded_images_are_kept_in_turn() {
    let mut frames = Vec::new();
    let first = image::load_from_memory(&png_bytes(4, 2)).unwrap();
    assert_eq!(keep_decoded(&mut frames, Ok(first)), Ok(()));
    assert_eq!(
        keep_decoded(&mut frames, Err("bad header".to_string())),
        Err(VideoError::MalformedOutput("bad header".to_string()))
    );
    assert_eq!(decode_next(&mut frames, &png_bytes(1, 7)), Ok(()));
    assert!(matches!(
        decode_next(&mut frames, &b"junk".to_vec()),
        Err(VideoError::MalformedOutput(_))
    ));
    assert_eq!(frames.len(), 2);
    assert_eq!((frames[0].width(), frames[0].height()), (4, 2));
    assert_eq!((frames[1].width(), frames[1].height()), (1, 7));
    let kept = frames_or_fault(frames).unwrap();
    assert_eq!(kept.len(), 2);
    assert_eq!(
        frames_or_fault(Vec::new()).unwrap_err(),
        VideoError::MalformedOutput("no frames were extracted".to_string())
    );
}

#[test]
fn disk_extraction_asks_for_the_source_before_it_probes() {
    assert_eq!(
        source_rate_probe("gone.mp4", false),
        Err(VideoError::NotFound("gone.mp4".to_string()))
    );
    let command = source_rate_probe("clip.mp4", true).unwrap();
    assert_eq!(command.tool, Tool::Ffprobe);
    assert_eq!(
        command.args,
        strings(&[
            "-v",
            "quiet",
            "-print_format",
            "json",
            "-select_streams",
            "v:0",
            "-show_entries",
            "stream=r_frame_rate",
            "clip.mp4"
        ])
    );
}

#[test]
fn bulk_extraction_fails_without_frames() {
    assert_eq!(
        extract_frames_from_video(&ToolExit::Succeeded, &vec![]).unwrap_err(),
        VideoError::MalformedOutput("no frames were extracted".to_string())
    );
}

#[test]
fn bulk_extraction_fails_on_the_first_undecodable_file() {
    let files = vec![png_bytes(1, 1), b"not an image".to_vec(), png_bytes(1, 1)];
    let error = extract_frames_from_video(&ToolExit::Succeeded, &files).unwrap_err();
    assert!(matches!(error, VideoError::MalformedOutput(_)));
    assert_ne!(error, VideoError::MalformedOutput("no frames were extracted".to_string()));
}

#[test]
fn bulk_extraction_reports_process_failures() {
    assert_eq!(
        extract_frames_from_video(&ToolExit::Failed("bad".to_string()), &vec![png_bytes(1, 1)])
            .unwrap_err(),
        VideoError::ProcessFailure("bad".to_string())
    );
}
