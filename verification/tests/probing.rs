use video_utils::command::{ProbeRun, Tool, ToolExit};
use video_utils::error::VideoError;
use video_utils::json::{parse_json, Json, Member};
use video_utils::probe::{
    creation_time_command, get_video_fps, get_video_fps_command, get_video_technical_metadata,
    get_video_technical_metadata_command, light_rate_from_json, parse_probe_output,
    probe_from_json, read_rate_or, source_rate_of, technical_fields, ProbeOutput,
};
use video_utils::rate::Ratio;

const FULL: &str = r#"{
  "streams": [
    {"index": 0, "codec_type": "video", "r_frame_rate": "30000/1001"},
    {"index": 1, "codec_type": "audio", "r_frame_rate": "0/0"}
  ],
  "format": {
    "filename": "a.mp4",
    "duration": "12.345000",
    "tags": {"creation_time": "2024-10-19T02:51:20.000000Z", "encoder": "x"}
  }
}"#;

fn ran(stdout: &str) -> ProbeRun {
    ProbeRun { exit: ToolExit::Succeeded, stdout: stdout.to_string() }
}

fn strings(items: &[&str]) -> Vec<String> {
    items.iter().map(|s| s.to_string()).collect()
}

fn member(name: &str, value: Json) -> Member {
    Member { name: name.to_string(), value }
}

#[test]
fn json_text_becomes_a_plain_value() {
    let doc = parse_json(r#"{"a": [1, "x", null, true], "b": {"c": -2.5}}"#).unwrap();
    let expected = Json::Object(vec![
        member(
            "a",
            Json::Array(vec![
                Json::Number("1".to_string()),
                Json::Text("x".to_string()),
                Json::Null,
                Json::Bool(true),
            ]),
        ),
        member("b", Json::Object(vec![member("c", Json::Number("-2.5".to_string()))])),
    ]);
    assert_eq!(doc, expected);
}

#[test]
fn json_syntax_errors_carry_the_parser_message() {
    let message = parse_json("{").unwrap_err();
    assert!(message.contains("EOF"), "{}", message);
    assert!(parse_json("").is_err());
    assert!(parse_json("not json").is_err());
}

#[test]
fn json_members_and_kinds_are_told_apart() {
    let doc = parse_json(r#"{"s": "text", "l": [1, 2], "n": null}"#).unwrap();
    assert_eq!(doc.member("s").unwrap().text(), Some(&"text".to_string()));
    assert_eq!(doc.member("l").unwrap().elements().unwrap().len(), 2);
    assert!(doc.member("l").unwrap().text().is_none());
    assert!(doc.member("s").unwrap().elements().is_none());
    assert!(doc.member("missing").is_none());
    assert!(doc.member("n").unwrap().member("x").is_none());
    let list = Json::Array(vec![]);
    assert!(list.member("s").is_none());
}

#[test]
fn first_member_of_a_name_is_found() {
    let doc = Json::Object(vec![member("k", Json::Bool(true)), member("k", Json::Bool(false))]);
    assert_eq!(doc.member("k"), Some(&Json::Bool(true)));
}

#[test]
fn full_report_yields_its_fields() {
    let fields = parse_probe_output(FULL).unwrap();
    assert_eq!(
        fields,
        ProbeOutput {
            duration: Some("12.345000".to_string()),
            frame_rates: strings(&["30000/1001", "0/0"]),
            creation_time: Some("2024-10-19T02:51:20.000000Z".to_string()),
        }
    );
}

#[test]
fn absent_optional_fields_are_none() {
    let fields = parse_probe_output(r#"{"format": {}, "streams": []}"#).unwrap();
    assert_eq!(fields, ProbeOutput { duration: None, frame_rates: vec![], creation_time: None });
    let fields = parse_probe_output(
        r#"{"format": {"duration": null, "tags": null}, "streams": []}"#,
    )
    .unwrap();
    assert_eq!(fields, ProbeOutput { duration: None, frame_rates: vec![], creation_time: None });
    let fields =
        parse_probe_output(r#"{"format": {"tags": {"creation_time": null}}, "streams": []}"#)
            .unwrap();
    assert_eq!(fields.creation_time, None);
}

#[test]
fn malformed_structure_is_a_hard_error() {
    let fault = VideoError::MalformedOutput("probe output lacks the expected structure".to_string());
    for text in [
        "{}",
        "[]",
        "null",
        r#"{"format": {}}"#,
        r#"{"streams": []}"#,
        r#"{"format": 1, "streams": []}"#,
        r#"{"format": {}, "streams": {}}"#,
        r#"{"format": {}, "streams": [{}]}"#,
        r#"{"format": {}, "streams": [{"r_frame_rate": 30}]}"#,
        r#"{"format": {}, "streams": [{"r_frame_rate": "30/1"}, 5]}"#,
        r#"{"format": {"duration": 12.5}, "streams": []}"#,
        r#"{"format": {"tags": "x"}, "streams": []}"#,
        r#"{"format": {"tags": {"creation_time": 5}}, "streams": []}"#,
    ] {
        assert_eq!(parse_probe_output(text), Err(fault.clone()), "{}", text);
    }
}

#[test]
fn text_that_is_not_json_is_a_hard_error() {
    assert!(matches!(parse_probe_output(""), Err(VideoError::MalformedOutput(_))));
    assert!(matches!(parse_probe_output("garbage"), Err(VideoError::MalformedOutput(_))));
    assert!(matches!(parse_probe_output("{\"format\""), Err(VideoError::MalformedOutput(_))));
}

#[test]
fn fields_are_read_from_a_document_given_directly() {
    let doc = Json::Object(vec![
        member("format", Json::Object(vec![member("duration", Json::Text("1.5".to_string()))])),
        member(
            "streams",
            Json::Array(vec![Json::Object(vec![member(
                "r_frame_rate",
                Json::Text("25/1".to_string()),
            )])]),
        ),
    ]);
    let fields = probe_from_json(&doc).unwrap();
    assert_eq!(fields.duration, Some("1.5".to_string()));
    assert_eq!(fields.frame_rates, strings(&["25/1"]));
    assert!(probe_from_json(&Json::Null).is_err());
}

#[test]
fn technical_fields_use_first_stream_and_duration() {
    let fields = parse_probe_output(FULL).unwrap();
    let (fps, duration) = technical_fields(&fields);
    assert_eq!(fps, Ratio { num: 30000, den: 1001 });
    assert_eq!(duration, Ratio { num: 12345000, den: 1000000 });
}

#[test]
fn technical_fields_fall_back_to_thirty_and_zero() {
    let none = ProbeOutput { duration: None, frame_rates: vec![], creation_time: None };
    assert_eq!(technical_fields(&none), (Ratio { num: 30, den: 1 }, Ratio { num: 0, den: 1 }));
    let bad = ProbeOutput {
        duration: Some("N/A".to_string()),
        frame_rates: strings(&["0/0", "25/1"]),
        creation_time: None,
    };
    assert_eq!(technical_fields(&bad), (Ratio { num: 30, den: 1 }, Ratio { num: 0, den: 1 }));
}

#[test]
fn full_probe_takes_thirty_for_a_ratio_with_extra_pieces_or_zero() {
    for rate in ["x/25/1", "25/1/1", "0/1", "0/0", "0.0/5", "-30/1", "nan/1", "inf/1", ""] {
        let text = format!(r#"{{"format": {{}}, "streams": [{{"r_frame_rate": "{}"}}]}}"#, rate);
        assert_eq!(
            get_video_technical_metadata(&ran(&text)),
            Ok((Ratio { num: 30, den: 1 }, Ratio { num: 0, den: 1 })),
            "{}",
            rate
        );
    }
    for duration in ["-5", "nan", "inf", "1e3", ""] {
        let text = format!(r#"{{"format": {{"duration": "{}"}}, "streams": []}}"#, duration);
        assert_eq!(
            get_video_technical_metadata(&ran(&text)),
            Ok((Ratio { num: 30, den: 1 }, Ratio { num: 0, den: 1 })),
            "{}",
            duration
        );
    }
}

#[test]
fn rates_read_with_a_fallback_are_positive() {
    let fallback = Ratio { num: 30, den: 1 };
    assert_eq!(read_rate_or("25/1", fallback), Ratio { num: 25, den: 1 });
    assert_eq!(read_rate_or("0/7", fallback), fallback);
    assert_eq!(read_rate_or("x/25/1", fallback), fallback);
    assert_eq!(read_rate_or("25", fallback), fallback);
}

#[test]
fn technical_metadata_reads_whatever_a_started_probe_printed() {
    assert_eq!(
        get_video_technical_metadata(&ran(FULL)),
        Ok((Ratio { num: 30000, den: 1001 }, Ratio { num: 12345000, den: 1000000 }))
    );
    let failed = ProbeRun { exit: ToolExit::Failed("boom".to_string()), stdout: FULL.to_string() };
    assert!(get_video_technical_metadata(&failed).is_ok());
    let unstarted =
        ProbeRun { exit: ToolExit::SpawnFailed("no such file".to_string()), stdout: String::new() };
    assert_eq!(
        get_video_technical_metadata(&unstarted),
        Err(VideoError::ProcessSpawnFailure("no such file".to_string()))
    );
    assert!(matches!(
        get_video_technical_metadata(&ran("{}")),
        Err(VideoError::MalformedOutput(_))
    ));
}

#[test]
fn light_probe_reads_first_stream_leniently() {
    assert_eq!(
        get_video_fps(&ran(r#"{"programs": [], "streams": [{"r_frame_rate": "30000/1001"}]}"#)),
        Ok(Ratio { num: 30000, den: 1001 })
    );
    assert_eq!(
        get_video_fps(&ran(r#"{"streams": [{"r_frame_rate": "5/1"}, 7]}"#)),
        Ok(Ratio { num: 5, den: 1 })
    );
}

#[test]
fn light_probe_defaults_to_one() {
    let one = Ok(Ratio { num: 1, den: 1 });
    assert_eq!(get_video_fps(&ran(r#"{"streams": [{"r_frame_rate": "0/0"}]}"#)), one);
    assert_eq!(get_video_fps(&ran(r#"{"streams":[{"r_frame_rate":"x/5/2"}]}"#)), one);
    assert_eq!(get_video_fps(&ran(r#"{"streams":[{"r_frame_rate":"0/3"}]}"#)), one);
    assert_eq!(get_video_fps(&ran(r#"{"streams": [{"r_frame_rate": "fast"}]}"#)), one);
    assert_eq!(get_video_fps(&ran(r#"{"streams": [{"r_frame_rate": 30}]}"#)), one);
    assert_eq!(get_video_fps(&ran(r#"{"streams": []}"#)), one);
    assert_eq!(get_video_fps(&ran(r#"{"streams": {}}"#)), one);
    assert_eq!(get_video_fps(&ran("{}")), one);
    assert_eq!(get_video_fps(&ran("[]")), one);
    let doc = parse_json("3").unwrap();
    assert_eq!(light_rate_from_json(&doc), Ratio { num: 1, den: 1 });
}

#[test]
fn light_probe_reports_failures() {
    let failed = ProbeRun { exit: ToolExit::Failed("bad file".to_string()), stdout: String::new() };
    assert_eq!(get_video_fps(&failed), Err(VideoError::ProcessFailure("bad file".to_string())));
    let unstarted = ProbeRun { exit: ToolExit::SpawnFailed("gone".to_string()), stdout: String::new() };
    assert_eq!(get_video_fps(&unstarted), Err(VideoError::ProcessSpawnFailure("gone".to_string())));
    assert!(matches!(get_video_fps(&ran("")), Err(VideoError::MalformedOutput(_))));
    assert_eq!(source_rate_of(&failed), Ratio { num: 1, den: 1 });
    assert_eq!(source_rate_of(&ran("")), Ratio { num: 1, den: 1 });
    assert_eq!(
        source_rate_of(&ran(r#"{"streams": [{"r_frame_rate": "24/1"}]}"#)),
        Ratio { num: 24, den: 1 }
    );
}

#[test]
fn probe_commands_are_exact() {
    let command = get_video_technical_metadata_command("/v/a.mp4");
    assert_eq!(command.tool, Tool::Ffprobe);
    assert_eq!(
        command.args,
        strings(&["-v", "quiet", "-print_format", "json", "-show_format", "-show_streams", "/v/a.mp4"])
    );
    let command = creation_time_command("/v/a.mp4");
    assert_eq!(command.tool, Tool::Ffprobe);
    assert_eq!(
        command.args,
        strings(&[
            "-v",
            "quiet",
            "-print_format",
            "json",
            "-show_format",
            "-show_streams",
            "-show_entries",
            "format_tags=creation_time",
            "/v/a.mp4"
        ])
    );
    let command = get_video_fps_command("b.mkv");
    assert_eq!(command.tool, Tool::Ffprobe);
    assert_eq!(
        command.args,
        strings(&[
            "-v",
            "quiet",
            "-print_format",
            "json",
            "-select_streams",
            "v:0",
            "-show_entries",
            "stream=r_frame_rate",
            "b.mkv"
        ])
    );
}

#[test]
fn exit_check_maps_each_ending() {
    assert_eq!(ToolExit::Succeeded.check(), Ok(()));
    assert_eq!(
        ToolExit::Failed("e".to_string()).check(),
        Err(VideoError::ProcessFailure("e".to_string()))
    );
    assert_eq!(
        ToolExit::SpawnFailed("s".to_string()).check(),
        Err(VideoError::ProcessSpawnFailure("s".to_string()))
    );
}
