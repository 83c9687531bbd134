use printnanny_nats::recording::NewVideoRecordingPart;
use printnanny_nats::recording::{
    parse_video_recording_id, parse_video_recording_index, path_components,
};

#[test]
fn test_parse_video_recording_id() {
    let filename = "/home/printnanny/.local/share/printnanny/video/66b3a3a0-30b5-41f2-9907-a335de57c921/00025.mp4";
    let expected = "66b3a3a0-30b5-41f2-9907-a335de57c921";
    let result = parse_video_recording_id(filename);
    assert_eq!(result, expected);
}

#[test]
fn test_parse_video_recording_index() {
    let filename = "/home/printnanny/.local/share/printnanny/video/66b3a3a0-30b5-41f2-9907-a335de57c921/00025.mp4";
    let expected = 25;
    let result = parse_video_recording_index(filename);
    assert_eq!(result, expected);
}

#[test]
fn path_components_follow_unix_rules() {
    assert_eq!(path_components("/a//b/./c/"), vec!["/", "a", "b", "c"]);
    assert_eq!(path_components("./a/../b"), vec![".", "a", "..", "b"]);
    assert_eq!(path_components("a/b"), vec!["a", "b"]);
    assert_eq!(path_components("."), vec!["."]);
    assert_eq!(path_components(".hidden/x"), vec![".hidden", "x"]);
    assert!(path_components("").is_empty());
}

#[test]
fn recording_id_of_relative_path() {
    assert_eq!(parse_video_recording_id("abc/00001.mp4"), "abc");
    assert_eq!(parse_video_recording_id("/00001.mp4"), "/");
}

#[test]
fn recording_index_reads_text_before_first_dot() {
    assert_eq!(parse_video_recording_index("rec/-00012.part.mp4"), -12);
    assert_eq!(parse_video_recording_index("7"), 7);
}

#[test]
fn new_recording_part_from_fragment() {
    let location = "/home/printnanny/.local/share/printnanny/video/66b3a3a0-30b5-41f2-9907-a335de57c921/00025.mp4";
    let row = NewVideoRecordingPart::from_fragment(location, 1_000_000, 4096);
    assert_eq!(row.id, "66b3a3a0-30b5-41f2-9907-a335de57c921-25");
    assert_eq!(row.buffer_index, 25);
    assert_eq!(row.buffer_runningtime, 1_000_000);
    assert!(!row.deleted);
    assert_eq!(row.file_name, location);
    assert_eq!(row.video_recording_id, "66b3a3a0-30b5-41f2-9907-a335de57c921");
    assert_eq!(row.size, 4096);
}
