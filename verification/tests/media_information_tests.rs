use media_player::media_information::format_duration;
use media_player::media_information::get_media_type;
use media_player::media_information::get_total_time;
use media_player::InputMode;
use media_player::MediaType;

#[test]
fn format_duration_minutes_seconds() {
    assert_eq!(format_duration(64_000), "01:04");
}

#[test]
fn format_duration_hours() {
    assert_eq!(format_duration(5_422_000), "01:30:22");
}

#[test]
fn format_duration_zero() {
    assert_eq!(format_duration(0), "00:00");
}

#[test]
fn format_duration_exact_hour() {
    assert_eq!(format_duration(3_600_000), "01:00:00");
}

#[test]
fn format_duration_rounds_down_to_seconds() {
    assert_eq!(format_duration(59_999), "00:59");
}

#[test]
fn format_duration_hundred_hours() {
    assert_eq!(format_duration(360_000_000), "100:00:00");
}

#[test]
fn media_type_audio_extensions() {
    assert!(matches!(get_media_type("hello.mp3"), MediaType::Audio));
    assert!(matches!(get_media_type("track.wav"), MediaType::Audio));
    assert!(matches!(get_media_type("voice.m4a"), MediaType::Audio));
    assert!(matches!(get_media_type("song.flac"), MediaType::Audio));
}

#[test]
fn media_type_video_extensions() {
    assert!(matches!(get_media_type("clip.mp4"), MediaType::Video));
    assert!(matches!(get_media_type("clip.avi"), MediaType::Video));
    assert!(matches!(get_media_type("clip.mov"), MediaType::Video));
    assert!(matches!(get_media_type("clip.mkv"), MediaType::Video));
}

#[test]
fn media_type_ignores_ascii_case() {
    assert!(matches!(get_media_type("HELLO.MP3"), MediaType::Audio));
    assert!(matches!(get_media_type("song.FLAC"), MediaType::Audio));
    assert!(matches!(get_media_type("CLIP.MkV"), MediaType::Video));
}

#[test]
fn media_type_bare_extension() {
    assert!(matches!(get_media_type("mp3"), MediaType::Audio));
    assert!(matches!(get_media_type("mkv"), MediaType::Video));
}

#[test]
fn media_type_last_extension_wins() {
    assert!(matches!(get_media_type("a.b.mp4"), MediaType::Video));
    assert!(matches!(get_media_type("archive.tar.mp3"), MediaType::Audio));
}

#[test]
fn media_type_unknown_is_error() {
    assert!(matches!(get_media_type("archive.zip"), MediaType::Error));
    assert!(matches!(get_media_type("notes"), MediaType::Error));
    assert!(matches!(get_media_type(""), MediaType::Error));
}

#[test]
fn media_type_hidden_file_is_error() {
    assert!(matches!(get_media_type(".mp3"), MediaType::Error));
    assert!(matches!(get_media_type("dir/.mp3"), MediaType::Error));
}

#[test]
fn media_type_dot_only_in_directory_is_error() {
    assert!(matches!(get_media_type("dir.x/file"), MediaType::Error));
}

#[test]
fn media_type_ignores_trailing_separators() {
    assert!(matches!(get_media_type("x.mp3/"), MediaType::Audio));
    assert!(matches!(get_media_type("x.mp3//"), MediaType::Audio));
    assert!(matches!(get_media_type("clips/a.mkv/"), MediaType::Video));
    assert!(matches!(get_media_type(".mp3/"), MediaType::Error));
    assert!(matches!(get_media_type("a.b/"), MediaType::Error));
}

/// One MPEG1 Layer III frame at 128 kbit/s, 44100 Hz, no padding:
/// 417 bytes, of which 4 are the header.
fn mp3_frame() -> Vec<u8> {
    let mut frame = vec![0xFF, 0xFB, 0x90, 0x00];
    frame.resize(417, 0x11);
    frame
}

fn mp3_bytes(frames: usize) -> Vec<u8> {
    let mut bytes = Vec::new();
    for _ in 0..frames {
        bytes.extend_from_slice(&mp3_frame());
    }
    bytes
}

#[test]
fn total_time_measures_mp3_buffer() {
    // 38 frames of 1152 samples at 44100 Hz measure 992 ms; the probe then
    // adds its one-second margin.
    let bytes = mp3_bytes(38);
    let total = get_total_time(MediaType::Audio, &InputMode::Bytes(bytes));
    assert_eq!(total, 1_992);
}

#[test]
fn total_time_single_frame() {
    // One frame measures 26 ms, plus the one-second margin.
    let total = get_total_time(MediaType::Audio, &InputMode::Bytes(mp3_bytes(1)));
    assert_eq!(total, 1_026);
}

/// A first frame whose Xing index claims `frames` frames and nothing more.
fn xing_bytes(frames: u32) -> Vec<u8> {
    let mut bytes = vec![0xFF, 0xFB, 0x90, 0x00];
    bytes.extend_from_slice(&[0u8; 32]);
    bytes.extend_from_slice(b"Xing");
    bytes.extend_from_slice(&[0x00, 0x00, 0x00, 0x01]);
    bytes.extend_from_slice(&frames.to_be_bytes());
    bytes
}

#[test]
fn total_time_reads_a_sane_xing_index() {
    // 38 claimed frames of 1152 samples at 44100 Hz measure 992 ms, plus
    // the one-second margin.
    let total = get_total_time(MediaType::Audio, &InputMode::Bytes(xing_bytes(38)));
    assert_eq!(total, 1_992);
}

#[test]
fn total_time_refuses_an_oversized_xing_claim() {
    // An index claiming u32::MAX frames would overflow the probe's
    // nanosecond arithmetic; the buffer degrades to the unknown duration
    // instead of being probed.
    let total = get_total_time(MediaType::Audio, &InputMode::Bytes(xing_bytes(u32::MAX)));
    assert_eq!(total, 0);
}

#[test]
fn total_time_unrecognised_buffer_is_zero() {
    let total = get_total_time(
        MediaType::Audio,
        &InputMode::Bytes(vec![0x00, 0x01, 0x02, 0x03]),
    );
    assert_eq!(total, 0);
}

#[test]
fn total_time_of_path_is_left_to_the_host() {
    let total = get_total_time(
        MediaType::Audio,
        &InputMode::FilePath("song.mp3".to_string()),
    );
    assert_eq!(total, 0);
}
