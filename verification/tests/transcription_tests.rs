use media_player::media_information::transcription_events;
use media_player::media_information::TranscriptChunk;
use media_player::TranscriptionProgress;

const WINDOW: u64 = 30_000;

fn chunk(text: &str, timestamp: Option<(u64, u64)>) -> TranscriptChunk {
    TranscriptChunk { text: text.to_string(), timestamp }
}

#[test]
fn plain_run_collects_segments_and_events() {
    let windows = vec![
        vec![chunk("hello ", Some((0, 1_000))), chunk("noise", None)],
        vec![chunk("world", Some((500, 1_500)))],
    ];
    let (transcript, events) = transcription_events(&windows, false, WINDOW);

    assert_eq!(transcript.len(), 2);
    assert_eq!(transcript[0].text, "hello ");
    assert_eq!(transcript[0].time, 0);
    assert_eq!(transcript[1].text, "world");
    assert_eq!(transcript[1].time, 30_500);

    assert_eq!(events.len(), 6);
    assert!(matches!(&events[0], TranscriptionProgress::InProgress(d) if d.time == 0));
    assert!(matches!(events[1], TranscriptionProgress::Reading));
    assert!(matches!(events[2], TranscriptionProgress::Reading));
    assert!(matches!(&events[3], TranscriptionProgress::InProgress(d) if d.time == 30_500));
    assert!(matches!(events[4], TranscriptionProgress::Reading));
    assert!(matches!(events[5], TranscriptionProgress::Finished));
}

#[test]
fn timestamped_run_renders_time_ranges() {
    let windows = vec![vec![chunk("hello ", Some((0, 1_000)))], vec![chunk(
        "world",
        Some((500, 1_500)),
    )]];
    let (transcript, _events) = transcription_events(&windows, true, WINDOW);
    assert_eq!(transcript.len(), 2);
    assert_eq!(transcript[0].text, "00:00-00:01: hello \n");
    assert_eq!(transcript[0].time, 0);
    assert_eq!(transcript[1].text, "00:30-00:31: world\n");
    assert_eq!(transcript[1].time, 30_500);
}

#[test]
fn every_run_ends_with_exactly_one_finished() {
    let runs = vec![
        vec![],
        vec![vec![chunk("a", Some((0, 10)))]],
        vec![vec![chunk("a", None), chunk("b", Some((5, 6)))], vec![], vec![chunk(
            "c",
            Some((1, 2)),
        )]],
    ];
    for windows in runs {
        let (_transcript, events) = transcription_events(&windows, false, WINDOW);
        let finished = events
            .iter()
            .filter(|e| matches!(e, TranscriptionProgress::Finished))
            .count();
        assert_eq!(finished, 1);
        assert!(matches!(events.last(), Some(TranscriptionProgress::Finished)));
    }
}

#[test]
fn failed_run_still_emits_the_terminal_event() {
    // A run cut short delivers fewer windows — here none at all — and the
    // terminal event is emitted regardless, releasing the consumer.
    let windows: Vec<Vec<TranscriptChunk>> = vec![];
    let (transcript, events) = transcription_events(&windows, false, WINDOW);
    assert!(transcript.is_empty());
    assert_eq!(events.len(), 1);
    assert!(matches!(events[0], TranscriptionProgress::Finished));
}

#[test]
fn chunks_without_timestamps_yield_no_segments() {
    let windows = vec![vec![chunk("mumble", None), chunk("static", None)]];
    let (transcript, events) = transcription_events(&windows, false, WINDOW);
    assert!(transcript.is_empty());
    assert_eq!(events.len(), 3);
    assert!(matches!(events[0], TranscriptionProgress::Reading));
    assert!(matches!(events[1], TranscriptionProgress::Reading));
    assert!(matches!(events[2], TranscriptionProgress::Finished));
}

#[test]
fn window_offsets_accumulate_per_window() {
    let windows = vec![
        vec![chunk("w0", Some((100, 200)))],
        vec![chunk("w1", Some((100, 200)))],
        vec![chunk("w2", Some((100, 200)))],
    ];
    let (transcript, _events) = transcription_events(&windows, false, WINDOW);
    assert_eq!(transcript[0].time, 100);
    assert_eq!(transcript[1].time, 30_100);
    assert_eq!(transcript[2].time, 60_100);
}

#[test]
fn progress_events_compare_by_value() {
    let a = TranscriptionProgress::Reading;
    let b = TranscriptionProgress::Reading;
    assert_eq!(a, b);
    assert_ne!(TranscriptionProgress::Reading, TranscriptionProgress::Finished);
}
