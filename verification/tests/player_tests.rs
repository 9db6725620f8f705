use media_player::player::Player;
use media_player::player::PlayerState;
use media_player::MediaType;
use media_player::TranscriptionData;
use media_player::TranscriptionProgress;
use media_player::TranscriptionSettings;

fn audio_player(total_millis: u64) -> Player {
    let mut player = Player::from_path("song.mp3");
    assert!(matches!(player.media_type, MediaType::Audio));
    player.set_total_time(total_millis);
    player
}

#[test]
fn initial_state_is_paused_at_zero() {
    let player = Player::from_path("song.mp3");
    assert_eq!(player.player_state, PlayerState::Paused);
    assert_eq!(player.elapsed_time, 0);
    assert_eq!(player.volume, 100);
    assert!(player.transcript.is_empty());
}

#[test]
fn unsupported_source_refuses_transport() {
    let mut player = Player::from_path("notes.txt");
    assert!(matches!(player.media_type, MediaType::Error));
    let launch = player.transport_clicked(0);
    assert!(launch.is_none());
    assert_eq!(player.player_state, PlayerState::Paused);
}

#[test]
fn play_spawns_one_worker_generation() {
    let mut player = audio_player(10_000);
    let launch = player.transport_clicked(0).expect("a worker is spawned");
    assert_eq!(launch.generation, 1);
    assert_eq!(launch.start_at, 0);
    assert_eq!(player.player_state, PlayerState::Playing);
    assert_eq!(player.generation, 1);
    assert!(!player.stop_raised);
}

#[test]
fn pause_freezes_position_and_raises_stop() {
    let mut player = audio_player(10_000);
    player.transport_clicked(0);
    player.frame_poll(0, None);
    player.frame_poll(2_000, None);
    assert_eq!(player.elapsed_time, 2_000);
    let launch = player.transport_clicked(3_000);
    assert!(launch.is_none());
    assert_eq!(player.player_state, PlayerState::Paused);
    assert_eq!(player.elapsed_time, 3_000);
    assert!(player.stop_raised);
}

#[test]
fn elapsed_time_advances_monotonically_while_playing() {
    let mut player = audio_player(60_000);
    player.transport_clicked(1_000);
    player.frame_poll(1_000, None);
    let mut last = 0;
    for now in [1_000u64, 1_500, 2_000, 4_000, 4_000, 9_999] {
        let elapsed = player.get_elapsed_time(now);
        assert!(elapsed >= last);
        last = elapsed;
    }
    assert_eq!(player.get_elapsed_time(5_000), 4_000);
}

#[test]
fn elapsed_time_is_constant_while_paused() {
    let mut player = audio_player(60_000);
    player.transport_clicked(0);
    player.frame_poll(0, None);
    player.transport_clicked(2_500);
    assert_eq!(player.player_state, PlayerState::Paused);
    assert_eq!(player.get_elapsed_time(3_000), 2_500);
    assert_eq!(player.get_elapsed_time(60_000), 2_500);
    assert_eq!(player.get_elapsed_time(0), 2_500);
}

#[test]
fn play_at_the_end_goes_straight_to_ended() {
    let mut player = audio_player(5_000);
    player.seek_to(0, 5_000);
    assert_eq!(player.elapsed_time, 5_000);
    let generation_before = player.generation;
    let launch = player.transport_clicked(0);
    assert!(launch.is_none());
    assert_eq!(player.player_state, PlayerState::Ended);
    assert_eq!(player.generation, generation_before);
    assert!(player.stop_raised);
}

#[test]
fn replay_from_ended_restarts_at_zero() {
    let mut player = audio_player(5_000);
    player.seek_to(0, 5_000);
    player.transport_clicked(0);
    assert_eq!(player.player_state, PlayerState::Ended);
    let launch = player.transport_clicked(1_000).expect("replay spawns a worker");
    assert_eq!(launch.start_at, 0);
    assert_eq!(player.player_state, PlayerState::Playing);
    assert_eq!(player.elapsed_time, 0);
}

#[test]
fn new_generation_invalidates_the_prior_one() {
    let mut player = audio_player(60_000);
    player.transport_clicked(0);
    assert_eq!(player.generation, 1);
    player.frame_poll(0, None);
    player.transport_clicked(1_000);
    assert!(player.stop_raised);
    let launch = player.transport_clicked(1_500).expect("a fresh worker");
    assert_eq!(launch.generation, 2);
    assert_eq!(player.generation, 2);
    assert!(!player.stop_raised);
}

#[test]
fn full_playback_reaches_ended_with_clamped_position() {
    // Total duration 10 s; play at t = 0 and wait 10.5 s of wall time
    // without interacting: the player has ended, the position reads the
    // clamped total, and no audio worker is left running.
    let mut player = audio_player(10_000);
    player.transport_clicked(0);
    player.frame_poll(0, None);
    let repaint = player.frame_poll(10_500, None);
    assert_eq!(player.player_state, PlayerState::Ended);
    assert_eq!(player.elapsed_time, 10_000);
    assert!(player.stop_raised);
    assert!(!repaint);
}

#[test]
fn redraw_is_requested_only_while_playing() {
    let mut player = audio_player(10_000);
    assert!(!player.frame_poll(0, None));
    player.transport_clicked(0);
    assert!(player.frame_poll(0, None));
    player.transport_clicked(1_000);
    assert!(!player.frame_poll(1_000, None));
}

#[test]
fn slider_drag_pauses_and_overrides_position() {
    // Dragging the slider from 2 s to 7 s while Playing: the state becomes
    // Paused, the position reads exactly 7 s, no worker stays active.
    let mut player = audio_player(10_000);
    player.transport_clicked(0);
    player.frame_poll(0, None);
    player.frame_poll(2_000, None);
    assert_eq!(player.elapsed_time, 2_000);
    player.seek_to(2_000, 7_000);
    assert_eq!(player.player_state, PlayerState::Paused);
    assert_eq!(player.elapsed_time, 7_000);
    assert!(player.stop_raised);
}

#[test]
fn seek_is_clamped_to_the_total() {
    let mut player = audio_player(10_000);
    player.seek_to(0, 25_000);
    assert_eq!(player.elapsed_time, 10_000);
}

#[test]
fn clicking_a_segment_seeks_to_its_start_and_pauses() {
    // A transcript segment starting at 12.5 s, clicked while Playing:
    // playback pauses and the position becomes exactly 12.5 s.
    let mut player = audio_player(20_000);
    player.set_transcript_settings(TranscriptionSettings::Allow);
    assert!(player.request_transcription());
    player.frame_poll(
        0,
        Some(TranscriptionProgress::InProgress(TranscriptionData {
            text: "hello".to_string(),
            time: 12_500,
        })),
    );
    assert_eq!(player.transcript.len(), 1);
    player.transport_clicked(0);
    assert_eq!(player.player_state, PlayerState::Playing);
    player.click_segment(1_000, 0);
    assert_eq!(player.player_state, PlayerState::Paused);
    assert_eq!(player.elapsed_time, 12_500);
    assert!(player.stop_raised);
}

#[test]
fn transcription_request_while_active_is_a_no_op() {
    let mut player = audio_player(10_000);
    player.set_transcript_settings(TranscriptionSettings::Allow);
    assert!(player.request_transcription());
    let channel_before = player.transcript_channel;
    player.frame_poll(
        0,
        Some(TranscriptionProgress::InProgress(TranscriptionData {
            text: "one".to_string(),
            time: 0,
        })),
    );
    let segments_before = player.transcript.len();
    assert!(!player.request_transcription());
    assert_eq!(player.transcript_channel, channel_before);
    assert_eq!(player.transcript.len(), segments_before);
    assert!(player.is_transcription_active());
}

#[test]
fn transcription_request_while_disabled_is_refused() {
    let mut player = audio_player(10_000);
    assert!(!player.request_transcription());
    assert!(!player.is_transcription_active());
    assert_eq!(player.transcript_channel, 0);
}

#[test]
fn finished_event_releases_the_subscription() {
    let mut player = audio_player(10_000);
    player.set_transcript_settings(TranscriptionSettings::TranscriptLabel);
    assert!(player.request_transcription());
    assert!(player.is_transcription_active());
    player.frame_poll(0, Some(TranscriptionProgress::Finished));
    assert!(!player.is_transcription_active());
    // a later request opens a fresh channel
    assert!(player.request_transcription());
    assert_eq!(player.transcript_channel, 2);
}

#[test]
fn duplicate_segments_are_stored_once() {
    let mut player = audio_player(10_000);
    player.set_transcript_settings(TranscriptionSettings::Allow);
    player.request_transcription();
    let segment = TranscriptionData { text: "again".to_string(), time: 700 };
    player.frame_poll(0, Some(TranscriptionProgress::InProgress(segment.clone())));
    player.frame_poll(10, Some(TranscriptionProgress::InProgress(segment.clone())));
    player.frame_poll(20, None);
    assert_eq!(player.transcript.len(), 1);
    assert_eq!(player.transcript[0].text, "again");
    assert_eq!(player.transcript[0].time, 700);
}

#[test]
fn worker_failure_falls_back_to_paused() {
    let mut player = audio_player(10_000);
    let launch = player.transport_clicked(0).expect("a worker is spawned");
    player.frame_poll(0, None);
    player.worker_failed(500, launch.generation);
    assert_eq!(player.player_state, PlayerState::Paused);
    assert!(player.stop_raised);
}

#[test]
fn stale_worker_failure_changes_nothing() {
    let mut player = audio_player(10_000);
    let first = player.transport_clicked(0).expect("a worker is spawned");
    player.frame_poll(0, None);
    player.transport_clicked(100);
    player.transport_clicked(200);
    assert_eq!(player.player_state, PlayerState::Playing);
    player.worker_failed(300, first.generation);
    assert_eq!(player.player_state, PlayerState::Playing);
    assert!(!player.stop_raised);
}

#[test]
fn volume_is_clamped_into_range() {
    let mut player = audio_player(10_000);
    player.set_volume(-5);
    assert_eq!(player.volume, 0);
    player.set_volume(150);
    assert_eq!(player.volume, 100);
    player.set_volume(42);
    assert_eq!(player.volume, 42);
}

#[test]
fn timestamp_setting_is_reported() {
    let mut player = audio_player(10_000);
    assert!(!player.is_timestamped());
    player.set_transcript_settings(TranscriptionSettings::ShowTimeStamps);
    assert!(player.is_timestamped());
    player.set_transcript_settings(TranscriptionSettings::TranscriptLabel);
    assert!(!player.is_timestamped());
}

#[test]
fn byte_buffer_construction_classifies_and_measures() {
    // 38 MPEG1 Layer III frames at 128 kbit/s, 44100 Hz: sniffed as mp3,
    // measured as 992 ms, granted the one-second margin.
    let mut bytes = Vec::new();
    for _ in 0..38 {
        let mut frame = vec![0xFF, 0xFB, 0x90, 0x00];
        frame.resize(417, 0x11);
        bytes.extend_from_slice(&frame);
    }
    let player = Player::from_bytes(bytes);
    assert!(matches!(player.media_type, MediaType::Audio));
    assert_eq!(player.total_time, 1_992);
}

#[test]
fn unrecognised_bytes_are_an_error_source() {
    let player = Player::from_bytes(vec![0x00, 0x01, 0x02, 0x03]);
    assert!(matches!(player.media_type, MediaType::Error));
    assert_eq!(player.total_time, 0);
}
