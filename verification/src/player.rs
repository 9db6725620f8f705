//! The playback controller: a state machine over Paused, Playing and Ended
//! that owns the elapsed-time stopwatch, the per-generation stop signal of
//! the audio worker, and the consumer side of the transcription protocol.
//!
//! The controller never blocks and never touches a device: the host's frame
//! loop calls [`Player::frame_poll`] once per redraw with the wall-clock
//! time in milliseconds, spawns one audio worker per [`AudioStart`] it is
//! handed, and lets that worker poll the current generation's stop signal
//! and the volume cell until one of them ends it.
use vstd::prelude::*;

use crate::media_information;
use crate::InputMode;
use crate::MediaType;
use crate::ModelPath;
use crate::TranscriptionData;
use crate::TranscriptionDataView;
use crate::TranscriptionProgress;
use crate::TranscriptionProgressView;
use crate::TranscriptionSettings;

verus! {

/// The transport state of the player.
#[derive(Debug, Copy, Clone, PartialEq, Eq, Structural)]
pub enum PlayerState {
    Playing,
    Paused,
    Ended,
}

/// The order to start one audio worker: the playback generation it is bound
/// to and the offset, in milliseconds, at which it begins playing. The
/// worker owns no shared state; it only reads the volume cell and the stop
/// signal of its generation.
#[derive(Debug, Copy, Clone, PartialEq, Eq, Structural)]
pub struct AudioStart {
    pub generation: u64,
    pub start_at: u64,
}

/// Whether `s` holds an entry whose value is `d`.
pub open spec fn spec_transcript_contains(s: Seq<TranscriptionData>, d: TranscriptionDataView) -> bool {
    exists|i: int| 0 <= i < s.len() && s[i]@ == d
}

/// What playback transitions leave untouched: everything but the transport
/// state, the stopwatch and the stop signals.
pub open spec fn spec_playback_rest_unchanged(pre: Player, post: Player) -> bool {
    &&& post.media_type == pre.media_type
    &&& post.file_input == pre.file_input
    &&& post.total_time == pre.total_time
    &&& post.volume == pre.volume
    &&& post.transcript == pre.transcript
    &&& post.transcription_settings == pre.transcription_settings
    &&& post.model_path == pre.model_path
    &&& post.transcription_progress == pre.transcription_progress
    &&& post.transcript_active == pre.transcript_active
    &&& post.transcript_channel == pre.transcript_channel
}

/// The paused outcome, except for where the position froze: the current
/// generation's stop signal is raised — cancelling its audio worker — and
/// the stopwatch is unanchored.
pub open spec fn spec_paused_core(pre: Player, post: Player) -> bool {
    &&& post.player_state is Paused
    &&& post.stop_raised
    &&& post.stopwatch_anchor is None
    &&& !post.start_playback
    &&& post.generation == pre.generation
    &&& post.stop_flags@ == pre.stop_flags@.update(pre.generation as int, true)
    &&& post.start_time == pre.start_time
    &&& spec_playback_rest_unchanged(pre, post)
}

/// The outcome of starting playback: a fresh generation whose stop signal
/// is unraised, the prior generation's signal raised, and the order to
/// spawn the new generation's worker at the current position.
pub open spec fn spec_playing_outcome(pre: Player, post: Player, launch: Option<AudioStart>) -> bool {
    &&& post.player_state is Playing
    &&& post.start_playback
    &&& !post.stop_raised
    &&& post.generation == pre.generation + 1
    &&& post.stop_flags@ == pre.stop_flags@.update(pre.generation as int, true).push(false)
    &&& post.stopwatch_anchor is None
    &&& post.elapsed_time == pre.elapsed_time
    &&& post.start_time == pre.start_time
    &&& launch == Option::Some(
        AudioStart { generation: post.generation, start_at: pre.elapsed_time },
    )
    &&& spec_playback_rest_unchanged(pre, post)
}

/// The outcome of a play request that found the position already at the
/// total: the player ends directly, no worker is spawned and no new
/// generation is opened.
pub open spec fn spec_ended_outcome(pre: Player, post: Player) -> bool {
    &&& post.player_state is Ended
    &&& post.stop_raised
    &&& post.stopwatch_anchor is None
    &&& !post.start_playback
    &&& post.generation == pre.generation
    &&& post.stop_flags@ == pre.stop_flags@.update(pre.generation as int, true)
    &&& post.elapsed_time == pre.elapsed_time
    &&& post.start_time == pre.start_time
    &&& spec_playback_rest_unchanged(pre, post)
}

/// The playback controller. All positions and durations are milliseconds.
pub struct Player {
    /// Classification of the source, fixed at construction.
    pub media_type: MediaType,
    /// The media source itself, kept for the workers the host spawns.
    pub file_input: InputMode,
    /// Transport state; `Paused` initially.
    pub player_state: PlayerState,
    /// Current playback position, frozen while not playing.
    pub elapsed_time: u64,
    /// Total duration of the source; zero when unknown.
    pub total_time: u64,
    /// Set by a play action; the next frame poll anchors the stopwatch.
    pub start_playback: bool,
    /// Number of the current (latest) playback generation.
    pub generation: u64,
    /// The stop signal of the current generation.
    pub stop_raised: bool,
    /// Every generation's stop signal so far, the current one last.
    pub stop_flags: Ghost<Seq<bool>>,
    /// Wall-clock instant at which the stopwatch was anchored.
    pub stopwatch_anchor: Option<u64>,
    /// Position at which the stopwatch was anchored.
    pub start_time: u64,
    /// Volume cell the audio worker reads, `0..=100`.
    pub volume: i32,
    pub transcription_settings: TranscriptionSettings,
    /// Transcript segments observed so far, in arrival order.
    pub transcript: Vec<TranscriptionData>,
    /// Where the speech-recognition model is stored.
    pub model_path: ModelPath,
    pub transcription_progress: TranscriptionProgress,
    /// Whether a transcription subscription is active.
    pub transcript_active: bool,
    /// Identity of the latest subscription channel.
    pub transcript_channel: u64,
}

impl Player {
    /// The stop signal of every generation so far, the current one last.
    /// An audio worker of generation `g` keeps running only while entry `g`
    /// is unraised; raising it is the one way playback is cancelled.
    pub open spec fn spec_stop_flags(self) -> Seq<bool> {
        self.stop_flags@
    }

    /// The current playback generation's number.
    pub open spec fn spec_generation(self) -> u64 {
        self.generation
    }

    /// The stop signal of the current generation.
    pub open spec fn spec_stop_raised(self) -> bool {
        self.stop_raised
    }

    /// The stopwatch anchor, if one is set.
    pub open spec fn spec_anchor(self) -> Option<u64> {
        self.stopwatch_anchor
    }

    /// Whether a play action is waiting for its first frame poll.
    pub open spec fn spec_start_playback(self) -> bool {
        self.start_playback
    }

    /// The configured transcription settings.
    pub open spec fn spec_settings(self) -> TranscriptionSettings {
        self.transcription_settings
    }

    /// The last observed transcription progress.
    pub open spec fn spec_progress(self) -> TranscriptionProgressView {
        self.transcription_progress@
    }

    /// Whether a transcription subscription is active.
    pub open spec fn spec_transcript_active(self) -> bool {
        self.transcript_active
    }

    /// The identity of the latest subscription channel.
    pub open spec fn spec_transcript_channel(self) -> u64 {
        self.transcript_channel
    }

    /// A generation that may still have a live audio worker: one whose stop
    /// signal has not been raised.
    pub open spec fn gen_live(self, g: int) -> bool {
        0 <= g < self.spec_stop_flags().len() && !self.spec_stop_flags()[g]
    }

    /// Well-formedness, established by the constructors and preserved by
    /// every method: the volume stays in range, the position never passes
    /// the total, exactly the current generation's stop signal may be
    /// unraised, and the stopwatch is anchored only while audibly playing.
    pub open spec fn wf(self) -> bool {
        &&& 0 <= self.volume <= 100
        &&& self.spec_stop_flags().len() == self.spec_generation() + 1
        &&& self.spec_stop_flags().last() == self.spec_stop_raised()
        &&& forall|g: int| 0 <= g < self.spec_generation() ==> self.spec_stop_flags()[g]
        &&& self.elapsed_time <= self.total_time
        &&& self.start_time <= self.total_time
        &&& self.spec_anchor() is Some ==> self.player_state is Playing
            && !self.spec_stop_raised()
        &&& self.player_state !is Playing ==> self.spec_anchor() is None
            && !self.spec_start_playback()
        &&& self.spec_start_playback() ==> self.player_state is Playing
            && !self.spec_stop_raised() && self.spec_anchor() is None
        &&& self.spec_stop_raised() ==> self.spec_anchor() is None
        &&& self.player_state is Playing ==> self.media_type is Audio
    }

    /// The reading of the elapsed-time stopwatch at wall-clock `now`: the
    /// anchored position plus the wall time since the anchor while one is
    /// set, the frozen position otherwise. A pure function of the state and
    /// `now`, evaluated fresh at every frame poll.
    pub open spec fn spec_elapsed_at(self, now: u64) -> u64 {
        match self.spec_anchor() {
            Option::Some(anchor) => if now >= anchor {
                if self.start_time + (now - anchor) > u64::MAX {
                    u64::MAX
                } else {
                    (self.start_time + (now - anchor)) as u64
                }
            } else {
                self.start_time
            },
            Option::None => self.elapsed_time,
        }
    }

    /// The position a frame poll at `now` stores: the stopwatch reading,
    /// clamped to the total duration.
    pub open spec fn spec_polled_elapsed(self, now: u64) -> u64 {
        if self.spec_elapsed_at(now) > self.total_time {
            self.total_time
        } else {
            self.spec_elapsed_at(now)
        }
    }

    /// The freshly constructed state for the source `input`.
    pub open spec fn spec_initial(self, input: crate::InputModeView) -> bool {
        &&& self.media_type == media_information::spec_media_type_of_input(input)
        &&& self.total_time == if self.media_type is Audio {
            media_information::spec_total_time(input)
        } else {
            0
        }
        &&& self.file_input@ == input
        &&& self.player_state is Paused
        &&& self.elapsed_time == 0
        &&& self.start_time == 0
        &&& self.volume == 100
        &&& self.transcript@.len() == 0
        &&& self.model_path is Default
        &&& self.spec_settings() is Disabled
        &&& self.spec_progress() is NoProgress
        &&& !self.spec_transcript_active()
        &&& self.spec_transcript_channel() == 0
        &&& self.spec_generation() == 0
        &&& !self.spec_stop_raised()
        &&& !self.spec_start_playback()
        &&& self.spec_anchor() is None
    }

    /// Builds the player for a media source: classifies it, probes what can
    /// be probed of its total duration, and starts paused at position zero
    /// with full volume and transcription disabled.
    fn new(file: InputMode) -> (p: Player)
        ensures
            p.wf(),
            p.spec_initial(file@),
    {
        let media_type = match &file {
            InputMode::FilePath(path) => media_information::get_media_type(path.as_str()),
            InputMode::Bytes(bytes) => match media_information::sniff_extension(bytes) {
                Some(extension) => media_information::get_media_type(extension),
                None => MediaType::Error,
            },
        };
        let total_time = match media_type {
            MediaType::Audio => media_information::get_total_time(MediaType::Audio, &file),
            MediaType::Video | MediaType::Error => 0,
        };
        let ghost initial_flags: Seq<bool> = seq![false];
        Player {
            media_type,
            file_input: file,
            player_state: PlayerState::Paused,
            elapsed_time: 0,
            total_time,
            start_playback: false,
            generation: 0,
            stop_raised: false,
            stop_flags: Ghost(initial_flags),
            stopwatch_anchor: None,
            start_time: 0,
            volume: 100,
            transcription_settings: TranscriptionSettings::Disabled,
            transcript: Vec::new(),
            model_path: ModelPath::Default,
            transcription_progress: TranscriptionProgress::NoProgress,
            transcript_active: false,
            transcript_channel: 0,
        }
    }

    /// Builds the player for a filesystem path.
    ///
    /// Probing a file's duration is I/O and lies with the host: the total
    /// starts out zero and the host may store its probe through
    /// [`Player::set_total_time`].
    pub fn from_path(file_path: &str) -> (p: Player)
        ensures
            p.wf(),
            p.spec_initial(crate::InputModeView::FilePath(file_path@)),
    {
        Self::new(InputMode::FilePath(file_path.to_owned()))
    }

    /// Builds the player for an in-memory byte buffer.
    pub fn from_bytes(bytes: Vec<u8>) -> (p: Player)
        ensures
            p.wf(),
            p.spec_initial(crate::InputModeView::Bytes(bytes@)),
    {
        Self::new(InputMode::Bytes(bytes))
    }

    /// Configures whether and how transcription is offered.
    pub fn set_transcript_settings(&mut self, setting: TranscriptionSettings)
        requires
            old(self).wf(),
        ensures
            final(self).wf(),
            (*final(self) == Player { transcription_settings: setting, ..*old(self) }),
    {
        self.transcription_settings = setting;
    }

    /// Configures where the speech-recognition model is downloaded.
    pub fn set_model_download_path(&mut self, file_path: String)
        requires
            old(self).wf(),
        ensures
            final(self).wf(),
            (*final(self) == Player {
                model_path: ModelPath::Custom(file_path),
                ..*old(self)
            }),
    {
        self.model_path = ModelPath::Custom(file_path);
    }

    /// Stores a total duration the host probed for the source, while still
    /// paused; the position is clamped into the new range.
    pub fn set_total_time(&mut self, total: u64)
        requires
            old(self).wf(),
            old(self).player_state is Paused,
        ensures
            final(self).wf(),
            (*final(self) == Player {
                total_time: total,
                elapsed_time: if old(self).elapsed_time > total {
                    total
                } else {
                    old(self).elapsed_time
                },
                start_time: if old(self).start_time > total {
                    total
                } else {
                    old(self).start_time
                },
                ..*old(self)
            }),
    {
        self.total_time = total;
        if self.elapsed_time > total {
            self.elapsed_time = total;
        }
        if self.start_time > total {
            self.start_time = total;
        }
    }

    /// Stores the volume the user chose, clamped into `0..=100`; the audio
    /// worker applies it to its sink on its next wakeup.
    pub fn set_volume(&mut self, volume: i32)
        requires
            old(self).wf(),
        ensures
            final(self).wf(),
            (*final(self) == Player {
                volume: if volume < 0 {
                    0
                } else if volume > 100 {
                    100
                } else {
                    volume
                },
                ..*old(self)
            }),
    {
        self.volume = if volume < 0 {
            0
        } else if volume > 100 {
            100
        } else {
            volume
        };
    }

    /// The stopwatch reading at wall-clock `now`, exactly
    /// [`Player::spec_elapsed_at`].
    pub fn get_elapsed_time(&self, now: u64) -> (e: u64)
        ensures
            e == self.spec_elapsed_at(now),
    {
        match self.stopwatch_anchor {
            Some(anchor) => {
                if now >= anchor {
                    match self.start_time.checked_add(now - anchor) {
                        Some(v) => v,
                        None => u64::MAX,
                    }
                } else {
                    self.start_time
                }
            },
            None => self.elapsed_time,
        }
    }

    /// Law: as wall time advances, the stopwatch reading never decreases —
    /// the elapsed time is monotonically non-decreasing under every
    /// sequence of play, pause and seek actions, between which it is read.
    pub proof fn lemma_elapsed_monotonic(self, n1: u64, n2: u64)
        requires
            self.wf(),
            n1 <= n2,
        ensures
            self.spec_elapsed_at(n1) <= self.spec_elapsed_at(n2),
            self.spec_polled_elapsed(n1) <= self.spec_polled_elapsed(n2),
    {
    }

    /// Law: while Paused or Ended the stopwatch is frozen — it reads the
    /// stored position whatever the wall-clock time, so the position is
    /// constant until the next explicit action.
    pub proof fn lemma_elapsed_frozen(self, now: u64)
        requires
            self.wf(),
            self.player_state !is Playing,
        ensures
            self.spec_elapsed_at(now) == self.elapsed_time,
            self.spec_polled_elapsed(now) == self.elapsed_time,
    {
    }

    /// Law: the stored position never regresses between frame polls. When
    /// `mid` is the stopwatch state a frame poll at `n1` left behind — as
    /// stated in the contracts of [`Player::frame_poll`] and
    /// [`Player::setup_stopwatch`] — then any later poll reads a position
    /// at least as large as the one stored, whether the stopwatch was
    /// still anchored, just anchored at `n1`, or frozen.
    pub proof fn lemma_poll_never_regresses(pre: Player, mid: Player, n1: u64, n2: u64)
        requires
            pre.wf(),
            mid.wf(),
            n1 <= n2,
            mid.total_time == pre.total_time,
            mid.elapsed_time == pre.spec_polled_elapsed(n1),
            mid.stopwatch_anchor == (if pre.start_playback {
                Option::Some(n1)
            } else {
                pre.stopwatch_anchor
            }),
            mid.start_time == (if pre.start_playback {
                pre.spec_polled_elapsed(n1)
            } else {
                pre.start_time
            }),
        ensures
            mid.spec_polled_elapsed(n2) >= mid.elapsed_time,
    {
    }

    /// Law: at most one playback generation can have a live audio worker at
    /// any instant, since at most one stop signal — the current
    /// generation's — is ever unraised.
    pub proof fn lemma_single_live_generation(self, g1: int, g2: int)
        requires
            self.wf(),
            self.gen_live(g1),
            self.gen_live(g2),
        ensures
            g1 == g2,
    {
    }
}

/// Whether `list` already holds an entry with the value of `d`.
fn transcript_contains(list: &Vec<TranscriptionData>, d: &TranscriptionData) -> (r: bool)
    ensures
        r == spec_transcript_contains(list@, d@),
{
    let n = list.len();
    let mut i: usize = 0;
    while i < n
        invariant
            i <= n,
            n == list@.len(),
            forall|j: int| 0 <= j < i ==> list@[j]@ != d@,
        decreases n - i,
    {
        if list[i] == *d {
            proof {
                assert(list@[i as int]@ == d@);
            }
            return true;
        }
        i += 1;
    }
    false
}

impl Player {
    /// Starts one playback generation: the prior generation's stop signal
    /// is raised, a fresh one is opened, and the order to spawn its audio
    /// worker at the current position is returned. When the position has
    /// already reached the total, the player ends directly instead: no
    /// worker is spawned and no generation is opened.
    pub fn play_player(&mut self) -> (launch: Option<AudioStart>)
        requires
            old(self).wf(),
            old(self).media_type is Audio,
            old(self).player_state !is Playing,
            old(self).generation < u64::MAX,
        ensures
            final(self).wf(),
            old(self).elapsed_time >= old(self).total_time ==> spec_ended_outcome(
                *old(self),
                *final(self),
            ) && launch is None,
            old(self).elapsed_time < old(self).total_time ==> spec_playing_outcome(
                *old(self),
                *final(self),
                launch,
            ),
    {
        if self.elapsed_time >= self.total_time {
            self.player_state = PlayerState::Ended;
            self.stop_raised = true;
            self.stop_flags = Ghost(self.stop_flags@.update(self.generation as int, true));
            None
        } else {
            self.player_state = PlayerState::Playing;
            self.start_playback = true;
            self.stop_raised = false;
            let prior = self.generation;
            self.generation = prior + 1;
            self.stop_flags = Ghost(self.stop_flags@.update(prior as int, true).push(false));
            Some(AudioStart { generation: self.generation, start_at: self.elapsed_time })
        }
    }

    /// Pauses playback: the position freezes at the current stopwatch
    /// reading, clamped to the total; the current generation's stop signal
    /// is raised, cancelling its audio worker; the stopwatch is unanchored.
    pub fn pause_player(&mut self, now: u64)
        requires
            old(self).wf(),
        ensures
            final(self).wf(),
            spec_paused_core(*old(self), *final(self)),
            final(self).elapsed_time == old(self).spec_polled_elapsed(now),
    {
        let e = self.get_elapsed_time(now);
        self.elapsed_time = if e > self.total_time {
            self.total_time
        } else {
            e
        };
        self.player_state = PlayerState::Paused;
        self.start_playback = false;
        self.stop_raised = true;
        self.stopwatch_anchor = None;
        self.stop_flags = Ghost(self.stop_flags@.update(self.generation as int, true));
    }

    /// A seek — the position slider's drag, from its start onwards:
    /// playback is forced to Paused, with the same cancellation as a pause,
    /// and the position is overridden with the target, clamped to the
    /// total. No audio worker is active during a drag.
    pub fn seek_to(&mut self, now: u64, position: u64)
        requires
            old(self).wf(),
        ensures
            final(self).wf(),
            spec_paused_core(*old(self), *final(self)),
            final(self).elapsed_time == if position > old(self).total_time {
                old(self).total_time
            } else {
                position
            },
    {
        self.pause_player(now);
        self.elapsed_time = if position > self.total_time {
            self.total_time
        } else {
            position
        };
    }

    /// A click on the rendered transcript segment at `index`: playback
    /// pauses and the position becomes the segment's start time (clamped to
    /// the total) — the one place a non-transport control writes into
    /// playback state.
    pub fn click_segment(&mut self, now: u64, index: usize)
        requires
            old(self).wf(),
            index < old(self).transcript@.len(),
        ensures
            final(self).wf(),
            spec_paused_core(*old(self), *final(self)),
            final(self).elapsed_time == if old(self).transcript@[index as int]@.time > old(
                self,
            ).total_time {
                old(self).total_time
            } else {
                old(self).transcript@[index as int]@.time
            },
    {
        let target = self.transcript[index].time;
        self.seek_to(now, target);
    }

    /// One press of the transport button: pause while Playing, play while
    /// Paused, replay from position zero when Ended. A source that is not
    /// playable audio is refused: nothing changes and no worker is spawned.
    pub fn transport_clicked(&mut self, now: u64) -> (launch: Option<AudioStart>)
        requires
            old(self).wf(),
            old(self).generation < u64::MAX,
        ensures
            final(self).wf(),
            old(self).media_type !is Audio ==> *final(self) == *old(self) && launch is None,
            old(self).media_type is Audio && old(self).player_state is Playing ==> spec_paused_core(
                *old(self),
                *final(self),
            ) && final(self).elapsed_time == old(self).spec_polled_elapsed(now) && launch is None,
            old(self).media_type is Audio && old(self).player_state is Paused ==> if old(
                self,
            ).elapsed_time >= old(self).total_time {
                spec_ended_outcome(*old(self), *final(self)) && launch is None
            } else {
                spec_playing_outcome(*old(self), *final(self), launch)
            },
            old(self).media_type is Audio && old(self).player_state is Ended ==> (
            {
                let replay = (Player { elapsed_time: 0, ..*old(self) });
                if replay.total_time == 0 {
                    spec_ended_outcome(replay, *final(self)) && launch is None
                } else {
                    spec_playing_outcome(replay, *final(self), launch)
                }
            }),
    {
        match self.media_type {
            MediaType::Audio => {},
            MediaType::Video | MediaType::Error => {
                return None;
            },
        }
        match self.player_state {
            PlayerState::Playing => {
                self.pause_player(now);
                None
            },
            PlayerState::Paused => self.play_player(),
            PlayerState::Ended => {
                self.elapsed_time = 0;
                self.play_player()
            },
        }
    }

    /// Reports that the audio worker of generation `generation` could not
    /// open or seek the media source — a fatal error for that generation
    /// alone. For the current generation, playback falls back to Paused
    /// with the same cancellation as a pause, so no half-started worker
    /// lingers; the failure of a stale, already superseded generation
    /// changes nothing.
    pub fn worker_failed(&mut self, now: u64, generation: u64)
        requires
            old(self).wf(),
        ensures
            final(self).wf(),
            generation == old(self).generation ==> spec_paused_core(*old(self), *final(self))
                && final(self).elapsed_time == old(self).spec_polled_elapsed(now),
            generation != old(self).generation ==> *final(self) == *old(self),
    {
        if generation == self.generation {
            self.pause_player(now);
        }
    }

    /// One stopwatch maintenance step, run first in every frame poll: the
    /// position is recomputed from the stopwatch, clamped to the total, and
    /// a play action still waiting for its first poll anchors the stopwatch
    /// at `now`.
    pub fn setup_stopwatch(&mut self, now: u64)
        requires
            old(self).wf(),
        ensures
            final(self).wf(),
            final(self).elapsed_time == old(self).spec_polled_elapsed(now),
            final(self).stopwatch_anchor == (if old(self).start_playback {
                Option::Some(now)
            } else {
                old(self).stopwatch_anchor
            }),
            final(self).start_time == (if old(self).start_playback {
                old(self).spec_polled_elapsed(now)
            } else {
                old(self).start_time
            }),
            !final(self).start_playback,
            final(self).player_state == old(self).player_state,
            final(self).stop_raised == old(self).stop_raised,
            final(self).generation == old(self).generation,
            final(self).stop_flags@ == old(self).stop_flags@,
            spec_playback_rest_unchanged(*old(self), *final(self)),
    {
        let e = self.get_elapsed_time(now);
        self.elapsed_time = if e > self.total_time {
            self.total_time
        } else {
            e
        };
        if self.start_playback {
            self.stopwatch_anchor = Some(now);
            self.start_time = self.elapsed_time;
            self.start_playback = false;
        }
    }

    /// The once-per-redraw synchronization point; it never blocks.
    ///
    /// The position is recomputed from the stopwatch; a playing source
    /// whose position reached the total takes the Ended transition, with
    /// the same cancellation as a pause and the position clamped to the
    /// total; the at most one event the host's non-blocking channel drain
    /// produced feeds the transcription consumer, whose subscription is
    /// released the moment the terminal event is observed; and the return
    /// says whether another redraw must be scheduled — exactly while still
    /// Playing.
    pub fn frame_poll(&mut self, now: u64, event: Option<TranscriptionProgress>) -> (repaint:
        bool)
        requires
            old(self).wf(),
        ensures
            final(self).wf(),
            repaint == (final(self).player_state is Playing),
            !final(self).start_playback,
            // the Ended transition: driven exactly when a playing source's
            // stopwatch reading reached the total
            old(self).player_state is Playing && old(self).spec_elapsed_at(now) >= old(
                self,
            ).total_time ==> {
                &&& final(self).player_state is Ended
                &&& final(self).elapsed_time == old(self).total_time
                &&& final(self).stop_raised
                &&& final(self).stopwatch_anchor is None
                &&& final(self).generation == old(self).generation
                &&& final(self).stop_flags@ == old(self).stop_flags@.update(
                    old(self).generation as int,
                    true,
                )
            },
            !(old(self).player_state is Playing && old(self).spec_elapsed_at(now) >= old(
                self,
            ).total_time) ==> {
                &&& final(self).player_state == old(self).player_state
                &&& final(self).elapsed_time == old(self).spec_polled_elapsed(now)
                &&& final(self).stop_raised == old(self).stop_raised
                &&& final(self).generation == old(self).generation
                &&& final(self).stop_flags@ == old(self).stop_flags@
                &&& final(self).stopwatch_anchor == (if old(self).start_playback {
                    Option::Some(now)
                } else {
                    old(self).stopwatch_anchor
                })
            },
            final(self).start_time == (if old(self).start_playback {
                old(self).spec_polled_elapsed(now)
            } else {
                old(self).start_time
            }),
            // fixed configuration
            final(self).media_type == old(self).media_type,
            final(self).file_input == old(self).file_input,
            final(self).total_time == old(self).total_time,
            final(self).volume == old(self).volume,
            final(self).transcription_settings == old(self).transcription_settings,
            final(self).model_path == old(self).model_path,
            final(self).transcript_channel == old(self).transcript_channel,
            // the transcription consumer: without a subscription nothing
            // moves, the event is ignored
            !old(self).transcript_active ==> final(self).transcript == old(self).transcript
                && !final(self).transcript_active && final(self).transcription_progress == old(
                self,
            ).transcription_progress,
            // with one, the drained event (if any) becomes the progress; a
            // new segment is appended exactly once; the terminal event
            // releases the subscription on this same frame
            old(self).transcript_active ==> ({
                let progress = match event {
                    Option::Some(ev) => ev@,
                    Option::None => old(self).spec_progress(),
                };
                &&& final(self).spec_progress() == progress
                &&& final(self).transcript_active == !(progress is Finished)
                &&& match progress {
                    TranscriptionProgressView::InProgress(d) => if spec_transcript_contains(
                        old(self).transcript@,
                        d,
                    ) {
                        final(self).transcript == old(self).transcript
                    } else {
                        media_information::spec_data_views(final(self).transcript@)
                            == media_information::spec_data_views(old(self).transcript@).push(d)
                    },
                    _ => final(self).transcript == old(self).transcript,
                }
            }),
    {
        self.setup_stopwatch(now);
        let is_playing = self.player_state == PlayerState::Playing;
        if is_playing && self.elapsed_time >= self.total_time {
            self.pause_player(now);
            self.player_state = PlayerState::Ended;
        }
        if self.transcript_active {
            match event {
                Some(ev) => {
                    self.transcription_progress = ev;
                },
                None => {},
            }
            match &self.transcription_progress {
                TranscriptionProgress::NoProgress => {},
                TranscriptionProgress::Reading => {},
                TranscriptionProgress::InProgress(d) => {
                    if !transcript_contains(&self.transcript, d) {
                        let data = d.clone();
                        self.transcript.push(data);
                    }
                },
                TranscriptionProgress::Finished => {
                    self.transcript_active = false;
                },
            }
        }
        self.player_state == PlayerState::Playing
    }

    /// Requests a transcription run. While one is already active this is a
    /// no-op — the player, its segment count and the channel identity are
    /// untouched — as it is while transcription is disabled. Otherwise a
    /// new subscription channel is opened, progress shows `Reading`, and
    /// the return tells the host to start the pipeline.
    pub fn request_transcription(&mut self) -> (started: bool)
        requires
            old(self).wf(),
            old(self).transcript_channel < u64::MAX,
        ensures
            final(self).wf(),
            old(self).transcript_active ==> *final(self) == *old(self) && !started,
            !old(self).transcript_active && old(self).transcription_settings is Disabled
                ==> *final(self) == *old(self) && !started,
            !old(self).transcript_active && old(self).transcription_settings !is Disabled
                ==> started && (*final(self) == Player {
                transcription_progress: TranscriptionProgress::Reading,
                transcript_active: true,
                transcript_channel: (old(self).transcript_channel + 1) as u64,
                ..*old(self)
            }),
    {
        if self.transcript_active {
            return false;
        }
        match self.transcription_settings {
            TranscriptionSettings::Disabled => false,
            TranscriptionSettings::Allow
            | TranscriptionSettings::TranscriptLabel
            | TranscriptionSettings::ShowTimeStamps => {
                self.transcription_progress = TranscriptionProgress::Reading;
                self.transcript_active = true;
                self.transcript_channel = self.transcript_channel + 1;
                true
            },
        }
    }

    /// Whether transcript segments are rendered with their time ranges.
    pub fn is_timestamped(&self) -> (r: bool)
        ensures
            r == (self.transcription_settings is ShowTimeStamps),
    {
        match self.transcription_settings {
            TranscriptionSettings::ShowTimeStamps => true,
            _ => false,
        }
    }

    /// Whether a transcription subscription is active — while it is, the
    /// host must keep the channel's receiving end and drain it once per
    /// frame.
    pub fn is_transcription_active(&self) -> (r: bool)
        ensures
            r == self.transcript_active,
    {
        self.transcript_active
    }
}

} // verus!
