//! The transport: the state machine that owns at most one playback or
//! recording session, serializes the caller's commands, and publishes
//! events back.
//!
//! The transport itself performs no audio I/O.  The caller opens files,
//! resolves devices and runs the real-time streams; this type decides,
//! for every command and for every once-per-second progress tick, the
//! next state and the events owed to the caller.  Each started session
//! carries a generation number; a tick from a superseded session is
//! discarded, so no event of a torn-down session leaks after its
//! replacement has started.

use vstd::prelude::*;

use crate::config::StreamConfig;
use crate::wav::spec_duration_secs;

verus! {

/// The four transport states.
#[derive(Clone, Copy, Debug, PartialEq, Eq, Structural)]
pub enum TransportState {
    Idle,
    Playing,
    Paused,
    Recording,
}

/// A loaded clip as the transport sees it: where it lives, how fast it
/// plays, and how many frames it holds.
#[derive(Clone, Debug, PartialEq, Eq)]
pub struct ClipInfo {
    pub path: String,
    pub sample_rate: u32,
    pub total_samples: u64,
}

/// A clip the transport can drive: a positive rate, and few enough
/// frames that the duration in seconds fits 32 bits.
pub open spec fn clip_wf(c: ClipInfo) -> bool {
    &&& 1 <= c.sample_rate
    &&& c.total_samples as nat <= 0xffff_ffff * (c.sample_rate as nat)
}

/// A clip's duration in whole seconds, rounded to nearest.
pub open spec fn clip_total_secs(c: ClipInfo) -> nat {
    spec_duration_secs(c.total_samples as nat, c.sample_rate as nat)
}

/// What the caller resolved for a recording before handing the command
/// to the transport.
#[derive(Clone, Copy, Debug, PartialEq, Eq, Structural)]
pub enum RecordSetupError {
    /// No input device was found.
    DeviceUnavailable,
    /// A device exists but no stream configuration could be negotiated.
    Unsupported,
}

/// Everything the transport publishes to its caller.
#[derive(Clone, Debug, PartialEq, Eq)]
pub enum Event {
    /// A clip was loaded; its total duration in seconds.
    Loaded(u32),
    /// Playback is running; the elapsed position in seconds.
    Playing(u32),
    /// Playback was paused at this position.
    Paused(u32),
    /// Recording is running; the elapsed duration in seconds.
    Recording(u32),
    /// Playback reached the end of the clip.
    Completed,
    /// A session was stopped; the path of the clip it worked on.
    Stopped(String),
    /// Play was commanded with no clip loaded.
    NoClipLoaded,
    /// The requested start position lies beyond the end of the clip.
    StartBeyondEnd,
    /// No input device resolves for recording.
    DeviceUnavailable,
    /// No stream configuration could be negotiated for recording.
    ConfigError,
}

/// The transport.  The fields are managed by the methods below; the
/// well-formedness predicate [`media_wf`] is what every method requires
/// and preserves.
pub struct Media {
    /// Current state of the state machine.
    pub state: TransportState,
    /// The loaded clip, if any.
    pub clip: Option<ClipInfo>,
    /// Elapsed seconds of the running session.
    pub elapsed_secs: u32,
    /// The resume position recorded by a pause.
    pub resume_secs: u32,
    /// Destination path of the most recent recording.
    pub rec_path: String,
    /// Sample rate of the running recording.
    pub rec_rate: u32,
    /// Generation of the most recently started session.  Ticks carry
    /// the generation of the session that produced them; a stale one is
    /// discarded.
    pub generation: u64,
}

/// The transport invariant.
pub open spec fn media_wf(m: Media) -> bool {
    &&& (m.clip is Some ==> clip_wf(m.clip->0))
    &&& (m.state == TransportState::Playing ==> m.clip is Some && m.elapsed_secs as nat
        <= clip_total_secs(m.clip->0))
    &&& (m.state == TransportState::Paused ==> m.clip is Some && m.resume_secs as nat
        <= clip_total_secs(m.clip->0))
    &&& (m.state == TransportState::Recording ==> 1 <= m.rec_rate)
}

/// A session start: the one place the generation advances.
pub open spec fn spec_start_playing(m: Media, from: u32) -> (Media, Seq<Event>) {
    (
        Media {
            state: TransportState::Playing,
            elapsed_secs: from,
            generation: (m.generation + 1) as u64,
            ..m
        },
        seq![Event::Playing(from)],
    )
}

/// Loading a clip: accepted when idle; in any other state the command
/// is dropped without an event, so that a running session is never
/// displaced except by an explicit play, record or stop command.
pub open spec fn spec_load(m: Media, c: ClipInfo) -> (Media, Seq<Event>) {
    if m.state == TransportState::Idle {
        (
            Media { clip: Some(c), elapsed_secs: 0, resume_secs: 0, ..m },
            seq![Event::Loaded(clip_total_secs(c) as u32)],
        )
    } else {
        (m, Seq::<Event>::empty())
    }
}

/// The play command: from idle it starts at the beginning, from paused
/// it resumes at the recorded position, and while already playing it
/// tears the session down and restarts from the beginning.  While
/// recording it is ignored.
pub open spec fn spec_play(m: Media) -> (Media, Seq<Event>) {
    match m.state {
        TransportState::Idle => {
            if m.clip is None {
                (m, seq![Event::NoClipLoaded])
            } else {
                spec_start_playing(m, 0)
            }
        },
        TransportState::Paused => spec_start_playing(m, m.resume_secs),
        TransportState::Playing => spec_start_playing(m, 0),
        TransportState::Recording => (m, Seq::<Event>::empty()),
    }
}

/// The play-at command: restarts from the given position after tearing
/// down any prior session, but a start beyond the end of the clip is
/// rejected with the transport left exactly as it was.
pub open spec fn spec_play_at(m: Media, pos_secs: u32) -> (Media, Seq<Event>) {
    if m.state == TransportState::Recording {
        (m, Seq::<Event>::empty())
    } else if m.clip is None {
        (m, seq![Event::NoClipLoaded])
    } else if pos_secs as nat * (m.clip->0.sample_rate as nat) > m.clip->0.total_samples as nat {
        (m, seq![Event::StartBeyondEnd])
    } else {
        spec_start_playing(m, pos_secs)
    }
}

/// The pause command: valid only while playing.  The position becomes
/// the resume point, clamped to the clip's duration — a deliberate
/// choice: recording a resume point past the end would make the later
/// resume start beyond the clip, so an out-of-range pause is treated
/// as a pause at the very end, and the clamped value is what the
/// `Paused` event reports.
pub open spec fn spec_pause_at(m: Media, pos_secs: u32) -> (Media, Seq<Event>) {
    if m.state == TransportState::Playing {
        let p = if pos_secs as nat <= clip_total_secs(m.clip->0) {
            pos_secs
        } else {
            clip_total_secs(m.clip->0) as u32
        };
        (
            Media { state: TransportState::Paused, resume_secs: p, elapsed_secs: 0, ..m },
            seq![Event::Paused(p)],
        )
    } else {
        (m, Seq::<Event>::empty())
    }
}

/// The record command: only from idle.  A failed device or
/// configuration resolution is reported synchronously and starts no
/// session.
pub open spec fn spec_record(
    m: Media,
    path: String,
    setup: Result<StreamConfig, RecordSetupError>,
) -> (Media, Seq<Event>) {
    if m.state != TransportState::Idle {
        (m, Seq::<Event>::empty())
    } else {
        match setup {
            Err(RecordSetupError::DeviceUnavailable) => (m, seq![Event::DeviceUnavailable]),
            Err(RecordSetupError::Unsupported) => (m, seq![Event::ConfigError]),
            Ok(cfg) => (
                Media {
                    state: TransportState::Recording,
                    elapsed_secs: 0,
                    rec_path: path,
                    rec_rate: cfg.sample_rate,
                    generation: (m.generation + 1) as u64,
                    ..m
                },
                seq![Event::Recording(0)],
            ),
        }
    }
}

/// The clip a finished recording leaves behind: the elapsed whole
/// seconds at the recorded rate.
pub open spec fn recorded_clip(m: Media) -> ClipInfo {
    ClipInfo {
        path: m.rec_path,
        sample_rate: m.rec_rate,
        total_samples: (m.elapsed_secs as nat * m.rec_rate as nat) as u64,
    }
}

/// The stop command: from idle a strict no-op, from playback back to
/// idle, and from recording back to idle with the produced clip loaded
/// and its total duration fixed to the elapsed time.
pub open spec fn spec_stop(m: Media) -> (Media, Seq<Event>) {
    match m.state {
        TransportState::Idle => (m, Seq::<Event>::empty()),
        TransportState::Recording => (
            Media {
                state: TransportState::Idle,
                clip: Some(recorded_clip(m)),
                elapsed_secs: 0,
                resume_secs: 0,
                ..m
            },
            seq![Event::Stopped(m.rec_path)],
        ),
        _ => (
            Media { state: TransportState::Idle, elapsed_secs: 0, resume_secs: 0, ..m },
            seq![Event::Stopped(m.clip->0.path)],
        ),
    }
}

/// One progress tick from the session with the given generation.  A
/// stale generation is discarded without effect.  A playback tick that
/// reaches the clip's duration completes the session; a recording tick
/// counts up, saturating.
pub open spec fn spec_tick(m: Media, session: u64) -> (Media, Seq<Event>) {
    if session != m.generation {
        (m, Seq::<Event>::empty())
    } else {
        match m.state {
            TransportState::Playing => {
                if m.elapsed_secs as nat + 1 >= clip_total_secs(m.clip->0) {
                    (
                        Media { state: TransportState::Idle, elapsed_secs: 0, ..m },
                        seq![Event::Completed],
                    )
                } else {
                    (
                        Media { elapsed_secs: (m.elapsed_secs + 1) as u32, ..m },
                        seq![Event::Playing((m.elapsed_secs + 1) as u32)],
                    )
                }
            },
            TransportState::Recording => {
                if m.elapsed_secs < u32::MAX {
                    (
                        Media { elapsed_secs: (m.elapsed_secs + 1) as u32, ..m },
                        seq![Event::Recording((m.elapsed_secs + 1) as u32)],
                    )
                } else {
                    (m, seq![Event::Recording(u32::MAX)])
                }
            },
            _ => (m, Seq::<Event>::empty()),
        }
    }
}


proof fn lemma_duration_fits(c: ClipInfo)
    requires
        clip_wf(c),
    ensures
        clip_total_secs(c) <= 0xffff_ffff,
{
    let s = c.total_samples as int;
    let rate = c.sample_rate as int;
    let h = rate / 2;
    vstd::arithmetic::div_mod::lemma_fundamental_div_mod_converse(
        0xffff_ffff * rate + h,
        rate,
        0xffff_ffff,
        h,
    );
    vstd::arithmetic::div_mod::lemma_div_is_ordered(s + h, 0xffff_ffff * rate + h, rate);
}

proof fn lemma_start_within(c: ClipInfo, pos: u32)
    requires
        clip_wf(c),
        pos as nat * (c.sample_rate as nat) <= c.total_samples as nat,
    ensures
        pos as nat <= clip_total_secs(c),
{
    let rate = c.sample_rate as int;
    let s = c.total_samples as int;
    vstd::arithmetic::div_mod::lemma_div_multiples_vanish(pos as int, rate);
    assert(rate * pos == pos * rate) by (nonlinear_arith);
    vstd::arithmetic::div_mod::lemma_div_is_ordered(pos as int * rate, s + rate / 2, rate);
}

/// The clip's duration in whole seconds, rounded to nearest.
fn clip_duration_secs(c: &ClipInfo) -> (r: u32)
    requires
        clip_wf(*c),
    ensures
        r as nat == clip_total_secs(*c),
{
    let s: u64 = c.total_samples;
    let rate: u64 = c.sample_rate as u64;
    proof {
        lemma_duration_fits(*c);
        vstd::arithmetic::div_mod::lemma_div_pos_is_pos((s + rate / 2) as int, rate as int);
    }
    ((s + rate / 2) / rate) as u32
}

impl Media {
    /// A fresh transport: idle, with no clip loaded.
    pub fn new() -> (r: Media)
        ensures
            media_wf(r),
            r.state == TransportState::Idle,
            r.clip is None,
            r.generation == 0,
    {
        Media {
            state: TransportState::Idle,
            clip: None,
            elapsed_secs: 0,
            resume_secs: 0,
            rec_path: String::new(),
            rec_rate: 0,
            generation: 0,
        }
    }

    /// Loads a clip while idle and reports its total duration.  In any
    /// other state the command is dropped: no event, no change — a
    /// caller that wants to replace the clip mid-session stops the
    /// session first.
    pub fn load(&mut self, clip: ClipInfo) -> (r: Vec<Event>)
        requires
            media_wf(*old(self)),
            clip_wf(clip),
        ensures
            media_wf(*final(self)),
            *final(self) == spec_load(*old(self), clip).0,
            r@ == spec_load(*old(self), clip).1,
    {
        let mut events: Vec<Event> = Vec::new();
        if matches!(self.state, TransportState::Idle) {
            let total = clip_duration_secs(&clip);
            proof {
                lemma_duration_fits(clip);
            }
            self.clip = Some(clip);
            self.elapsed_secs = 0;
            self.resume_secs = 0;
            events.push(Event::Loaded(total));
            assert(events@ =~= spec_load(*old(self), clip).1);
        } else {
            assert(events@ =~= spec_load(*old(self), clip).1);
        }
        events
    }

    /// The play command; see [`spec_play`] for the transition it makes.
    pub fn play(&mut self) -> (r: Vec<Event>)
        requires
            media_wf(*old(self)),
            old(self).generation < u64::MAX,
        ensures
            media_wf(*final(self)),
            *final(self) == spec_play(*old(self)).0,
            r@ == spec_play(*old(self)).1,
    {
        let mut events: Vec<Event> = Vec::new();
        match self.state {
            TransportState::Idle => {
                if self.clip.is_none() {
                    events.push(Event::NoClipLoaded);
                } else {
                    self.state = TransportState::Playing;
                    self.elapsed_secs = 0;
                    self.generation = self.generation + 1;
                    events.push(Event::Playing(0));
                }
            },
            TransportState::Paused => {
                self.state = TransportState::Playing;
                self.elapsed_secs = self.resume_secs;
                self.generation = self.generation + 1;
                events.push(Event::Playing(self.elapsed_secs));
            },
            TransportState::Playing => {
                self.elapsed_secs = 0;
                self.generation = self.generation + 1;
                events.push(Event::Playing(0));
            },
            TransportState::Recording => {},
        }
        assert(events@ =~= spec_play(*old(self)).1);
        events
    }

    /// The play-at command: always restarts from `pos_secs`, except
    /// that a position beyond the clip's end is rejected and the
    /// transport is left exactly as it was.
    pub fn play_at(&mut self, pos_secs: u32) -> (r: Vec<Event>)
        requires
            media_wf(*old(self)),
            old(self).generation < u64::MAX,
        ensures
            media_wf(*final(self)),
            *final(self) == spec_play_at(*old(self), pos_secs).0,
            r@ == spec_play_at(*old(self), pos_secs).1,
            old(self).state != TransportState::Recording && old(self).clip is Some && pos_secs
                as nat * (old(self).clip->0.sample_rate as nat) > old(
                self,
            ).clip->0.total_samples as nat ==> *final(self) == *old(self) && r@ =~= seq![
                Event::StartBeyondEnd,
            ],
    {
        let mut events: Vec<Event> = Vec::new();
        if matches!(self.state, TransportState::Recording) {
            assert(events@ =~= spec_play_at(*old(self), pos_secs).1);
            return events;
        }
        let (rate, total_samples) = match &self.clip {
            None => {
                events.push(Event::NoClipLoaded);
                assert(events@ =~= spec_play_at(*old(self), pos_secs).1);
                return events;
            },
            Some(c) => (c.sample_rate, c.total_samples),
        };
        proof {
            assert((pos_secs as int) * (rate as int) < 0x1_0000_0000_0000_0000) by (nonlinear_arith)
                requires
                    pos_secs <= 0xffff_ffff,
                    rate <= 0xffff_ffff,
            ;
        }
        if (pos_secs as u64) * (rate as u64) > total_samples {
            events.push(Event::StartBeyondEnd);
            assert(events@ =~= spec_play_at(*old(self), pos_secs).1);
            return events;
        }
        proof {
            lemma_start_within(old(self).clip->0, pos_secs);
        }
        self.state = TransportState::Playing;
        self.elapsed_secs = pos_secs;
        self.generation = self.generation + 1;
        events.push(Event::Playing(pos_secs));
        assert(events@ =~= spec_play_at(*old(self), pos_secs).1);
        events
    }

    /// The pause command: valid only while playing; the position
    /// becomes the resume point and the session is torn down.  A
    /// position past the end of the clip is clamped to its duration,
    /// and the clamped value is reported — see [`spec_pause_at`] for
    /// why the raw position is not kept.
    pub fn pause_at(&mut self, pos_secs: u32) -> (r: Vec<Event>)
        requires
            media_wf(*old(self)),
        ensures
            media_wf(*final(self)),
            *final(self) == spec_pause_at(*old(self), pos_secs).0,
            r@ == spec_pause_at(*old(self), pos_secs).1,
    {
        let mut events: Vec<Event> = Vec::new();
        if matches!(self.state, TransportState::Playing) {
            let total = match &self.clip {
                Some(c) => clip_duration_secs(c),
                None => 0,
            };
            let p = if pos_secs <= total {
                pos_secs
            } else {
                total
            };
            self.state = TransportState::Paused;
            self.resume_secs = p;
            self.elapsed_secs = 0;
            events.push(Event::Paused(p));
        }
        assert(events@ =~= spec_pause_at(*old(self), pos_secs).1);
        events
    }

    /// The record command: only from idle.  The caller resolves the
    /// input device and stream configuration first and hands in the
    /// outcome; a failure is reported synchronously and starts nothing.
    pub fn record(&mut self, path: String, setup: Result<StreamConfig, RecordSetupError>) -> (r:
        Vec<Event>)
        requires
            media_wf(*old(self)),
            old(self).generation < u64::MAX,
            setup is Ok ==> 1 <= setup->Ok_0.sample_rate,
        ensures
            media_wf(*final(self)),
            *final(self) == spec_record(*old(self), path, setup).0,
            r@ == spec_record(*old(self), path, setup).1,
            old(self).state == TransportState::Idle && setup == Err::<
                StreamConfig,
                RecordSetupError,
            >(RecordSetupError::DeviceUnavailable) ==> *final(self) == *old(self) && r@ =~= seq![
                Event::DeviceUnavailable,
            ],
    {
        let mut events: Vec<Event> = Vec::new();
        if !matches!(self.state, TransportState::Idle) {
            assert(events@ =~= spec_record(*old(self), path, setup).1);
            return events;
        }
        match setup {
            Err(RecordSetupError::DeviceUnavailable) => {
                events.push(Event::DeviceUnavailable);
            },
            Err(RecordSetupError::Unsupported) => {
                events.push(Event::ConfigError);
            },
            Ok(cfg) => {
                self.state = TransportState::Recording;
                self.elapsed_secs = 0;
                self.rec_path = path;
                self.rec_rate = cfg.sample_rate;
                self.generation = self.generation + 1;
                events.push(Event::Recording(0));
            },
        }
        assert(events@ =~= spec_record(*old(self), path, setup).1);
        events
    }

    /// The stop command.  From idle it is a strict no-op: no event, no
    /// error, no change.  From playback or pause the session is torn
    /// down; from recording the produced clip is finalized with its
    /// total duration fixed to the elapsed time, and loaded.
    pub fn stop(&mut self) -> (r: Vec<Event>)
        requires
            media_wf(*old(self)),
        ensures
            media_wf(*final(self)),
            *final(self) == spec_stop(*old(self)).0,
            r@ == spec_stop(*old(self)).1,
            old(self).state == TransportState::Idle ==> *final(self) == *old(self) && r@
                =~= Seq::<Event>::empty(),
    {
        let mut events: Vec<Event> = Vec::new();
        match self.state {
            TransportState::Idle => {},
            TransportState::Recording => {
                proof {
                    assert((self.elapsed_secs as int) * (self.rec_rate as int) <= 0xffff_ffff
                        * (self.rec_rate as int)) by (nonlinear_arith)
                        requires
                            self.elapsed_secs <= 0xffff_ffff,
                    ;
                    assert(0xffff_ffff * (self.rec_rate as int) < 0x1_0000_0000_0000_0000)
                        by (nonlinear_arith)
                        requires
                            self.rec_rate <= 0xffff_ffff,
                    ;
                }
                let samples: u64 = (self.elapsed_secs as u64) * (self.rec_rate as u64);
                let produced = ClipInfo {
                    path: self.rec_path.clone(),
                    sample_rate: self.rec_rate,
                    total_samples: samples,
                };
                let report = self.rec_path.clone();
                self.state = TransportState::Idle;
                self.clip = Some(produced);
                self.elapsed_secs = 0;
                self.resume_secs = 0;
                events.push(Event::Stopped(report));
            },
            _ => {
                let report = match &self.clip {
                    Some(c) => c.path.clone(),
                    None => String::new(),
                };
                self.state = TransportState::Idle;
                self.elapsed_secs = 0;
                self.resume_secs = 0;
                events.push(Event::Stopped(report));
            },
        }
        assert(events@ =~= spec_stop(*old(self)).1);
        events
    }

    /// One once-per-second progress tick from the session with the
    /// given generation.  A stale generation is discarded unheard.
    pub fn tick(&mut self, session: u64) -> (r: Vec<Event>)
        requires
            media_wf(*old(self)),
        ensures
            media_wf(*final(self)),
            *final(self) == spec_tick(*old(self), session).0,
            r@ == spec_tick(*old(self), session).1,
    {
        let mut events: Vec<Event> = Vec::new();
        if session != self.generation {
            assert(events@ =~= spec_tick(*old(self), session).1);
            return events;
        }
        match self.state {
            TransportState::Playing => {
                let total = match &self.clip {
                    Some(c) => clip_duration_secs(c),
                    None => 0,
                };
                if self.elapsed_secs as u64 + 1 >= total as u64 {
                    self.state = TransportState::Idle;
                    self.elapsed_secs = 0;
                    events.push(Event::Completed);
                } else {
                    self.elapsed_secs = self.elapsed_secs + 1;
                    events.push(Event::Playing(self.elapsed_secs));
                }
            },
            TransportState::Recording => {
                if self.elapsed_secs < u32::MAX {
                    self.elapsed_secs = self.elapsed_secs + 1;
                    events.push(Event::Recording(self.elapsed_secs));
                } else {
                    events.push(Event::Recording(u32::MAX));
                }
            },
            _ => {},
        }
        assert(events@ =~= spec_tick(*old(self), session).1);
        events
    }
}


/// Pausing at a position and then playing resumes from that position:
/// the play command reports `Playing` at the pause point, not at zero,
/// and the following tick continues from there.
pub proof fn lemma_pause_then_play_resumes(m: Media, pos_secs: u32)
    requires
        media_wf(m),
        m.state == TransportState::Playing,
        m.generation < u64::MAX,
        pos_secs as nat <= clip_total_secs(m.clip->0),
    ensures
        ({
            let (paused, _) = spec_pause_at(m, pos_secs);
            let (resumed, events) = spec_play(paused);
            &&& events == seq![Event::Playing(pos_secs)]
            &&& resumed.state == TransportState::Playing
            &&& resumed.elapsed_secs == pos_secs
            &&& (pos_secs as nat + 1 < clip_total_secs(m.clip->0) ==> spec_tick(
                resumed,
                resumed.generation,
            ).1 == seq![Event::Playing((pos_secs + 1) as u32)])
        }),
{
    lemma_duration_fits(m.clip->0);
}

/// A play command while already playing supersedes the running
/// session: the generation advances, the new session starts at the
/// beginning, and a tick of the old session is discarded without an
/// event and without any effect on the transport.
pub proof fn lemma_play_supersedes_session(m: Media)
    requires
        media_wf(m),
        m.state == TransportState::Playing,
        m.generation < u64::MAX,
    ensures
        ({
            let (restarted, events) = spec_play(m);
            &&& events == seq![Event::Playing(0)]
            &&& restarted.state == TransportState::Playing
            &&& restarted.generation != m.generation
            &&& spec_tick(restarted, m.generation) == (restarted, Seq::<Event>::empty())
        }),
{
}

/// A play-at command within the clip starts exactly there: the one
/// event is `Playing` at the requested position, the clip and its
/// total duration are unchanged, and the following tick either
/// advances one second or completes the clip when no whole second
/// remains.
pub proof fn lemma_play_at_starts_at_position(m: Media, pos_secs: u32)
    requires
        media_wf(m),
        m.state != TransportState::Recording,
        m.clip is Some,
        m.generation < u64::MAX,
        pos_secs as nat * (m.clip->0.sample_rate as nat) <= m.clip->0.total_samples as nat,
    ensures
        ({
            let (started, events) = spec_play_at(m, pos_secs);
            &&& events == seq![Event::Playing(pos_secs)]
            &&& started.state == TransportState::Playing
            &&& started.elapsed_secs == pos_secs
            &&& started.clip == m.clip
            &&& (pos_secs as nat + 1 < clip_total_secs(m.clip->0) ==> spec_tick(
                started,
                started.generation,
            ).1 == seq![Event::Playing((pos_secs + 1) as u32)])
            &&& (pos_secs as nat + 1 >= clip_total_secs(m.clip->0) ==> spec_tick(
                started,
                started.generation,
            ).1 == seq![Event::Completed] && spec_tick(started, started.generation).0.state
                == TransportState::Idle)
        }),
{
    lemma_start_within(m.clip->0, pos_secs);
    lemma_duration_fits(m.clip->0);
}

/// Stopping a recording after `n` whole seconds leaves a loaded clip
/// whose duration is exactly `n`: the finalized clip holds `n` seconds
/// of frames at the recorded rate, and whole seconds divide out.
pub proof fn lemma_recording_duration_exact(m: Media)
    requires
        media_wf(m),
        m.state == TransportState::Recording,
    ensures
        ({
            let (stopped, events) = spec_stop(m);
            &&& stopped.state == TransportState::Idle
            &&& stopped.clip is Some
            &&& clip_total_secs(stopped.clip->0) == m.elapsed_secs
            &&& events == seq![Event::Stopped(m.rec_path)]
        }),
{
    let c = recorded_clip(m);
    assert((m.elapsed_secs as int) * (m.rec_rate as int) <= 0xffff_ffff * (m.rec_rate as int)
        && (m.elapsed_secs as int) * (m.rec_rate as int) < 0x1_0000_0000_0000_0000)
        by (nonlinear_arith)
        requires
            m.elapsed_secs <= 0xffff_ffff,
            m.rec_rate <= 0xffff_ffff,
    ;
    assert(c.total_samples as nat == m.elapsed_secs as nat * m.rec_rate as nat);
    crate::wav::lemma_whole_second_duration(m.elapsed_secs as nat, m.rec_rate as nat);
}

} // verus!
