//! One media session: what is read of it, what it is asked to do, and the life of its worker.

use crate::command::{Command, CommandData};
use crate::number::{low_word, truncated};
use crate::state::{NowPlaying, NowPlayingView, Rate};
use vstd::prelude::*;

verus! {

/// Whether a session plays.
#[derive(Debug, Clone, Copy, PartialEq, Eq, Structural)]
pub enum SessionStatus {
    Closed,
    Opened,
    Changing,
    Stopped,
    Playing,
    Paused,
    /// A status that is not known by name.
    Unknown(i32),
}

/// What a session tells of the current track; nothing where one of the readings failed.
#[derive(Debug)]
pub struct MediaReading {
    pub title: Option<String>,
    pub album_title: Option<String>,
    pub artist: Option<String>,
}

/// Which controls a session offers; nothing where one of the readings failed.
#[derive(Debug)]
pub struct ControlsReading {
    pub next_enabled: Option<bool>,
    pub fast_forward_enabled: Option<bool>,
}

/// How a session plays; nothing where one of the readings failed.
#[derive(Debug)]
pub struct PlaybackReading {
    pub status: Option<SessionStatus>,
    pub rate: Option<Rate>,
    pub shuffle_active: Option<bool>,
    pub controls: Option<ControlsReading>,
}

/// Where a session is in the current track; nothing where one of the readings failed.
#[derive(Debug)]
pub struct TimelineReading {
    pub end_time: Option<i64>,
    pub position: Option<i64>,
}

/// All that is read of a session; nothing where one of the readings failed as a whole.
#[derive(Debug)]
pub struct SessionReading {
    pub media: Option<MediaReading>,
    pub playback: Option<PlaybackReading>,
    pub timeline: Option<TimelineReading>,
}

/// The text, or no characters where it could not be read.
pub open spec fn text_or_blank(text: Option<String>) -> Seq<char> {
    match text {
        Some(text) => text@,
        None => Seq::empty(),
    }
}

/// The text, or no characters where it could not be read.
fn or_blank(text: Option<String>) -> (res: String)
    ensures
        res@ == text_or_blank(text),
{
    match text {
        Some(text) => text,
        None => String::new(),
    }
}

/// What was read, or what was known before where nothing could be read.
pub open spec fn newer<T>(read: Option<T>, known: T) -> T {
    match read {
        Some(value) => value,
        None => known,
    }
}

/// The state after a reading of the track. Where the track could be read at all, a missing title
/// or artist is blank, and a missing album is none.
pub open spec fn after_media(state: NowPlayingView, media: Option<MediaReading>) -> NowPlayingView {
    match media {
        Some(media) => NowPlayingView {
            track_name: text_or_blank(media.title),
            album: media.album_title.deep_view(),
            artist: Some(seq![text_or_blank(media.artist)]),
            ..state
        },
        None => state,
    }
}

/// The state after a reading of the controls.
pub open spec fn after_controls(
    state: NowPlayingView,
    controls: Option<ControlsReading>,
) -> NowPlayingView {
    match controls {
        Some(controls) => NowPlayingView {
            can_skip: newer(controls.next_enabled, state.can_skip),
            can_fast_forward: newer(controls.fast_forward_enabled, state.can_fast_forward),
            ..state
        },
        None => state,
    }
}

/// The state after a reading of the playback.
pub open spec fn after_playback(
    state: NowPlayingView,
    playback: Option<PlaybackReading>,
) -> NowPlayingView {
    match playback {
        Some(playback) => after_controls(
            NowPlayingView {
                is_playing: match playback.status {
                    Some(status) => status == SessionStatus::Playing,
                    None => state.is_playing,
                },
                playback_rate: match playback.rate {
                    Some(rate) => Some(rate),
                    None => state.playback_rate,
                },
                shuffle_state: match playback.shuffle_active {
                    Some(shuffle) => Some(shuffle),
                    None => state.shuffle_state,
                },
                ..state
            },
            playback.controls,
        ),
        None => state,
    }
}

/// The state after a reading of the timeline.
pub open spec fn after_timeline(
    state: NowPlayingView,
    timeline: Option<TimelineReading>,
) -> NowPlayingView {
    match timeline {
        Some(timeline) => NowPlayingView {
            track_duration: match timeline.end_time {
                Some(end_time) => Some(low_word(end_time)),
                None => state.track_duration,
            },
            track_progress: match timeline.position {
                Some(position) => Some(low_word(position)),
                None => state.track_progress,
            },
            ..state
        },
        None => state,
    }
}

/// The state of the session `session_id` after a reading: what could be read replaces what was
/// known, and what could not be read stays as it was.
pub open spec fn state_after(
    state: NowPlayingView,
    session_id: Seq<char>,
    reading: SessionReading,
) -> NowPlayingView {
    NowPlayingView {
        can_change_volume: false,
        can_set_output: false,
        can_like: false,
        device_id: Some(session_id),
        ..after_timeline(
            after_playback(after_media(state, reading.media), reading.playback),
            reading.timeline,
        )
    }
}

/// A call of the session interface.
#[derive(Debug, Clone, Copy, PartialEq, Eq, Structural)]
pub enum SessionCall {
    Play,
    Pause,
    TogglePlayPause,
    SkipNext,
    SkipPrevious,
    /// Go to a position, given in units of a hundred nanoseconds from the start of the track.
    ChangePlaybackPosition(i64),
    ChangeShuffleActive(bool),
}

/// The call that carries out a command; the volume cannot be set through a session.
pub open spec fn session_call(data: CommandData) -> Option<SessionCall> {
    match data {
        CommandData::Play => Some(SessionCall::Play),
        CommandData::Pause => Some(SessionCall::Pause),
        CommandData::PlayPause => Some(SessionCall::TogglePlayPause),
        CommandData::NextTrack => Some(SessionCall::SkipNext),
        CommandData::PreviousTrack => Some(SessionCall::SkipPrevious),
        CommandData::SeekTo(position_ms) => Some(
            SessionCall::ChangePlaybackPosition((position_ms * 10_000) as i64),
        ),
        CommandData::SetVolume(_) => None,
        CommandData::SetShuffle(shuffle) => Some(SessionCall::ChangeShuffleActive(shuffle)),
    }
}

/// How far the worker of a session has come, and the tokens of the handlers that it has added.
#[derive(Debug, Clone, Copy, PartialEq, Eq, Structural)]
pub enum SessionPhase {
    /// The first reading is under way.
    Starting,
    /// The handler for changes of the track is being added.
    AddingMediaHandler,
    /// The handler for changes of the playback is being added.
    AddingPlaybackHandler { media: i64 },
    /// Both handlers are in place.
    Running { media: i64, playback: i64 },
    /// The worker has come to its end.
    Ended,
}

/// What the worker of a session is told.
#[derive(Debug)]
pub enum SessionEvent {
    /// The session has been read.
    Read(SessionReading),
    /// A handler has been added, and is removed with this token.
    HandlerAdded { token: i64 },
    /// A handler could not be added.
    HandlerFailed,
    /// A handler has signalled a change.
    Signalled,
    Commanded(Command),
    Cancelled,
}

/// What the worker of a session does next.
#[derive(Debug, Clone, Copy, PartialEq, Eq, Structural)]
pub enum SessionAction {
    /// Read the session.
    Read,
    /// Add the handler for changes of the track.
    AddMediaHandler,
    /// Add the handler for changes of the playback.
    AddPlaybackHandler,
    /// Make a call.
    Call(SessionCall),
    /// Wait for the next event.
    Wait,
    /// Remove the handler for changes of the track with the token `media`, and the one for changes
    /// of the playback with the token `playback`, even where one of them cannot be removed; then
    /// come to an end.
    RemoveHandlers { media: i64, playback: i64 },
    /// Come to an end.
    Stop,
}

/// What an event leads to: perhaps a state to report, and then an action.
#[derive(Debug)]
pub struct SessionStep {
    pub report: Option<NowPlaying>,
    pub action: SessionAction,
}

/// What is known of one session, and how far its worker has come.
#[derive(Debug)]
pub struct PlayerSession {
    pub session_id: String,
    pub state: NowPlaying,
    pub phase: SessionPhase,
}

/// What is known of one session, with its name as a sequence of characters.
pub struct SessionView {
    pub session_id: Seq<char>,
    pub state: NowPlayingView,
    pub phase: SessionPhase,
}

impl View for PlayerSession {
    type V = SessionView;

    open spec fn view(&self) -> SessionView {
        SessionView { session_id: self.session_id@, state: self.state@, phase: self.phase }
    }
}

impl SessionView {
    /// A session of which nothing has been read yet.
    pub open spec fn fresh(session_id: Seq<char>) -> SessionView {
        SessionView { session_id, state: NowPlayingView::blank(), phase: SessionPhase::Starting }
    }

    /// A reading is expected now.
    pub open spec fn reads(self) -> bool {
        self.phase is Starting || self.phase is Running
    }

    /// The phase that follows an event; an event that the phase does not await changes nothing.
    pub open spec fn phase_after(self, event: SessionEvent) -> SessionPhase {
        match (self.phase, event) {
            (SessionPhase::Starting, SessionEvent::Read(_)) => SessionPhase::AddingMediaHandler,
            (
                SessionPhase::AddingMediaHandler,
                SessionEvent::HandlerAdded { token },
            ) => SessionPhase::AddingPlaybackHandler { media: token },
            (SessionPhase::AddingMediaHandler, SessionEvent::HandlerFailed) => SessionPhase::Ended,
            (
                SessionPhase::AddingPlaybackHandler { media },
                SessionEvent::HandlerAdded { token },
            ) => SessionPhase::Running { media, playback: token },
            (
                SessionPhase::AddingPlaybackHandler { .. },
                SessionEvent::HandlerFailed,
            ) => SessionPhase::Ended,
            (SessionPhase::Running { .. }, SessionEvent::Cancelled) => SessionPhase::Ended,
            (phase, _) => phase,
        }
    }

    /// The session after an event.
    pub open spec fn after(self, event: SessionEvent) -> SessionView {
        SessionView {
            session_id: self.session_id,
            state: match event {
                SessionEvent::Read(reading) if self.reads() => state_after(
                    self.state,
                    self.session_id,
                    reading,
                ),
                _ => self.state,
            },
            phase: self.phase_after(event),
        }
    }

    /// The action that an event leads to.
    pub open spec fn action_on(self, event: SessionEvent) -> SessionAction {
        match (self.phase, event) {
            (SessionPhase::Starting, SessionEvent::Read(_)) => SessionAction::AddMediaHandler,
            (
                SessionPhase::AddingMediaHandler,
                SessionEvent::HandlerAdded { .. },
            ) => SessionAction::AddPlaybackHandler,
            (SessionPhase::AddingMediaHandler, SessionEvent::HandlerFailed) => SessionAction::Stop,
            (
                SessionPhase::AddingPlaybackHandler { .. },
                SessionEvent::HandlerFailed,
            ) => SessionAction::Stop,
            (SessionPhase::Running { .. }, SessionEvent::Signalled) => SessionAction::Read,
            (SessionPhase::Running { .. }, SessionEvent::Commanded(command)) => match session_call(
                command.data,
            ) {
                Some(call) => SessionAction::Call(call),
                None => SessionAction::Wait,
            },
            (
                SessionPhase::Running { media, playback },
                SessionEvent::Cancelled,
            ) => SessionAction::RemoveHandlers { media, playback },
            _ => SessionAction::Wait,
        }
    }

    /// The state is reported on an event: after every reading that is expected.
    pub open spec fn reports_on(self, event: SessionEvent) -> bool {
        event is Read && self.reads()
    }
}

impl PlayerSession {
    /// A session of which nothing has been read yet; its worker begins by reading it.
    pub fn new(session_id: String) -> (res: PlayerSession)
        ensures
            res@ == SessionView::fresh(session_id@),
    {
        PlayerSession { session_id, state: NowPlaying::default(), phase: SessionPhase::Starting }
    }

    /// What the worker does on an event.
    pub fn on_event(&mut self, event: SessionEvent) -> (res: SessionStep)
        ensures
            final(self)@ == old(self)@.after(event),
            res.action == old(self)@.action_on(event),
            match res.report {
                Some(state) => old(self)@.reports_on(event) && state@ == final(self)@.state,
                None => !old(self)@.reports_on(event),
            },
    {
        match event {
            SessionEvent::Read(reading) => {
                match self.phase {
                    SessionPhase::Starting => {
                        self.fetch_state(reading);
                        self.phase = SessionPhase::AddingMediaHandler;
                        SessionStep {
                            report: Some(self.state.clone()),
                            action: SessionAction::AddMediaHandler,
                        }
                    },
                    SessionPhase::Running { .. } => {
                        self.fetch_state(reading);
                        SessionStep {
                            report: Some(self.state.clone()),
                            action: SessionAction::Wait,
                        }
                    },
                    _ => SessionStep { report: None, action: SessionAction::Wait },
                }
            },
            SessionEvent::HandlerAdded { token } => {
                match self.phase {
                    SessionPhase::AddingMediaHandler => {
                        self.phase = SessionPhase::AddingPlaybackHandler { media: token };
                        SessionStep { report: None, action: SessionAction::AddPlaybackHandler }
                    },
                    SessionPhase::AddingPlaybackHandler { media } => {
                        self.phase = SessionPhase::Running { media, playback: token };
                        SessionStep { report: None, action: SessionAction::Wait }
                    },
                    _ => SessionStep { report: None, action: SessionAction::Wait },
                }
            },
            SessionEvent::HandlerFailed => {
                match self.phase {
                    SessionPhase::AddingMediaHandler
                    | SessionPhase::AddingPlaybackHandler { .. } => {
                        self.phase = SessionPhase::Ended;
                        SessionStep { report: None, action: SessionAction::Stop }
                    },
                    _ => SessionStep { report: None, action: SessionAction::Wait },
                }
            },
            SessionEvent::Signalled => {
                match self.phase {
                    SessionPhase::Running { .. } => SessionStep {
                        report: None,
                        action: SessionAction::Read,
                    },
                    _ => SessionStep { report: None, action: SessionAction::Wait },
                }
            },
            SessionEvent::Commanded(command) => {
                match self.phase {
                    SessionPhase::Running { .. } => {
                        match self.handle_command(command) {
                            Some(call) => SessionStep {
                                report: None,
                                action: SessionAction::Call(call),
                            },
                            None => SessionStep { report: None, action: SessionAction::Wait },
                        }
                    },
                    _ => SessionStep { report: None, action: SessionAction::Wait },
                }
            },
            SessionEvent::Cancelled => {
                match self.phase {
                    SessionPhase::Running { media, playback } => {
                        self.phase = SessionPhase::Ended;
                        SessionStep {
                            report: None,
                            action: SessionAction::RemoveHandlers { media, playback },
                        }
                    },
                    _ => SessionStep { report: None, action: SessionAction::Wait },
                }
            },
        }
    }

    /// The call that carries out a command, if there is one.
    pub fn handle_command(&self, command: Command) -> (res: Option<SessionCall>)
        ensures
            res == session_call(command.data),
    {
        match command.data {
            CommandData::Play => Some(SessionCall::Play),
            CommandData::Pause => Some(SessionCall::Pause),
            CommandData::PlayPause => Some(SessionCall::TogglePlayPause),
            CommandData::NextTrack => Some(SessionCall::SkipNext),
            CommandData::PreviousTrack => Some(SessionCall::SkipPrevious),
            CommandData::SeekTo(position_ms) => Some(
                SessionCall::ChangePlaybackPosition(position_ms as i64 * 10_000),
            ),
            CommandData::SetVolume(_) => None,
            CommandData::SetShuffle(shuffle) => Some(SessionCall::ChangeShuffleActive(shuffle)),
        }
    }

    /// Takes in a reading of the session.
    pub fn fetch_state(&mut self, reading: SessionReading)
        ensures
            final(self)@ == (SessionView {
                state: state_after(old(self)@.state, old(self)@.session_id, reading),
                ..old(self)@
            }),
    {
        self.take_media(reading.media);
        self.take_playback(reading.playback);
        self.state.can_change_volume = false;
        self.state.can_set_output = false;
        self.state.can_like = false;
        self.take_timeline(reading.timeline);
        self.state.device_id = Some(self.session_id.clone());
    }

    fn take_media(&mut self, media: Option<MediaReading>)
        ensures
            final(self)@ == (SessionView {
                state: after_media(old(self)@.state, media),
                ..old(self)@
            }),
    {
        if let Some(media) = media {
            let name = or_blank(media.artist);
            let ghost spelled = name@;
            let mut artist: Vec<String> = Vec::new();
            artist.push(name);
            assert(artist.deep_view() =~= seq![spelled]);
            self.state.track_name = or_blank(media.title);
            self.state.album = media.album_title;
            self.state.artist = Some(artist);
        }
    }

    fn take_playback(&mut self, playback: Option<PlaybackReading>)
        ensures
            final(self)@ == (SessionView {
                state: after_playback(old(self)@.state, playback),
                ..old(self)@
            }),
    {
        if let Some(playback) = playback {
            if let Some(status) = playback.status {
                self.state.is_playing = status == SessionStatus::Playing;
            }
            if let Some(rate) = playback.rate {
                self.state.playback_rate = Some(rate);
            }
            if let Some(shuffle) = playback.shuffle_active {
                self.state.shuffle_state = Some(shuffle);
            }
            self.take_controls(playback.controls);
        }
    }

    fn take_controls(&mut self, controls: Option<ControlsReading>)
        ensures
            final(self)@ == (SessionView {
                state: after_controls(old(self)@.state, controls),
                ..old(self)@
            }),
    {
        if let Some(controls) = controls {
            if let Some(can_skip) = controls.next_enabled {
                self.state.can_skip = can_skip;
            }
            if let Some(can_fast_forward) = controls.fast_forward_enabled {
                self.state.can_fast_forward = can_fast_forward;
            }
        }
    }

    fn take_timeline(&mut self, timeline: Option<TimelineReading>)
        ensures
            final(self)@ == (SessionView {
                state: after_timeline(old(self)@.state, timeline),
                ..old(self)@
            }),
    {
        if let Some(timeline) = timeline {
            if let Some(end_time) = timeline.end_time {
                self.state.track_duration = Some(truncated(end_time));
            }
            if let Some(position) = timeline.position {
                self.state.track_progress = Some(truncated(position));
            }
        }
    }
}

} // verus!
