//! One player on the session bus: what is read of it, and what it is asked to do.

use crate::command::{Command, CommandData};
use crate::number::{low_word, truncated};
use crate::registry::pair_views;
use crate::state::{NowPlaying, NowPlayingView, Rate};
use crate::text::{copy_text, same_text};
use vstd::prelude::*;

verus! {

/// Whether a player plays.
#[derive(Debug, Clone, Copy, PartialEq, Eq, Structural)]
pub enum PlaybackStatus {
    Playing,
    Paused,
    Stopped,
}

impl PlaybackStatus {
    /// The status that a word on the bus stands for.
    pub open spec fn of(word: Seq<char>) -> Option<PlaybackStatus> {
        if word == "Playing"@ {
            Some(PlaybackStatus::Playing)
        } else if word == "Paused"@ {
            Some(PlaybackStatus::Paused)
        } else if word == "Stopped"@ {
            Some(PlaybackStatus::Stopped)
        } else {
            None
        }
    }

    /// Reads a status from its word.
    pub fn parse(word: &str) -> (res: Option<PlaybackStatus>)
        ensures
            res == PlaybackStatus::of(word@),
    {
        if same_text(word, "Playing") {
            Some(PlaybackStatus::Playing)
        } else if same_text(word, "Paused") {
            Some(PlaybackStatus::Paused)
        } else if same_text(word, "Stopped") {
            Some(PlaybackStatus::Stopped)
        } else {
            None
        }
    }
}

/// What a player repeats.
#[derive(Debug, Clone, Copy, PartialEq, Eq, Structural)]
pub enum LoopStatus {
    Off,
    Track,
    Playlist,
}

impl LoopStatus {
    /// The status that a word on the bus stands for.
    pub open spec fn of(word: Seq<char>) -> Option<LoopStatus> {
        if word == "None"@ {
            Some(LoopStatus::Off)
        } else if word == "Track"@ {
            Some(LoopStatus::Track)
        } else if word == "Playlist"@ {
            Some(LoopStatus::Playlist)
        } else {
            None
        }
    }

    /// The word that callers are told.
    pub open spec fn repeat_word(self) -> Seq<char> {
        match self {
            LoopStatus::Off => "off"@,
            LoopStatus::Track => "track"@,
            LoopStatus::Playlist => "all"@,
        }
    }

    /// Reads a status from its word.
    pub fn parse(word: &str) -> (res: Option<LoopStatus>)
        ensures
            res == LoopStatus::of(word@),
    {
        if same_text(word, "None") {
            Some(LoopStatus::Off)
        } else if same_text(word, "Track") {
            Some(LoopStatus::Track)
        } else if same_text(word, "Playlist") {
            Some(LoopStatus::Playlist)
        } else {
            None
        }
    }
}

/// What a player tells of the current track.
#[derive(Debug)]
pub struct Metadata {
    pub track_id: String,
    pub title: Option<String>,
    pub length: Option<i64>,
    pub album: Option<String>,
    pub artist: Option<Vec<String>>,
    pub art_url: Option<String>,
    pub url: Option<String>,
}

/// The value of a property, as it comes over the bus.
#[derive(Debug)]
pub enum PropertyValue {
    Text(String),
    Boolean(bool),
    Integer(i64),
    /// A double-precision number, and a hundred times that number cut off to the range of a byte.
    Number { number: Rate, percent: u8 },
    Dictionary(Metadata),
    Other,
}

impl PropertyValue {
    pub open spec fn as_status(self) -> Option<PlaybackStatus> {
        match self {
            PropertyValue::Text(word) => PlaybackStatus::of(word@),
            _ => None,
        }
    }

    pub open spec fn as_loop_status(self) -> Option<LoopStatus> {
        match self {
            PropertyValue::Text(word) => LoopStatus::of(word@),
            _ => None,
        }
    }

    pub open spec fn as_boolean(self) -> Option<bool> {
        match self {
            PropertyValue::Boolean(value) => Some(value),
            _ => None,
        }
    }

    pub open spec fn as_integer(self) -> Option<i64> {
        match self {
            PropertyValue::Integer(value) => Some(value),
            _ => None,
        }
    }

    pub open spec fn as_number(self) -> Option<Rate> {
        match self {
            PropertyValue::Number { number, .. } => Some(number),
            _ => None,
        }
    }

    pub open spec fn as_percent(self) -> Option<u8> {
        match self {
            PropertyValue::Number { percent, .. } => Some(percent),
            _ => None,
        }
    }

    pub open spec fn as_metadata(self) -> Option<Metadata> {
        match self {
            PropertyValue::Dictionary(metadata) => Some(metadata),
            _ => None,
        }
    }
}

/// What was read of one property; nothing where the reading failed.
#[derive(Debug)]
pub enum Reading {
    PlaybackStatus(Option<PlaybackStatus>),
    LoopStatus(Option<LoopStatus>),
    Rate(Option<Rate>),
    Shuffle(Option<bool>),
    Metadata(Option<Metadata>),
    Volume(Option<u8>),
    Position(Option<i64>),
    CanGoNext(Option<bool>),
    CanSeek(Option<bool>),
}

impl Reading {
    /// What a change of the property `key` to `value` is a reading of; nothing where the
    /// property is none that matters here.
    pub open spec fn of(key: Seq<char>, value: PropertyValue) -> Option<Reading> {
        if key == "PlaybackStatus"@ {
            Some(Reading::PlaybackStatus(value.as_status()))
        } else if key == "LoopStatus"@ {
            Some(Reading::LoopStatus(value.as_loop_status()))
        } else if key == "Rate"@ {
            Some(Reading::Rate(value.as_number()))
        } else if key == "Shuffle"@ {
            Some(Reading::Shuffle(value.as_boolean()))
        } else if key == "Metadata"@ {
            Some(Reading::Metadata(value.as_metadata()))
        } else if key == "Volume"@ {
            Some(Reading::Volume(value.as_percent()))
        } else if key == "Position"@ {
            Some(Reading::Position(value.as_integer()))
        } else if key == "CanGoNext"@ {
            Some(Reading::CanGoNext(value.as_boolean()))
        } else if key == "CanSeek"@ {
            Some(Reading::CanSeek(value.as_boolean()))
        } else {
            None
        }
    }

    /// Reads a changed property.
    pub fn from_change(key: &str, value: PropertyValue) -> (res: Option<Reading>)
        ensures
            res == Reading::of(key@, value),
    {
        if same_text(key, "PlaybackStatus") {
            Some(Reading::PlaybackStatus(match value {
                PropertyValue::Text(word) => PlaybackStatus::parse(word.as_str()),
                _ => None,
            }))
        } else if same_text(key, "LoopStatus") {
            Some(Reading::LoopStatus(match value {
                PropertyValue::Text(word) => LoopStatus::parse(word.as_str()),
                _ => None,
            }))
        } else if same_text(key, "Rate") {
            Some(Reading::Rate(match value {
                PropertyValue::Number { number, .. } => Some(number),
                _ => None,
            }))
        } else if same_text(key, "Shuffle") {
            Some(Reading::Shuffle(match value {
                PropertyValue::Boolean(flag) => Some(flag),
                _ => None,
            }))
        } else if same_text(key, "Metadata") {
            Some(Reading::Metadata(match value {
                PropertyValue::Dictionary(metadata) => Some(metadata),
                _ => None,
            }))
        } else if same_text(key, "Volume") {
            Some(Reading::Volume(match value {
                PropertyValue::Number { percent, .. } => Some(percent),
                _ => None,
            }))
        } else if same_text(key, "Position") {
            Some(Reading::Position(match value {
                PropertyValue::Integer(number) => Some(number),
                _ => None,
            }))
        } else if same_text(key, "CanGoNext") {
            Some(Reading::CanGoNext(match value {
                PropertyValue::Boolean(flag) => Some(flag),
                _ => None,
            }))
        } else if same_text(key, "CanSeek") {
            Some(Reading::CanSeek(match value {
                PropertyValue::Boolean(flag) => Some(flag),
                _ => None,
            }))
        } else {
            None
        }
    }
}

/// What was read of every property, nothing where the reading of one failed.
#[derive(Debug)]
pub struct PropertyReads {
    pub playback_status: Option<PlaybackStatus>,
    pub loop_status: Option<LoopStatus>,
    pub rate: Option<Rate>,
    pub shuffle: Option<bool>,
    pub metadata: Option<Metadata>,
    pub volume: Option<u8>,
    pub position: Option<i64>,
    pub can_go_next: Option<bool>,
    pub can_seek: Option<bool>,
}

/// A call of the player interface.
#[derive(Debug, PartialEq, Eq)]
pub enum PlayerCall {
    Play,
    Pause,
    PlayPause,
    Next,
    Previous,
    /// Go to a position, given in microseconds from the start of the track. The call names the
    /// track that the position belongs to, if one is known; else it is the track that the player
    /// is at.
    SetPosition { track: Option<String>, position_us: i64 },
    /// A percentage of the full volume.
    SetVolume(u8),
    SetShuffle(bool),
}

/// The call that carries out a command, where `track` is the current track, if it is known.
pub open spec fn player_call(data: CommandData, track: Option<String>) -> PlayerCall {
    match data {
        CommandData::Play => PlayerCall::Play,
        CommandData::Pause => PlayerCall::Pause,
        CommandData::PlayPause => PlayerCall::PlayPause,
        CommandData::NextTrack => PlayerCall::Next,
        CommandData::PreviousTrack => PlayerCall::Previous,
        CommandData::SeekTo(position_ms) => PlayerCall::SetPosition {
            track,
            position_us: (position_ms * 1000) as i64,
        },
        CommandData::SetVolume(volume) => PlayerCall::SetVolume(volume),
        CommandData::SetShuffle(shuffle) => PlayerCall::SetShuffle(shuffle),
    }
}

/// A reported volume as a percentage: one that is above the full volume counts as full.
pub open spec fn within_percentage(percent: u8) -> u8 {
    if percent <= 100 {
        percent
    } else {
        100
    }
}

/// What is known of one player on the bus.
#[derive(Debug)]
pub struct PlayerConnection {
    /// The player's name on the bus.
    pub name: String,
    pub state: NowPlaying,
    /// The worker has come to its end.
    pub ended: bool,
}

/// What is known of one player, with its name as a sequence of characters.
pub struct ConnectionView {
    pub name: Seq<char>,
    pub state: NowPlayingView,
    pub ended: bool,
}

impl View for PlayerConnection {
    type V = ConnectionView;

    open spec fn view(&self) -> ConnectionView {
        ConnectionView { name: self.name@, state: self.state@, ended: self.ended }
    }
}

impl ConnectionView {
    /// A connection of which nothing has been read yet.
    pub open spec fn fresh(name: Seq<char>) -> ConnectionView {
        ConnectionView { name, state: NowPlayingView::blank(), ended: false }
    }

    pub open spec fn with_state(self, state: NowPlayingView) -> ConnectionView {
        ConnectionView { state, ..self }
    }

    /// The state that the metadata of a new track leads to.
    pub open spec fn described(self, metadata: Metadata) -> NowPlayingView {
        NowPlayingView {
            id: Some(metadata.track_id@),
            device_id: Some(self.name),
            track_name: match metadata.title {
                Some(title) => title@,
                None => Seq::empty(),
            },
            track_duration: match metadata.length {
                Some(length) => Some(low_word(length)),
                None => None,
            },
            album: metadata.album.deep_view(),
            artist: metadata.artist.deep_view(),
            thumbnail: metadata.art_url.deep_view(),
            url: metadata.url.deep_view(),
            ..self.state
        }
    }

    /// The connection after a reading: a failed reading changes nothing.
    pub open spec fn applied(self, reading: Reading) -> ConnectionView {
        let state = self.state;
        self.with_state(
            match reading {
                Reading::PlaybackStatus(Some(status)) => NowPlayingView {
                    is_playing: status == PlaybackStatus::Playing,
                    ..state
                },
                Reading::LoopStatus(Some(status)) => NowPlayingView {
                    repeat_state: Some(status.repeat_word()),
                    ..state
                },
                Reading::Rate(Some(rate)) => NowPlayingView { playback_rate: Some(rate), ..state },
                Reading::Shuffle(Some(shuffle)) => NowPlayingView {
                    shuffle_state: Some(shuffle),
                    ..state
                },
                Reading::Metadata(Some(metadata)) => self.described(metadata),
                Reading::Volume(Some(percent)) => NowPlayingView {
                    volume: within_percentage(percent),
                    ..state
                },
                Reading::Position(Some(position)) => NowPlayingView {
                    track_progress: Some(low_word(position)),
                    ..state
                },
                Reading::CanGoNext(Some(can)) => NowPlayingView { can_skip: can, ..state },
                Reading::CanSeek(Some(can)) => NowPlayingView { can_fast_forward: can, ..state },
                _ => state,
            },
        )
    }

    /// The connection after the property `key` has changed to `value`.
    pub open spec fn changed(self, key: Seq<char>, value: PropertyValue) -> ConnectionView {
        match Reading::of(key, value) {
            Some(reading) => self.applied(reading),
            None => self,
        }
    }

    /// The connection after a list of changes, the first one first.
    pub open spec fn changed_all(self, changes: Seq<(Seq<char>, PropertyValue)>) -> ConnectionView
        decreases changes.len(),
    {
        if changes.len() == 0 {
            self
        } else {
            self.changed_all(changes.drop_last()).changed(changes.last().0, changes.last().1)
        }
    }

    /// The connection after every property has been read.
    pub open spec fn fetched(self, reads: PropertyReads) -> ConnectionView {
        self.applied(Reading::PlaybackStatus(reads.playback_status)).applied(
            Reading::LoopStatus(reads.loop_status),
        ).applied(Reading::Rate(reads.rate)).applied(Reading::Shuffle(reads.shuffle)).applied(
            Reading::Metadata(reads.metadata),
        ).applied(Reading::Volume(reads.volume)).applied(Reading::Position(reads.position)).applied(
            Reading::CanGoNext(reads.can_go_next),
        ).applied(Reading::CanSeek(reads.can_seek))
    }

    /// The connection after an event; none has an effect once the worker has ended.
    pub open spec fn after(self, event: ConnectionEvent) -> ConnectionView {
        if self.ended {
            self
        } else {
            match event {
                ConnectionEvent::Fetched(reads) => self.fetched(reads),
                ConnectionEvent::Changed(Some(changes)) => self.changed_all(pair_views(changes@)),
                ConnectionEvent::Changed(None) => self,
                ConnectionEvent::Commanded(_) => self,
                ConnectionEvent::Cancelled => ConnectionView { ended: true, ..self },
            }
        }
    }

    /// The action that an event leads to, where `track` is the current track, if it is known.
    pub open spec fn action_on(self, event: ConnectionEvent, track: Option<String>) -> ActionView {
        if self.ended {
            ActionView::Wait
        } else {
            match event {
                ConnectionEvent::Fetched(_) => ActionView::Report(self.after(event).state),
                ConnectionEvent::Changed(Some(_)) => ActionView::Report(self.after(event).state),
                ConnectionEvent::Changed(None) => ActionView::Wait,
                ConnectionEvent::Commanded(command) => ActionView::Call(
                    player_call(command.data, track),
                ),
                ConnectionEvent::Cancelled => ActionView::Stop,
            }
        }
    }
}

/// What a connection's worker is told.
#[derive(Debug)]
pub enum ConnectionEvent {
    /// The worker has started and read every property.
    Fetched(PropertyReads),
    /// Properties have changed; nothing where the signal could not be read.
    Changed(Option<Vec<(String, PropertyValue)>>),
    Commanded(Command),
    Cancelled,
}

/// What a connection's worker does next.
#[derive(Debug)]
pub enum ConnectionAction {
    /// Report the state.
    Report(NowPlaying),
    /// Make a call.
    Call(PlayerCall),
    /// Wait for the next event.
    Wait,
    /// Come to an end.
    Stop,
}

/// What a connection's worker does next, with a reported state by its view.
pub enum ActionView {
    Report(NowPlayingView),
    Call(PlayerCall),
    Wait,
    Stop,
}

impl View for ConnectionAction {
    type V = ActionView;

    open spec fn view(&self) -> ActionView {
        match *self {
            ConnectionAction::Report(state) => ActionView::Report(state@),
            ConnectionAction::Call(call) => ActionView::Call(call),
            ConnectionAction::Wait => ActionView::Wait,
            ConnectionAction::Stop => ActionView::Stop,
        }
    }
}

impl PlayerConnection {
    /// A connection of which nothing has been read yet.
    pub fn new(name: String) -> (res: PlayerConnection)
        ensures
            res@ == ConnectionView::fresh(name@),
    {
        PlayerConnection { name, state: NowPlaying::default(), ended: false }
    }

    /// What the worker does on an event. A worker that has ended does nothing more.
    pub fn on_event(&mut self, event: ConnectionEvent) -> (res: ConnectionAction)
        ensures
            final(self)@ == old(self)@.after(event),
            res@ == old(self)@.action_on(event, old(self).state.id),
    {
        if self.ended {
            return ConnectionAction::Wait;
        }
        match event {
            ConnectionEvent::Fetched(reads) => {
                self.full_fetch(reads);
                ConnectionAction::Report(self.state.clone())
            },
            ConnectionEvent::Changed(changes) => {
                match self.handle_change(changes) {
                    Some(state) => ConnectionAction::Report(state),
                    None => ConnectionAction::Wait,
                }
            },
            ConnectionEvent::Commanded(command) => ConnectionAction::Call(
                self.handle_command(command),
            ),
            ConnectionEvent::Cancelled => {
                self.ended = true;
                ConnectionAction::Stop
            },
        }
    }

    /// The call that carries out a command.
    pub fn handle_command(&self, command: Command) -> (res: PlayerCall)
        ensures
            res == player_call(command.data, self.state.id),
    {
        match command.data {
            CommandData::Play => PlayerCall::Play,
            CommandData::Pause => PlayerCall::Pause,
            CommandData::PlayPause => PlayerCall::PlayPause,
            CommandData::NextTrack => PlayerCall::Next,
            CommandData::PreviousTrack => PlayerCall::Previous,
            CommandData::SeekTo(position_ms) => PlayerCall::SetPosition {
                track: copy_text(&self.state.id),
                position_us: position_ms as i64 * 1000,
            },
            CommandData::SetVolume(volume) => PlayerCall::SetVolume(volume),
            CommandData::SetShuffle(shuffle) => PlayerCall::SetShuffle(shuffle),
        }
    }

    /// Takes in changed properties and gives the state to report. A signal that could not be
    /// read changes nothing and is not reported.
    pub fn handle_change(&mut self, changes: Option<Vec<(String, PropertyValue)>>) -> (res: Option<
        NowPlaying,
    >)
        ensures
            match changes {
                Some(list) => {
                    &&& final(self)@ == old(self)@.changed_all(pair_views(list@))
                    &&& res matches Some(state) && state@ == final(self)@.state
                },
                None => *final(self) == *old(self) && res is None,
            },
    {
        match changes {
            Some(list) => {
                let mut list = list;
                let ghost all = pair_views(list@);
                let ghost start = self@;
                let ghost mut done: int = 0;
                assert(all.skip(0) =~= all);
                while list.len() > 0
                    invariant
                        0 <= done <= all.len(),
                        self@ == start.changed_all(all.take(done)),
                        pair_views(list@) == all.skip(done),
                    decreases list.len(),
                {
                    let ghost rest = pair_views(list@);
                    let (key, value) = list.remove(0);
                    proof {
                        assert(rest.len() == all.len() - done);
                        assert(all.skip(done)[0] == all[done]);
                        assert(pair_views(list@) =~= rest.skip(1));
                        assert(all.skip(done + 1) =~= rest.skip(1));
                        assert(all.take(done + 1).drop_last() =~= all.take(done));
                        done = done + 1;
                    }
                    match Reading::from_change(key.as_str(), value) {
                        Some(reading) => self.apply(reading),
                        None => {},
                    }
                }
                assert(all.take(done) =~= all);
                Some(self.state.clone())
            },
            None => None,
        }
    }

    /// Takes in one reading.
    pub fn apply(&mut self, reading: Reading)
        ensures
            final(self)@ == old(self)@.applied(reading),
    {
        match reading {
            Reading::PlaybackStatus(status) => self.handle_playback_status(status),
            Reading::LoopStatus(status) => self.handle_loop_status(status),
            Reading::Rate(rate) => self.handle_playback_rate(rate),
            Reading::Shuffle(shuffle) => self.handle_shuffle_state(shuffle),
            Reading::Metadata(metadata) => self.handle_metadata(metadata),
            Reading::Volume(percent) => self.handle_volume(percent),
            Reading::Position(position) => self.handle_playback_position(position),
            Reading::CanGoNext(can) => self.handle_can_go_next(can),
            Reading::CanSeek(can) => self.handle_can_seek(can),
        }
    }

    /// Takes in a reading of every property.
    pub fn full_fetch(&mut self, reads: PropertyReads)
        ensures
            final(self)@ == old(self)@.fetched(reads),
    {
        self.handle_playback_status(reads.playback_status);
        self.handle_loop_status(reads.loop_status);
        self.handle_playback_rate(reads.rate);
        self.handle_shuffle_state(reads.shuffle);
        self.handle_metadata(reads.metadata);
        self.handle_volume(reads.volume);
        self.handle_playback_position(reads.position);
        self.handle_can_go_next(reads.can_go_next);
        self.handle_can_seek(reads.can_seek);
    }

    pub fn handle_playback_status(&mut self, playback_status: Option<PlaybackStatus>)
        ensures
            final(self)@ == old(self)@.applied(Reading::PlaybackStatus(playback_status)),
    {
        if let Some(status) = playback_status {
            self.state.is_playing = status == PlaybackStatus::Playing;
        }
    }

    pub fn handle_loop_status(&mut self, loop_status: Option<LoopStatus>)
        ensures
            final(self)@ == old(self)@.applied(Reading::LoopStatus(loop_status)),
    {
        if let Some(status) = loop_status {
            self.state.repeat_state = match status {
                LoopStatus::Off => Some("off".to_string()),
                LoopStatus::Track => Some("track".to_string()),
                LoopStatus::Playlist => Some("all".to_string()),
            };
        }
    }

    pub fn handle_playback_rate(&mut self, playback_rate: Option<Rate>)
        ensures
            final(self)@ == old(self)@.applied(Reading::Rate(playback_rate)),
    {
        if let Some(rate) = playback_rate {
            self.state.playback_rate = Some(rate);
        }
    }

    pub fn handle_shuffle_state(&mut self, shuffle_state: Option<bool>)
        ensures
            final(self)@ == old(self)@.applied(Reading::Shuffle(shuffle_state)),
    {
        if let Some(shuffle) = shuffle_state {
            self.state.shuffle_state = Some(shuffle);
        }
    }

    pub fn handle_metadata(&mut self, metadata: Option<Metadata>)
        ensures
            final(self)@ == old(self)@.applied(Reading::Metadata(metadata)),
    {
        if let Some(metadata) = metadata {
            self.state.id = Some(metadata.track_id);
            self.state.device_id = Some(self.name.clone());
            self.state.track_name = match metadata.title {
                Some(title) => title,
                None => String::new(),
            };
            self.state.track_duration = match metadata.length {
                Some(length) => Some(truncated(length)),
                None => None,
            };
            self.state.album = metadata.album;
            self.state.artist = metadata.artist;
            self.state.thumbnail = metadata.art_url;
            self.state.url = metadata.url;
        }
    }

    /// Takes in a volume, given as a percentage of the full volume; more than the full volume
    /// counts as full.
    pub fn handle_volume(&mut self, percent: Option<u8>)
        ensures
            final(self)@ == old(self)@.applied(Reading::Volume(percent)),
    {
        if let Some(percent) = percent {
            self.state.volume = if percent <= 100 {
                percent
            } else {
                100
            };
        }
    }

    pub fn handle_playback_position(&mut self, position: Option<i64>)
        ensures
            final(self)@ == old(self)@.applied(Reading::Position(position)),
    {
        if let Some(position) = position {
            self.state.track_progress = Some(truncated(position));
        }
    }

    pub fn handle_can_go_next(&mut self, can_go_next: Option<bool>)
        ensures
            final(self)@ == old(self)@.applied(Reading::CanGoNext(can_go_next)),
    {
        if let Some(can) = can_go_next {
            self.state.can_skip = can;
        }
    }

    pub fn handle_can_seek(&mut self, can_seek: Option<bool>)
        ensures
            final(self)@ == old(self)@.applied(Reading::CanSeek(can_seek)),
    {
        if let Some(can) = can_seek {
            self.state.can_fast_forward = can;
        }
    }
}

} // verus!
