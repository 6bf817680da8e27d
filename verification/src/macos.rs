//! The player that the media remote framework presents.

use crate::artwork::{base64_standard, thumbnail, thumbnail_fits, thumbnail_of};
use crate::client::{self, ClientError};
use crate::command::{Command, CommandData};
use crate::conversion::{PlayerCommand, PlayerCommandData};
use crate::state::{NowPlaying, NowPlayingView, Rate};
use vstd::prelude::*;

verus! {

/// A command of the media remote framework.
#[derive(Debug, Clone, Copy, PartialEq, Eq, Structural)]
pub enum MacCommand {
    Play,
    Pause,
    TogglePlayPause,
    NextTrack,
    PreviousTrack,
    SetShuffle,
    SetRepeatMode,
}

impl MacCommand {
    /// The number of the command.
    pub open spec fn number(self) -> u32 {
        match self {
            MacCommand::Play => 0,
            MacCommand::Pause => 1,
            MacCommand::TogglePlayPause => 2,
            MacCommand::NextTrack => 4,
            MacCommand::PreviousTrack => 5,
            MacCommand::SetShuffle => 26,
            MacCommand::SetRepeatMode => 25,
        }
    }

    /// The number of the command.
    pub fn code(&self) -> (res: u32)
        ensures
            res == self.number(),
    {
        match self {
            MacCommand::Play => 0,
            MacCommand::Pause => 1,
            MacCommand::TogglePlayPause => 2,
            MacCommand::NextTrack => 4,
            MacCommand::PreviousTrack => 5,
            MacCommand::SetShuffle => 26,
            MacCommand::SetRepeatMode => 25,
        }
    }
}

/// The framework's command for a command; seeking, volume and shuffling are not supported.
pub open spec fn mac_command(data: CommandData) -> Option<MacCommand> {
    match data {
        CommandData::Play => Some(MacCommand::Play),
        CommandData::Pause => Some(MacCommand::Pause),
        CommandData::PlayPause => Some(MacCommand::TogglePlayPause),
        CommandData::NextTrack => Some(MacCommand::NextTrack),
        CommandData::PreviousTrack => Some(MacCommand::PreviousTrack),
        CommandData::SeekTo(_) => None,
        CommandData::SetVolume(_) => None,
        CommandData::SetShuffle(_) => None,
    }
}

/// What the framework tells of the current track; nothing where it does not tell.
#[derive(Debug)]
pub struct NowPlayingInfo {
    pub title: Option<String>,
    pub artist: Option<String>,
    pub album: Option<String>,
    /// The length of the track in milliseconds.
    pub duration_ms: Option<u32>,
    pub artwork_mime_type: Option<String>,
    pub artwork_data: Option<Vec<u8>>,
    pub shuffle_mode: Option<u32>,
    pub repeat_mode: Option<u32>,
    /// The name of the application that plays.
    pub app_name: Option<String>,
    pub playback_rate: Option<Rate>,
    /// How many milliseconds had been played when the track was last paused.
    pub paused_progress_ms: u32,
    /// The same, and the time since it was last resumed.
    pub running_progress_ms: u32,
}

impl NowPlayingInfo {
    /// The text of the artwork, if it is made, fits in memory.
    pub open spec fn artwork_fits(self) -> bool {
        thumbnail_fits(self.artwork_data, self.artwork_mime_type)
    }

    pub open spec fn rate(self) -> Rate {
        match self.playback_rate {
            Some(rate) => rate,
            None => Rate { bits: 0 },
        }
    }

    /// The state that the framework tells of.
    pub open spec fn state(self) -> NowPlayingView {
        NowPlayingView {
            track_name: match self.title {
                Some(title) => title@,
                None => Seq::empty(),
            },
            album: self.album.deep_view(),
            artist: match self.artist {
                Some(name) => Some(seq![name@]),
                None => None,
            },
            is_playing: self.rate().positive(),
            track_duration: self.duration_ms,
            track_progress: Some(
                if self.rate().positive() {
                    self.running_progress_ms
                } else {
                    self.paused_progress_ms
                },
            ),
            thumbnail: thumbnail_of(self.artwork_data, self.artwork_mime_type),
            can_skip: true,
            device_id: self.app_name.deep_view(),
            playback_rate: Some(self.rate()),
            shuffle_state: match self.shuffle_mode {
                Some(mode) => Some(mode != 0),
                None => None,
            },
            repeat_state: match self.repeat_mode {
                Some(mode) => Some(repeat_word(mode)),
                None => None,
            },
            ..NowPlayingView::blank()
        }
    }
}

/// The word for a repeat mode of the framework.
pub open spec fn repeat_word(mode: u32) -> Seq<char> {
    if mode == 1 {
        "track"@
    } else if mode == 2 {
        "all"@
    } else {
        "off"@
    }
}

/// The word for a repeat mode of the framework.
pub fn repeat_state(mode: u32) -> (res: String)
    ensures
        res@ == repeat_word(mode),
{
    match mode {
        0 => "off".to_string(),
        1 => "track".to_string(),
        2 => "all".to_string(),
        _ => "off".to_string(),
    }
}

/// The state that the framework tells of.
pub fn now_playing(info: NowPlayingInfo) -> (res: NowPlaying)
    requires
        info.artwork_fits(),
    ensures
        res@ == info.state(),
{
    let playback_rate = match info.playback_rate {
        Some(rate) => rate,
        None => Rate::zero(),
    };
    let is_playing = playback_rate.is_positive();
    let progress: u32 = if is_playing {
        info.running_progress_ms
    } else {
        info.paused_progress_ms
    };
    let image = thumbnail(&info.artwork_data, &info.artwork_mime_type);
    let artist = match info.artist {
        Some(name) => {
            let ghost spelled = name@;
            let mut names: Vec<String> = Vec::new();
            names.push(name);
            assert(names.deep_view() =~= seq![spelled]);
            Some(names)
        },
        None => None,
    };
    NowPlaying {
        track_name: match info.title {
            Some(title) => title,
            None => String::new(),
        },
        album: info.album,
        artist,
        is_playing,
        track_duration: info.duration_ms,
        track_progress: Some(progress),
        thumbnail: image,
        id: None,
        can_skip: true,
        can_fast_forward: false,
        can_change_volume: false,
        can_like: false,
        can_set_output: false,
        device_id: info.app_name,
        playback_rate: Some(playback_rate),
        volume: 0,
        shuffle_state: match info.shuffle_mode {
            Some(mode) => Some(mode != 0),
            None => None,
        },
        repeat_state: match info.repeat_mode {
            Some(mode) => Some(repeat_state(mode)),
            None => None,
        },
        playlist: None,
        playlist_id: None,
        device: None,
        url: None,
    }
}

/// What the worker is told.
#[derive(Debug)]
pub enum WorkerEvent {
    /// The worker has started.
    Started,
    /// The framework has notified of a change.
    Notified,
    /// The framework has told what is playing, or that there is nothing to tell.
    Informed(Option<NowPlayingInfo>),
    Commanded(Command),
    Cancelled,
}

/// What the worker does next.
#[derive(Debug)]
pub enum WorkerAction {
    /// Register for notifications, and then ask what is playing.
    RegisterAndAsk,
    /// Ask what is playing.
    Ask,
    /// Report the state.
    Report(NowPlaying),
    /// Send the command of this number.
    Send(u32),
    /// Wait for the next event.
    Wait,
    /// Unregister from notifications, and come to an end.
    Unregister,
}

/// What the worker does next, with a reported state by its view.
pub enum WorkerActionView {
    RegisterAndAsk,
    Ask,
    Report(NowPlayingView),
    Send(u32),
    Wait,
    Unregister,
}

impl View for WorkerAction {
    type V = WorkerActionView;

    open spec fn view(&self) -> WorkerActionView {
        match *self {
            WorkerAction::RegisterAndAsk => WorkerActionView::RegisterAndAsk,
            WorkerAction::Ask => WorkerActionView::Ask,
            WorkerAction::Report(state) => WorkerActionView::Report(state@),
            WorkerAction::Send(code) => WorkerActionView::Send(code),
            WorkerAction::Wait => WorkerActionView::Wait,
            WorkerAction::Unregister => WorkerActionView::Unregister,
        }
    }
}

/// The worker of the player.
#[derive(Debug)]
pub struct MacPlayerWorker {
    /// The worker has come to its end.
    pub ended: bool,
}

impl MacPlayerWorker {
    /// The worker after an event.
    pub open spec fn after(self, event: WorkerEvent) -> MacPlayerWorker {
        MacPlayerWorker { ended: self.ended || event is Cancelled }
    }

    /// The worker after a list of events.
    pub open spec fn after_all(self, events: Seq<WorkerEvent>) -> MacPlayerWorker
        decreases events.len(),
    {
        if events.len() == 0 {
            self
        } else {
            self.after_all(events.drop_last()).after(events.last())
        }
    }

    /// The action that an event leads to. The device that a command names is ignored.
    pub open spec fn action_on(self, event: WorkerEvent) -> WorkerActionView {
        if self.ended {
            WorkerActionView::Wait
        } else {
            match event {
                WorkerEvent::Started => WorkerActionView::RegisterAndAsk,
                WorkerEvent::Notified => WorkerActionView::Ask,
                WorkerEvent::Informed(Some(info)) => WorkerActionView::Report(info.state()),
                WorkerEvent::Informed(None) => WorkerActionView::Wait,
                WorkerEvent::Commanded(command) => match mac_command(command.data) {
                    Some(code) => WorkerActionView::Send(code.number()),
                    None => WorkerActionView::Wait,
                },
                WorkerEvent::Cancelled => WorkerActionView::Unregister,
            }
        }
    }

    /// A worker that has not started yet.
    pub fn new() -> (res: MacPlayerWorker)
        ensures
            !res.ended,
    {
        MacPlayerWorker { ended: false }
    }

    /// What the worker does on an event. A worker that has ended does nothing more.
    pub fn on_event(&mut self, event: WorkerEvent) -> (res: WorkerAction)
        requires
            event matches WorkerEvent::Informed(Some(info)) ==> info.artwork_fits(),
        ensures
            *final(self) == old(self).after(event),
            res@ == old(self).action_on(event),
    {
        if self.ended {
            return WorkerAction::Wait;
        }
        match event {
            WorkerEvent::Started => WorkerAction::RegisterAndAsk,
            WorkerEvent::Notified => WorkerAction::Ask,
            WorkerEvent::Informed(info) => match info {
                Some(info) => WorkerAction::Report(now_playing(info)),
                None => WorkerAction::Wait,
            },
            WorkerEvent::Commanded(command) => match self.handle_command(command) {
                Some(code) => WorkerAction::Send(code.code()),
                None => WorkerAction::Wait,
            },
            WorkerEvent::Cancelled => {
                self.ended = true;
                WorkerAction::Unregister
            },
        }
    }

    /// The framework's command that carries out a command, if there is one.
    pub fn handle_command(&self, command: Command) -> (res: Option<MacCommand>)
        ensures
            res == mac_command(command.data),
    {
        match command.data {
            CommandData::Play => Some(MacCommand::Play),
            CommandData::Pause => Some(MacCommand::Pause),
            CommandData::PlayPause => Some(MacCommand::TogglePlayPause),
            CommandData::NextTrack => Some(MacCommand::NextTrack),
            CommandData::PreviousTrack => Some(MacCommand::PreviousTrack),
            CommandData::SeekTo(_) => None,
            CommandData::SetVolume(_) => None,
            CommandData::SetShuffle(_) => None,
        }
    }
}

/// Every state that the framework tells of bears a repeat word that callers know, and claims no
/// control that the framework does not offer.
pub proof fn told_state_is_consistent(info: NowPlayingInfo)
    ensures
        info.state().repeat_is_known(),
        info.state().can_skip,
        !info.state().can_fast_forward,
        !info.state().can_change_volume,
        !info.state().can_like,
        !info.state().can_set_output,
        info.state().volume == 0,
        info.state().id is None,
{
}

/// A track is told to be playing exactly where its rate is greater than zero, and the progress
/// is that of a running track only then.
pub proof fn playing_means_a_positive_rate(info: NowPlayingInfo)
    ensures
        info.state().is_playing <==> info.rate().positive(),
        info.playback_rate is None ==> !info.state().is_playing,
        info.state().track_progress == Some(
            if info.state().is_playing {
                info.running_progress_ms
            } else {
                info.paused_progress_ms
            },
        ),
{
}

/// A thumbnail is a data URL of the artwork's type.
pub proof fn thumbnail_is_a_data_url(info: NowPlayingInfo)
    ensures
        info.state().thumbnail matches Some(url) ==> {
            &&& info.artwork_mime_type is Some
            &&& info.artwork_data is Some
            &&& url == "data:"@ + info.artwork_mime_type->0@ + ";base64,"@ + base64_standard(
                info.artwork_data->0@,
            )
        },
{
}

/// Once the worker has been cancelled, nothing follows: no later event leads to a report, a
/// question or a command.
pub proof fn cancelled_worker_is_silent(
    worker: MacPlayerWorker,
    events: Seq<WorkerEvent>,
    i: int,
    event: WorkerEvent,
)
    requires
        0 <= i < events.len(),
        events[i] is Cancelled,
    ensures
        worker.after_all(events).ended,
        worker.after_all(events).action_on(event) == WorkerActionView::Wait,
    decreases events.len(),
{
    if i < events.len() - 1 {
        cancelled_worker_is_silent(worker, events.drop_last(), i, event);
    }
}

/// The number of the framework's command that a request asks for; none for a request that is not
/// supported.
pub open spec fn requested_number(request: PlayerCommandData) -> Option<u32> {
    match request {
        PlayerCommandData::Play => Some(0),
        PlayerCommandData::Pause => Some(1),
        PlayerCommandData::PlayPause => Some(2),
        PlayerCommandData::NextTrack => Some(4),
        PlayerCommandData::PreviousTrack => Some(5),
        PlayerCommandData::SeekTo { .. } => None,
        PlayerCommandData::SetVolume { .. } => None,
        PlayerCommandData::SetShuffle { .. } => None,
    }
}

/// What a caller asks is carried out, if it is supported, whatever device the caller names.
pub proof fn request_is_carried_out(
    client: client::NowPlaying,
    request: PlayerCommand,
    res: Result<Command, ClientError>,
    worker: MacPlayerWorker,
)
    requires
        client.channel && client.reader,
        client.sends(request, res),
        !worker.ended,
    ensures
        res matches Ok(command) && worker.action_on(WorkerEvent::Commanded(command))
            == match requested_number(request.data) {
            Some(number) => WorkerActionView::Send(number),
            None => WorkerActionView::Wait,
        },
{
}

/// What is reported of the current track is what the framework tells, each under its own name; a
/// title that it does not tell is blank, a single artist is a list of one name, and what it never
/// tells is not claimed.
pub proof fn track_is_reported(info: NowPlayingInfo)
    ensures
        info.title matches Some(title) ==> info.state().track_name == title@,
        info.title is None ==> info.state().track_name.len() == 0,
        info.album matches Some(album) ==> info.state().album == Some(album@),
        info.album is None ==> info.state().album is None,
        info.artist matches Some(artist) ==> info.state().artist == Some(seq![artist@]),
        info.artist is None ==> info.state().artist is None,
        info.duration_ms == info.state().track_duration,
        info.app_name matches Some(app) ==> info.state().device_id == Some(app@),
        info.app_name is None ==> info.state().device_id is None,
        info.state().playlist is None && info.state().playlist_id is None,
        info.state().device is None && info.state().url is None && info.state().id is None,
        info.state().volume == 0 && info.state().can_skip,
        !info.state().can_fast_forward && !info.state().can_change_volume,
        !info.state().can_like && !info.state().can_set_output,
{
}

/// Shuffling is told to be off exactly where its mode is zero, to be on exactly where it is any
/// other, and not told exactly where there is no mode.
pub proof fn shuffling_is_reported(info: NowPlayingInfo)
    ensures
        info.state().shuffle_state == Some(false) <==> info.shuffle_mode == Some(0u32),
        info.state().shuffle_state == Some(true) <==> info.shuffle_mode is Some
            && info.shuffle_mode->0 != 0,
        info.state().shuffle_state is None <==> info.shuffle_mode is None,
{
}

/// The repeat mode one is told as the track, two as all, and any other as off; where there is no
/// mode, nothing is told.
pub proof fn repetition_is_reported(info: NowPlayingInfo, mode: u32)
    ensures
        info.repeat_mode == Some(1u32) ==> info.state().repeat_state == Some("track"@),
        info.repeat_mode == Some(2u32) ==> info.state().repeat_state == Some("all"@),
        info.repeat_mode matches Some(told) ==> told != 1 && told != 2 ==> info.state().repeat_state
            == Some("off"@),
        info.repeat_mode is None ==> info.state().repeat_state is None,
        repeat_word(1) == "track"@,
        repeat_word(2) == "all"@,
        mode != 1 && mode != 2 ==> repeat_word(mode) == "off"@,
{
}

/// The rate is told as it is, or as zero where there is none. A track plays exactly where the rate
/// is greater than zero; its progress is then the one that has gone on running, and else the one
/// at which it was paused.
pub proof fn playback_is_reported(info: NowPlayingInfo)
    ensures
        info.playback_rate matches Some(rate) ==> info.state().playback_rate == Some(rate),
        info.playback_rate is None ==> info.state().playback_rate == Some(Rate { bits: 0 }),
        info.state().is_playing <==> info.playback_rate is Some && 0 < info.playback_rate->0.bits
            <= 0x7ff0_0000_0000_0000,
        info.state().is_playing ==> info.state().track_progress == Some(info.running_progress_ms),
        !info.state().is_playing ==> info.state().track_progress == Some(info.paused_progress_ms),
{
}

/// The artwork is told exactly where both it and its type are known, as a data URL of the two.
pub proof fn artwork_is_reported(info: NowPlayingInfo)
    ensures
        info.state().thumbnail is Some <==> info.artwork_data is Some && info.artwork_mime_type
            is Some,
        info.state().thumbnail matches Some(url) ==> url == "data:"@ + info.artwork_mime_type->0@
            + ";base64,"@ + base64_standard(info.artwork_data->0@),
{
}

/// Each command is the framework's command of its own name, if there is one, and each of those has
/// its own number.
pub proof fn each_command_has_its_number(position_ms: u32, volume: u8, shuffle: bool)
    ensures
        mac_command(CommandData::Play) == Some(MacCommand::Play),
        mac_command(CommandData::Pause) == Some(MacCommand::Pause),
        mac_command(CommandData::PlayPause) == Some(MacCommand::TogglePlayPause),
        mac_command(CommandData::NextTrack) == Some(MacCommand::NextTrack),
        mac_command(CommandData::PreviousTrack) == Some(MacCommand::PreviousTrack),
        mac_command(CommandData::SeekTo(position_ms)) is None,
        mac_command(CommandData::SetVolume(volume)) is None,
        mac_command(CommandData::SetShuffle(shuffle)) is None,
        MacCommand::Play.number() == 0,
        MacCommand::Pause.number() == 1,
        MacCommand::TogglePlayPause.number() == 2,
        MacCommand::NextTrack.number() == 4,
        MacCommand::PreviousTrack.number() == 5,
        MacCommand::SetRepeatMode.number() == 25,
        MacCommand::SetShuffle.number() == 26,
{
}

/// A worker that has not ended registers when it starts, asks on every notification, reports what
/// it is told and waits where it is told nothing, sends the number of a command that has one
/// whatever device it names, and on cancellation unregisters and ends; nothing else ends it.
pub proof fn worker_acts_on_every_event(
    worker: MacPlayerWorker,
    info: NowPlayingInfo,
    command: Command,
    event: WorkerEvent,
)
    requires
        !worker.ended,
    ensures
        worker.action_on(WorkerEvent::Started) is RegisterAndAsk,
        worker.action_on(WorkerEvent::Notified) is Ask,
        worker.action_on(WorkerEvent::Informed(Some(info))) == WorkerActionView::Report(
            info.state(),
        ),
        worker.action_on(WorkerEvent::Informed(None)) is Wait,
        worker.action_on(WorkerEvent::Commanded(command)) == match command.data {
            CommandData::Play => WorkerActionView::Send(0),
            CommandData::Pause => WorkerActionView::Send(1),
            CommandData::PlayPause => WorkerActionView::Send(2),
            CommandData::NextTrack => WorkerActionView::Send(4),
            CommandData::PreviousTrack => WorkerActionView::Send(5),
            _ => WorkerActionView::Wait,
        },
        worker.action_on(WorkerEvent::Cancelled) is Unregister,
        worker.after(event).ended <==> event is Cancelled,
{
}

/// What an action is in mathematical terms tells all that it holds.
pub proof fn view_tells_all(action: WorkerAction)
    ensures
        action is RegisterAndAsk <==> action@ is RegisterAndAsk,
        action is Ask <==> action@ is Ask,
        action matches WorkerAction::Report(state) ==> action@ == WorkerActionView::Report(state@),
        action matches WorkerAction::Send(code) ==> action@ == WorkerActionView::Send(code),
        action is Wait <==> action@ is Wait,
        action is Unregister <==> action@ is Unregister,
{
}

} // verus!
