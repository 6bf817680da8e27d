//! The message and command types that callers see, and how they relate to the library's own.

use crate::command::{Command, CommandData};
use crate::state::{NowPlaying, NowPlayingView, Rate};
use vstd::prelude::*;

verus! {

/// The state of a player as it is delivered to a callback.
#[derive(Debug, Clone)]
pub struct NowPlayingMessage {
    pub album: Option<String>,
    pub artist: Option<Vec<String>>,
    pub playlist: Option<String>,
    pub playlist_id: Option<String>,
    pub track_name: String,
    pub shuffle_state: Option<bool>,
    /// "off", "all" or "track".
    pub repeat_state: Option<String>,
    pub is_playing: bool,
    pub can_fast_forward: bool,
    pub can_skip: bool,
    pub can_like: bool,
    pub can_change_volume: bool,
    pub can_set_output: bool,
    pub track_duration: Option<u32>,
    pub track_progress: Option<u32>,
    pub playback_rate: Option<Rate>,
    pub volume: u8,
    pub device: Option<String>,
    pub id: Option<String>,
    pub device_id: Option<String>,
    pub url: Option<String>,
    pub thumbnail: Option<String>,
}

impl View for NowPlayingMessage {
    type V = NowPlayingView;

    /// The state that the message tells of.
    open spec fn view(&self) -> NowPlayingView {
        NowPlayingView {
            album: self.album.deep_view(),
            artist: self.artist.deep_view(),
            playlist: self.playlist.deep_view(),
            playlist_id: self.playlist_id.deep_view(),
            track_name: self.track_name@,
            shuffle_state: self.shuffle_state,
            repeat_state: self.repeat_state.deep_view(),
            is_playing: self.is_playing,
            can_fast_forward: self.can_fast_forward,
            can_skip: self.can_skip,
            can_like: self.can_like,
            can_change_volume: self.can_change_volume,
            can_set_output: self.can_set_output,
            track_duration: self.track_duration,
            track_progress: self.track_progress,
            playback_rate: self.playback_rate,
            volume: self.volume,
            device: self.device.deep_view(),
            id: self.id.deep_view(),
            device_id: self.device_id.deep_view(),
            url: self.url.deep_view(),
            thumbnail: self.thumbnail.deep_view(),
        }
    }
}

impl From<NowPlaying> for NowPlayingMessage {
    fn from(state: NowPlaying) -> (res: NowPlayingMessage) {
        NowPlayingMessage {
            album: state.album,
            artist: state.artist,
            playlist: state.playlist,
            playlist_id: state.playlist_id,
            track_name: state.track_name,
            shuffle_state: state.shuffle_state,
            repeat_state: state.repeat_state,
            is_playing: state.is_playing,
            can_fast_forward: state.can_fast_forward,
            can_skip: state.can_skip,
            can_like: state.can_like,
            can_change_volume: state.can_change_volume,
            can_set_output: state.can_set_output,
            track_duration: state.track_duration,
            track_progress: state.track_progress,
            playback_rate: state.playback_rate,
            volume: state.volume,
            device: state.device,
            id: state.id,
            device_id: state.device_id,
            url: state.url,
            thumbnail: state.thumbnail,
        }
    }
}

impl vstd::std_specs::convert::FromSpecImpl<NowPlaying> for NowPlayingMessage {
    open spec fn obeys_from_spec() -> bool {
        true
    }

    open spec fn from_spec(state: NowPlaying) -> NowPlayingMessage {
        message_of(state)
    }
}

/// The message that tells of a state.
pub open spec fn message_of(state: NowPlaying) -> NowPlayingMessage {
    NowPlayingMessage {
        album: state.album,
        artist: state.artist,
        playlist: state.playlist,
        playlist_id: state.playlist_id,
        track_name: state.track_name,
        shuffle_state: state.shuffle_state,
        repeat_state: state.repeat_state,
        is_playing: state.is_playing,
        can_fast_forward: state.can_fast_forward,
        can_skip: state.can_skip,
        can_like: state.can_like,
        can_change_volume: state.can_change_volume,
        can_set_output: state.can_set_output,
        track_duration: state.track_duration,
        track_progress: state.track_progress,
        playback_rate: state.playback_rate,
        volume: state.volume,
        device: state.device,
        id: state.id,
        device_id: state.device_id,
        url: state.url,
        thumbnail: state.thumbnail,
    }
}

/// What a caller asks a player to do.
#[derive(Debug, Clone, Copy, PartialEq, Eq, Structural)]
pub enum PlayerCommandData {
    Play,
    Pause,
    PlayPause,
    NextTrack,
    PreviousTrack,
    /// A position in milliseconds.
    SeekTo { position_ms: u32 },
    /// A volume from 0 to 100.
    SetVolume { volume: u8 },
    SetShuffle { shuffle: bool },
}

impl From<PlayerCommandData> for CommandData {
    fn from(data: PlayerCommandData) -> (res: CommandData) {
        match data {
            PlayerCommandData::Play => CommandData::Play,
            PlayerCommandData::Pause => CommandData::Pause,
            PlayerCommandData::PlayPause => CommandData::PlayPause,
            PlayerCommandData::NextTrack => CommandData::NextTrack,
            PlayerCommandData::PreviousTrack => CommandData::PreviousTrack,
            PlayerCommandData::SeekTo { position_ms } => CommandData::SeekTo(position_ms),
            PlayerCommandData::SetVolume { volume } => CommandData::SetVolume(volume),
            PlayerCommandData::SetShuffle { shuffle } => CommandData::SetShuffle(shuffle),
        }
    }
}

impl vstd::std_specs::convert::FromSpecImpl<PlayerCommandData> for CommandData {
    open spec fn obeys_from_spec() -> bool {
        true
    }

    open spec fn from_spec(data: PlayerCommandData) -> CommandData {
        data_of(data)
    }
}

/// The library's command for what a caller asks.
pub open spec fn data_of(data: PlayerCommandData) -> CommandData {
    match data {
        PlayerCommandData::Play => CommandData::Play,
        PlayerCommandData::Pause => CommandData::Pause,
        PlayerCommandData::PlayPause => CommandData::PlayPause,
        PlayerCommandData::NextTrack => CommandData::NextTrack,
        PlayerCommandData::PreviousTrack => CommandData::PreviousTrack,
        PlayerCommandData::SeekTo { position_ms } => CommandData::SeekTo(position_ms),
        PlayerCommandData::SetVolume { volume } => CommandData::SetVolume(volume),
        PlayerCommandData::SetShuffle { shuffle } => CommandData::SetShuffle(shuffle),
    }
}

/// A caller's command and the device that it is meant for.
#[derive(Debug, Clone, PartialEq, Eq)]
pub struct PlayerCommand {
    /// The device to send the command to; all devices where there is none. Ignored on macOS.
    pub to: Option<String>,
    pub data: PlayerCommandData,
}

impl From<PlayerCommand> for Command {
    fn from(command: PlayerCommand) -> (res: Command) {
        Command { to: command.to, data: CommandData::from(command.data) }
    }
}

impl vstd::std_specs::convert::FromSpecImpl<PlayerCommand> for Command {
    open spec fn obeys_from_spec() -> bool {
        true
    }

    open spec fn from_spec(command: PlayerCommand) -> Command {
        command_of(command)
    }
}

/// The library's command for a caller's command: for the same device, and with what is asked.
pub open spec fn command_of(command: PlayerCommand) -> Command {
    Command { to: command.to, data: data_of(command.data) }
}

/// The message made of a state tells of exactly that state.
pub proof fn message_tells_the_state(state: NowPlaying)
    ensures
        message_of(state)@ == state@,
{
}

/// Two callers' requests that differ are different commands.
pub proof fn request_is_kept(left: PlayerCommandData, right: PlayerCommandData)
    ensures
        data_of(left) == data_of(right) <==> left == right,
{
}

/// Every command of the library is one that a caller can ask for.
pub proof fn every_command_can_be_asked_for(data: CommandData)
    ensures
        exists|asked: PlayerCommandData| #[trigger] data_of(asked) == data,
{
    let asked = match data {
        CommandData::Play => PlayerCommandData::Play,
        CommandData::Pause => PlayerCommandData::Pause,
        CommandData::PlayPause => PlayerCommandData::PlayPause,
        CommandData::NextTrack => PlayerCommandData::NextTrack,
        CommandData::PreviousTrack => PlayerCommandData::PreviousTrack,
        CommandData::SeekTo(position_ms) => PlayerCommandData::SeekTo { position_ms },
        CommandData::SetVolume(volume) => PlayerCommandData::SetVolume { volume },
        CommandData::SetShuffle(shuffle) => PlayerCommandData::SetShuffle { shuffle },
    };
    assert(data_of(asked) == data);
}

/// A message tells each field of a state under the field's own name.
pub proof fn message_tells_every_field(state: NowPlaying)
    ensures
        ({
            let message = message_of(state);
            &&& message.album == state.album
            &&& message.artist == state.artist
            &&& message.playlist == state.playlist
            &&& message.playlist_id == state.playlist_id
            &&& message.track_name == state.track_name
            &&& message.shuffle_state == state.shuffle_state
            &&& message.repeat_state == state.repeat_state
            &&& message.is_playing == state.is_playing
            &&& message.can_fast_forward == state.can_fast_forward
            &&& message.can_skip == state.can_skip
            &&& message.can_like == state.can_like
            &&& message.can_change_volume == state.can_change_volume
            &&& message.can_set_output == state.can_set_output
            &&& message.track_duration == state.track_duration
            &&& message.track_progress == state.track_progress
            &&& message.playback_rate == state.playback_rate
            &&& message.volume == state.volume
            &&& message.device == state.device
            &&& message.id == state.id
            &&& message.device_id == state.device_id
            &&& message.url == state.url
            &&& message.thumbnail == state.thumbnail
        }),
{
}

/// What a message is in mathematical terms is what a state with the same fields is.
pub proof fn message_is_seen_as_a_state(message: NowPlayingMessage, state: NowPlaying)
    requires
        message.album == state.album,
        message.artist == state.artist,
        message.playlist == state.playlist,
        message.playlist_id == state.playlist_id,
        message.track_name == state.track_name,
        message.shuffle_state == state.shuffle_state,
        message.repeat_state == state.repeat_state,
        message.is_playing == state.is_playing,
        message.can_fast_forward == state.can_fast_forward,
        message.can_skip == state.can_skip,
        message.can_like == state.can_like,
        message.can_change_volume == state.can_change_volume,
        message.can_set_output == state.can_set_output,
        message.track_duration == state.track_duration,
        message.track_progress == state.track_progress,
        message.playback_rate == state.playback_rate,
        message.volume == state.volume,
        message.device == state.device,
        message.id == state.id,
        message.device_id == state.device_id,
        message.url == state.url,
        message.thumbnail == state.thumbnail,
    ensures
        message@ == state@,
{
}

/// Each request is the command of its own name, with the number or flag that it bears, for the
/// device that it names.
pub proof fn request_becomes_its_command(
    to: Option<String>,
    position_ms: u32,
    volume: u8,
    shuffle: bool,
)
    ensures
        ({
            let asked = |data: PlayerCommandData| command_of(PlayerCommand { to, data });
            &&& asked(PlayerCommandData::Play) == (Command { to, data: CommandData::Play })
            &&& asked(PlayerCommandData::Pause) == (Command { to, data: CommandData::Pause })
            &&& asked(PlayerCommandData::PlayPause) == (Command {
                to,
                data: CommandData::PlayPause,
            })
            &&& asked(PlayerCommandData::NextTrack) == (Command {
                to,
                data: CommandData::NextTrack,
            })
            &&& asked(PlayerCommandData::PreviousTrack) == (Command {
                to,
                data: CommandData::PreviousTrack,
            })
            &&& asked(PlayerCommandData::SeekTo { position_ms }) == (Command {
                to,
                data: CommandData::SeekTo(position_ms),
            })
            &&& asked(PlayerCommandData::SetVolume { volume }) == (Command {
                to,
                data: CommandData::SetVolume(volume),
            })
            &&& asked(PlayerCommandData::SetShuffle { shuffle }) == (Command {
                to,
                data: CommandData::SetShuffle(shuffle),
            })
        }),
{
}

} // verus!
