//! What a player is playing.

use crate::text::{copy_list, copy_text};
use vstd::prelude::*;

verus! {

/// A double-precision number, carried by its IEEE 754 bit pattern.
///
/// The library never computes with such a number. It stores it, hands it on unchanged, and asks
/// of it only whether it is greater than zero.
#[derive(Debug, Clone, Copy, PartialEq, Eq, Structural)]
pub struct Rate {
    pub bits: u64,
}

/// The bit pattern of positive infinity, the largest number there is.
pub const INFINITY_BITS: u64 = 0x7ff0_0000_0000_0000;

impl Rate {
    /// The number is greater than zero: its sign bit is clear, and it is neither zero nor one of
    /// the patterns above infinity, which are no numbers.
    pub open spec fn positive(self) -> bool {
        0 < self.bits <= INFINITY_BITS
    }

    /// The number zero.
    pub fn zero() -> (res: Rate)
        ensures
            res.bits == 0,
    {
        Rate { bits: 0 }
    }

    /// Whether the number is greater than zero.
    pub fn is_positive(&self) -> (res: bool)
        ensures
            res == self.positive(),
    {
        0 < self.bits && self.bits <= INFINITY_BITS
    }
}

/// The state of one player.
#[derive(Debug)]
pub struct NowPlaying {
    pub album: Option<String>,
    pub artist: Option<Vec<String>>,
    pub playlist: Option<String>,
    pub playlist_id: Option<String>,
    pub track_name: String,
    pub shuffle_state: Option<bool>,
    /// "off", "all" or "track".
    pub repeat_state: Option<String>,
    pub is_playing: bool,
    pub can_fast_forward: bool,
    pub can_skip: bool,
    pub can_like: bool,
    pub can_change_volume: bool,
    pub can_set_output: bool,
    pub track_duration: Option<u32>,
    pub track_progress: Option<u32>,
    /// One is normal speed, a half is half speed, two is double speed.
    pub playback_rate: Option<Rate>,
    /// A percentage.
    pub volume: u8,
    /// The name of the device that plays the audio.
    pub device: Option<String>,
    /// Identifies the current song.
    pub id: Option<String>,
    /// Identifies the device; a command that names it is routed there.
    pub device_id: Option<String>,
    /// Where the current song is found.
    pub url: Option<String>,
    /// A path on disk, or a data URL that holds the image.
    pub thumbnail: Option<String>,
}

/// The state of one player, with every text as a sequence of characters.
pub struct NowPlayingView {
    pub album: Option<Seq<char>>,
    pub artist: Option<Seq<Seq<char>>>,
    pub playlist: Option<Seq<char>>,
    pub playlist_id: Option<Seq<char>>,
    pub track_name: Seq<char>,
    pub shuffle_state: Option<bool>,
    pub repeat_state: Option<Seq<char>>,
    pub is_playing: bool,
    pub can_fast_forward: bool,
    pub can_skip: bool,
    pub can_like: bool,
    pub can_change_volume: bool,
    pub can_set_output: bool,
    pub track_duration: Option<u32>,
    pub track_progress: Option<u32>,
    pub playback_rate: Option<Rate>,
    pub volume: u8,
    pub device: Option<Seq<char>>,
    pub id: Option<Seq<char>>,
    pub device_id: Option<Seq<char>>,
    pub url: Option<Seq<char>>,
    pub thumbnail: Option<Seq<char>>,
}

impl View for NowPlaying {
    type V = NowPlayingView;

    open spec fn view(&self) -> NowPlayingView {
        NowPlayingView {
            album: self.album.deep_view(),
            artist: self.artist.deep_view(),
            playlist: self.playlist.deep_view(),
            playlist_id: self.playlist_id.deep_view(),
            track_name: self.track_name@,
            shuffle_state: self.shuffle_state,
            repeat_state: self.repeat_state.deep_view(),
            is_playing: self.is_playing,
            can_fast_forward: self.can_fast_forward,
            can_skip: self.can_skip,
            can_like: self.can_like,
            can_change_volume: self.can_change_volume,
            can_set_output: self.can_set_output,
            track_duration: self.track_duration,
            track_progress: self.track_progress,
            playback_rate: self.playback_rate,
            volume: self.volume,
            device: self.device.deep_view(),
            id: self.id.deep_view(),
            device_id: self.device_id.deep_view(),
            url: self.url.deep_view(),
            thumbnail: self.thumbnail.deep_view(),
        }
    }
}

impl NowPlayingView {
    /// The state of a player of which nothing is known yet.
    pub open spec fn blank() -> NowPlayingView {
        NowPlayingView {
            album: None,
            artist: None,
            playlist: None,
            playlist_id: None,
            track_name: Seq::empty(),
            shuffle_state: None,
            repeat_state: None,
            is_playing: false,
            can_fast_forward: false,
            can_skip: false,
            can_like: false,
            can_change_volume: false,
            can_set_output: false,
            track_duration: None,
            track_progress: None,
            playback_rate: None,
            volume: 0,
            device: None,
            id: None,
            device_id: None,
            url: None,
            thumbnail: None,
        }
    }

    /// The repeat state is unknown, or one of the three words that callers are told of.
    pub open spec fn repeat_is_known(self) -> bool {
        match self.repeat_state {
            None => true,
            Some(word) => word == "off"@ || word == "all"@ || word == "track"@,
        }
    }
}

impl Default for NowPlaying {
    fn default() -> (res: NowPlaying)
        ensures
            res@ == NowPlayingView::blank(),
    {
        NowPlaying {
            album: None,
            artist: None,
            playlist: None,
            playlist_id: None,
            track_name: String::new(),
            shuffle_state: None,
            repeat_state: None,
            is_playing: false,
            can_fast_forward: false,
            can_skip: false,
            can_like: false,
            can_change_volume: false,
            can_set_output: false,
            track_duration: None,
            track_progress: None,
            playback_rate: None,
            volume: 0,
            device: None,
            id: None,
            device_id: None,
            url: None,
            thumbnail: None,
        }
    }
}

impl Clone for NowPlaying {
    fn clone(&self) -> (res: NowPlaying)
        ensures
            res@ == self@,
    {
        NowPlaying {
            album: copy_text(&self.album),
            artist: match &self.artist {
                Some(names) => Some(copy_list(names)),
                None => None,
            },
            playlist: copy_text(&self.playlist),
            playlist_id: copy_text(&self.playlist_id),
            track_name: self.track_name.clone(),
            shuffle_state: self.shuffle_state,
            repeat_state: copy_text(&self.repeat_state),
            is_playing: self.is_playing,
            can_fast_forward: self.can_fast_forward,
            can_skip: self.can_skip,
            can_like: self.can_like,
            can_change_volume: self.can_change_volume,
            can_set_output: self.can_set_output,
            track_duration: self.track_duration,
            track_progress: self.track_progress,
            playback_rate: self.playback_rate,
            volume: self.volume,
            device: copy_text(&self.device),
            id: copy_text(&self.id),
            device_id: copy_text(&self.device_id),
            url: copy_text(&self.url),
            thumbnail: copy_text(&self.thumbnail),
        }
    }
}

/// A number is positive exactly where its sign is clear, it is not zero, and it is a number at
/// all, by the parts of its bit pattern: one bit of sign, eleven of exponent, and the fraction.
pub proof fn positive_by_its_parts(rate: Rate)
    ensures
        ({
            let sign = rate.bits as int / 0x8000_0000_0000_0000;
            let exponent = rate.bits as int / 0x10_0000_0000_0000 % 2048;
            let fraction = rate.bits as int % 0x10_0000_0000_0000;
            rate.positive() <==> {
                &&& sign == 0
                &&& !(exponent == 0 && fraction == 0)
                &&& !(exponent == 2047 && fraction != 0)
            }
        }),
{
    let exponent = rate.bits as int / 0x10_0000_0000_0000;
    let fraction = rate.bits as int % 0x10_0000_0000_0000;
    assert(rate.bits == exponent * 0x10_0000_0000_0000 + fraction);
    assert(INFINITY_BITS == 2047 * 0x10_0000_0000_0000);
}

/// What a state is in mathematical terms leaves no field out, and tells of each field what it
/// holds.
pub proof fn view_tells_every_field(state: NowPlaying)
    ensures
        match (state.album, state@.album) {
            (Some(text), Some(seen)) => seen == text@,
            (None, None) => true,
            _ => false,
        },
        match (state.artist, state@.artist) {
            (Some(names), Some(seen)) => seen.len() == names@.len() && forall|i: int|
                0 <= i < seen.len() ==> #[trigger] seen[i] == names@[i]@,
            (None, None) => true,
            _ => false,
        },
        match (state.playlist, state@.playlist) {
            (Some(text), Some(seen)) => seen == text@,
            (None, None) => true,
            _ => false,
        },
        match (state.playlist_id, state@.playlist_id) {
            (Some(text), Some(seen)) => seen == text@,
            (None, None) => true,
            _ => false,
        },
        state@.track_name == state.track_name@,
        state@.shuffle_state == state.shuffle_state,
        match (state.repeat_state, state@.repeat_state) {
            (Some(text), Some(seen)) => seen == text@,
            (None, None) => true,
            _ => false,
        },
        state@.is_playing == state.is_playing,
        state@.can_fast_forward == state.can_fast_forward,
        state@.can_skip == state.can_skip,
        state@.can_like == state.can_like,
        state@.can_change_volume == state.can_change_volume,
        state@.can_set_output == state.can_set_output,
        state@.track_duration == state.track_duration,
        state@.track_progress == state.track_progress,
        state@.playback_rate == state.playback_rate,
        state@.volume == state.volume,
        match (state.device, state@.device) {
            (Some(text), Some(seen)) => seen == text@,
            (None, None) => true,
            _ => false,
        },
        match (state.id, state@.id) {
            (Some(text), Some(seen)) => seen == text@,
            (None, None) => true,
            _ => false,
        },
        match (state.device_id, state@.device_id) {
            (Some(text), Some(seen)) => seen == text@,
            (None, None) => true,
            _ => false,
        },
        match (state.url, state@.url) {
            (Some(text), Some(seen)) => seen == text@,
            (None, None) => true,
            _ => false,
        },
        match (state.thumbnail, state@.thumbnail) {
            (Some(text), Some(seen)) => seen == text@,
            (None, None) => true,
            _ => false,
        },
{
}

/// Of a player of which nothing is known, nothing is told: no text, no number, and no claim.
pub proof fn blank_tells_nothing()
    ensures
        ({
            let state = NowPlayingView::blank();
            &&& state.album is None && state.artist is None && state.track_name.len() == 0
            &&& state.playlist is None && state.playlist_id is None
            &&& state.shuffle_state is None && state.repeat_state is None && !state.is_playing
            &&& !state.can_fast_forward && !state.can_skip && !state.can_like
            &&& !state.can_change_volume && !state.can_set_output
            &&& state.track_duration is None && state.track_progress is None
            &&& state.playback_rate is None && state.volume == 0
            &&& state.device is None && state.device_id is None && state.id is None
            &&& state.url is None && state.thumbnail is None
        }),
{
}

} // verus!
