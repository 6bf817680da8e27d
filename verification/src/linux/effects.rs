//! What a player on the session bus tells, and what is then reported of it.

use crate::client::{ClientError, NowPlaying};
use crate::command::{Command, CommandData};
use crate::conversion::PlayerCommand;
use crate::lifecycle::{channelled, Lifecycle};
use crate::linux::connection::{
    player_call, ActionView, ConnectionAction, ConnectionEvent, ConnectionView, LoopStatus,
    Metadata, PlaybackStatus, PlayerCall, PlayerConnection, PropertyReads, PropertyValue, Reading,
};
use crate::linux::manager::{is_player_name, OwnerChange};
use crate::registry::{addressed, message_reaches_those_meant, names_distinct};
use crate::state::{NowPlayingView, Rate};
use crate::text::prefix_is_the_beginning;
use vstd::prelude::*;

verus! {

proof fn lemma_keys_differ()
    ensures
        "PlaybackStatus"@.len() == 14,
        "LoopStatus"@.len() == 10,
        "Rate"@.len() == 4,
        "Shuffle"@.len() == 7 && "Shuffle"@[0] == 'S',
        "Metadata"@.len() == 8 && "Metadata"@[0] == 'M',
        "Volume"@.len() == 6,
        "Position"@.len() == 8 && "Position"@[0] == 'P',
        "CanGoNext"@.len() == 9,
        "CanSeek"@.len() == 7 && "CanSeek"@[0] == 'C',
{
    reveal_strlit("PlaybackStatus");
    reveal_strlit("LoopStatus");
    reveal_strlit("Rate");
    reveal_strlit("Shuffle");
    reveal_strlit("Metadata");
    reveal_strlit("Volume");
    reveal_strlit("Position");
    reveal_strlit("CanGoNext");
    reveal_strlit("CanSeek");
}

/// A player is reported to play exactly where its status is "Playing", whatever it was before:
/// not where it is "Paused" or "Stopped". Any other value tells nothing, and nothing else is
/// touched.
pub proof fn only_playing_is_playing(connection: ConnectionView, value: PropertyValue)
    ensures
        ({
            let after = connection.changed("PlaybackStatus"@, value);
            &&& value matches PropertyValue::Text(word) ==> {
                &&& word@ == "Playing"@ ==> after.state.is_playing
                &&& word@ == "Paused"@ ==> !after.state.is_playing
                &&& word@ == "Stopped"@ ==> !after.state.is_playing
                &&& word@ != "Playing"@ && word@ != "Paused"@ && word@ != "Stopped"@ ==> after
                    == connection
            }
            &&& !(value is Text) ==> after == connection
            &&& after == (ConnectionView {
                state: NowPlayingView { is_playing: after.state.is_playing, ..connection.state },
                ..connection
            })
        }),
        connection.applied(
            Reading::PlaybackStatus(Some(PlaybackStatus::Playing)),
        ).state.is_playing,
        !connection.applied(
            Reading::PlaybackStatus(Some(PlaybackStatus::Paused)),
        ).state.is_playing,
        !connection.applied(
            Reading::PlaybackStatus(Some(PlaybackStatus::Stopped)),
        ).state.is_playing,
        connection.applied(Reading::PlaybackStatus(None)) == connection,
{
    lemma_keys_differ();
    reveal_strlit("Playing");
    reveal_strlit("Paused");
    reveal_strlit("Stopped");
    assert("Playing"@[0] == 'P' && "Playing"@.len() == 7);
    assert("Paused"@.len() == 6);
    assert("Stopped"@[0] == 'S' && "Stopped"@.len() == 7);
}

/// The words of the bus for the playback are known, and no others.
pub proof fn words_for_the_playback(word: Seq<char>)
    ensures
        PlaybackStatus::of(word) == Some(PlaybackStatus::Playing) <==> word == "Playing"@,
        PlaybackStatus::of(word) == Some(PlaybackStatus::Paused) <==> word == "Paused"@,
        PlaybackStatus::of(word) == Some(PlaybackStatus::Stopped) <==> word == "Stopped"@,
{
    reveal_strlit("Playing");
    reveal_strlit("Paused");
    reveal_strlit("Stopped");
    assert("Playing"@[0] == 'P' && "Playing"@.len() == 7);
    assert("Paused"@.len() == 6);
    assert("Stopped"@[0] == 'S' && "Stopped"@.len() == 7);
}

/// The words of the bus for what is repeated are known, and no others.
pub proof fn words_for_the_repetition(word: Seq<char>)
    ensures
        LoopStatus::of(word) == Some(LoopStatus::Off) <==> word == "None"@,
        LoopStatus::of(word) == Some(LoopStatus::Track) <==> word == "Track"@,
        LoopStatus::of(word) == Some(LoopStatus::Playlist) <==> word == "Playlist"@,
{
    reveal_strlit("None");
    reveal_strlit("Track");
    reveal_strlit("Playlist");
    assert("None"@.len() == 4 && "Track"@.len() == 5 && "Playlist"@.len() == 8);
}

/// A player that repeats nothing is reported as "off", one that repeats the track as "track", and
/// one that repeats the list as "all". Any other value tells nothing, and nothing else is touched.
pub proof fn repetition_has_its_word(connection: ConnectionView, value: PropertyValue)
    ensures
        ({
            let after = connection.changed("LoopStatus"@, value);
            &&& value matches PropertyValue::Text(word) ==> {
                &&& word@ == "None"@ ==> after.state.repeat_state == Some("off"@)
                &&& word@ == "Track"@ ==> after.state.repeat_state == Some("track"@)
                &&& word@ == "Playlist"@ ==> after.state.repeat_state == Some("all"@)
                &&& word@ != "None"@ && word@ != "Track"@ && word@ != "Playlist"@ ==> after
                    == connection
            }
            &&& !(value is Text) ==> after == connection
            &&& after == (ConnectionView {
                state: NowPlayingView {
                    repeat_state: after.state.repeat_state,
                    ..connection.state
                },
                ..connection
            })
        }),
        connection.applied(Reading::LoopStatus(Some(LoopStatus::Off))).state.repeat_state == Some(
            "off"@,
        ),
        connection.applied(Reading::LoopStatus(Some(LoopStatus::Track))).state.repeat_state
            == Some("track"@),
        connection.applied(Reading::LoopStatus(Some(LoopStatus::Playlist))).state.repeat_state
            == Some("all"@),
        connection.applied(Reading::LoopStatus(None)) == connection,
{
    lemma_keys_differ();
    reveal_strlit("None");
    reveal_strlit("Track");
    reveal_strlit("Playlist");
    assert("None"@.len() == 4 && "Track"@.len() == 5 && "Playlist"@.len() == 8);
}

/// A rate is reported as it was told. A value that is no such number tells nothing, and nothing
/// else is touched.
pub proof fn rate_is_reported(connection: ConnectionView, value: PropertyValue, rate: Rate)
    ensures
        connection.changed("Rate"@, value) == match value {
            PropertyValue::Number { number, .. } => ConnectionView {
                state: NowPlayingView { playback_rate: Some(number), ..connection.state },
                ..connection
            },
            _ => connection,
        },
        connection.applied(Reading::Rate(Some(rate))) == (ConnectionView {
            state: NowPlayingView { playback_rate: Some(rate), ..connection.state },
            ..connection
        }),
        connection.applied(Reading::Rate(None)) == connection,
{
    lemma_keys_differ();
}

/// Whether a player shuffles is reported as it was told. A value that is no such flag tells
/// nothing, and nothing else is touched.
pub proof fn shuffling_is_reported(connection: ConnectionView, value: PropertyValue, flag: bool)
    ensures
        connection.changed("Shuffle"@, value) == match value {
            PropertyValue::Boolean(shuffles) => ConnectionView {
                state: NowPlayingView { shuffle_state: Some(shuffles), ..connection.state },
                ..connection
            },
            _ => connection,
        },
        connection.applied(Reading::Shuffle(Some(flag))) == (ConnectionView {
            state: NowPlayingView { shuffle_state: Some(flag), ..connection.state },
            ..connection
        }),
        connection.applied(Reading::Shuffle(None)) == connection,
{
    lemma_keys_differ();
}

/// A player is reported to skip exactly where it can go to the next track, and to fast forward
/// exactly where it can seek. A value that is no flag tells nothing, and nothing else is touched.
pub proof fn controls_are_reported(connection: ConnectionView, value: PropertyValue, flag: bool)
    ensures
        connection.changed("CanGoNext"@, value) == match value {
            PropertyValue::Boolean(can) => ConnectionView {
                state: NowPlayingView { can_skip: can, ..connection.state },
                ..connection
            },
            _ => connection,
        },
        connection.changed("CanSeek"@, value) == match value {
            PropertyValue::Boolean(can) => ConnectionView {
                state: NowPlayingView { can_fast_forward: can, ..connection.state },
                ..connection
            },
            _ => connection,
        },
        connection.applied(Reading::CanGoNext(Some(flag))) == (ConnectionView {
            state: NowPlayingView { can_skip: flag, ..connection.state },
            ..connection
        }),
        connection.applied(Reading::CanSeek(Some(flag))) == (ConnectionView {
            state: NowPlayingView { can_fast_forward: flag, ..connection.state },
            ..connection
        }),
        connection.applied(Reading::CanGoNext(None)) == connection,
        connection.applied(Reading::CanSeek(None)) == connection,
{
    lemma_keys_differ();
}

/// A volume is reported as the percentage that was told, and as a hundred where it was more. A
/// value that is no such number tells nothing, and nothing else is touched.
pub proof fn volume_is_reported(connection: ConnectionView, value: PropertyValue, told: u8)
    ensures
        ({
            let after = connection.changed("Volume"@, value);
            &&& value matches PropertyValue::Number { percent, .. } ==> {
                &&& percent <= 100 ==> after.state.volume == percent
                &&& percent > 100 ==> after.state.volume == 100
            }
            &&& !(value is Number) ==> after == connection
            &&& after == (ConnectionView {
                state: NowPlayingView { volume: after.state.volume, ..connection.state },
                ..connection
            })
        }),
        ({
            let after = connection.applied(Reading::Volume(Some(told)));
            &&& told <= 100 ==> after.state.volume == told
            &&& told > 100 ==> after.state.volume == 100
        }),
        connection.applied(Reading::Volume(None)) == connection,
{
    lemma_keys_differ();
}

/// A position is reported by its lowest 32 bits. A value that is no such number tells nothing, and
/// nothing else is touched.
pub proof fn position_is_reported(connection: ConnectionView, value: PropertyValue, told: i64)
    ensures
        ({
            let after = connection.changed("Position"@, value);
            &&& value matches PropertyValue::Integer(position) ==> after.state.track_progress
                == Some((position as int % 0x1_0000_0000) as u32)
            &&& !(value is Integer) ==> after == connection
            &&& after == (ConnectionView {
                state: NowPlayingView {
                    track_progress: after.state.track_progress,
                    ..connection.state
                },
                ..connection
            })
        }),
        connection.applied(Reading::Position(Some(told))).state.track_progress == Some(
            (told as int % 0x1_0000_0000) as u32,
        ),
        connection.applied(Reading::Position(None)) == connection,
{
    lemma_keys_differ();
}

/// What is reported of the current track is what its metadata tells, each under its own name, with
/// the player as the device; what the metadata does not tell is blank. A value that is no metadata
/// tells nothing, and nothing else is touched.
pub proof fn track_is_reported(
    connection: ConnectionView,
    value: PropertyValue,
    metadata: Metadata,
)
    ensures
        ({
            let after = connection.applied(Reading::Metadata(Some(metadata)));
            &&& after.state.id == Some(metadata.track_id@)
            &&& after.state.device_id == Some(connection.name)
            &&& after.state.track_name == match metadata.title {
                Some(title) => title@,
                None => Seq::<char>::empty(),
            }
            &&& after.state.track_duration == match metadata.length {
                Some(length) => Some((length as int % 0x1_0000_0000) as u32),
                None => None,
            }
            &&& match (metadata.album, after.state.album) {
                (Some(album), Some(told)) => told == album@,
                (None, None) => true,
                _ => false,
            }
            &&& match (metadata.artist, after.state.artist) {
                (Some(artist), Some(told)) => told.len() == artist@.len() && forall|i: int|
                    0 <= i < told.len() ==> #[trigger] told[i] == artist@[i]@,
                (None, None) => true,
                _ => false,
            }
            &&& match (metadata.art_url, after.state.thumbnail) {
                (Some(url), Some(told)) => told == url@,
                (None, None) => true,
                _ => false,
            }
            &&& match (metadata.url, after.state.url) {
                (Some(url), Some(told)) => told == url@,
                (None, None) => true,
                _ => false,
            }
            &&& after == (ConnectionView {
                state: NowPlayingView {
                    id: after.state.id,
                    device_id: after.state.device_id,
                    track_name: after.state.track_name,
                    track_duration: after.state.track_duration,
                    album: after.state.album,
                    artist: after.state.artist,
                    thumbnail: after.state.thumbnail,
                    url: after.state.url,
                    ..connection.state
                },
                ..connection
            })
        }),
        connection.applied(Reading::Metadata(None)) == connection,
        connection.changed("Metadata"@, value) == match value {
            PropertyValue::Dictionary(told) => connection.applied(Reading::Metadata(Some(told))),
            _ => connection,
        },
{
    lemma_keys_differ();
}

/// Properties other than the nine tell nothing.
pub proof fn other_properties_tell_nothing(
    connection: ConnectionView,
    key: Seq<char>,
    value: PropertyValue,
)
    requires
        key != "PlaybackStatus"@ && key != "LoopStatus"@ && key != "Rate"@ && key != "Shuffle"@,
        key != "Metadata"@ && key != "Volume"@ && key != "Position"@,
        key != "CanGoNext"@ && key != "CanSeek"@,
    ensures
        connection.changed(key, value) == connection,
{
}

/// A signal is taken in change by change, to the last one.
pub proof fn signal_is_taken_in_whole(
    connection: ConnectionView,
    changes: Seq<(Seq<char>, PropertyValue)>,
    key: Seq<char>,
    value: PropertyValue,
)
    ensures
        connection.changed_all(Seq::empty()) == connection,
        connection.changed_all(changes.push((key, value))) == connection.changed_all(
            changes,
        ).changed(key, value),
{
    assert(changes.push((key, value)).drop_last() =~= changes);
}

proof fn lemma_first_four(connection: ConnectionView, reads: PropertyReads)
    ensures
        connection.applied(Reading::PlaybackStatus(reads.playback_status)).applied(
            Reading::LoopStatus(reads.loop_status),
        ).applied(Reading::Rate(reads.rate)).applied(Reading::Shuffle(reads.shuffle)) == (
        ConnectionView {
            state: NowPlayingView {
                is_playing: match reads.playback_status {
                    Some(status) => status == PlaybackStatus::Playing,
                    None => connection.state.is_playing,
                },
                repeat_state: match reads.loop_status {
                    Some(LoopStatus::Off) => Some("off"@),
                    Some(LoopStatus::Track) => Some("track"@),
                    Some(LoopStatus::Playlist) => Some("all"@),
                    None => connection.state.repeat_state,
                },
                playback_rate: if reads.rate is Some {
                    reads.rate
                } else {
                    connection.state.playback_rate
                },
                shuffle_state: if reads.shuffle is Some {
                    reads.shuffle
                } else {
                    connection.state.shuffle_state
                },
                ..connection.state
            },
            ..connection
        }),
{
}

proof fn lemma_last_four(connection: ConnectionView, reads: PropertyReads)
    ensures
        connection.applied(Reading::Volume(reads.volume)).applied(
            Reading::Position(reads.position),
        ).applied(Reading::CanGoNext(reads.can_go_next)).applied(Reading::CanSeek(reads.can_seek))
            == (ConnectionView {
            state: NowPlayingView {
                volume: match reads.volume {
                    Some(percent) => if percent <= 100 {
                        percent
                    } else {
                        100
                    },
                    None => connection.state.volume,
                },
                track_progress: match reads.position {
                    Some(position) => Some((position as int % 0x1_0000_0000) as u32),
                    None => connection.state.track_progress,
                },
                can_skip: match reads.can_go_next {
                    Some(can) => can,
                    None => connection.state.can_skip,
                },
                can_fast_forward: match reads.can_seek {
                    Some(can) => can,
                    None => connection.state.can_fast_forward,
                },
                ..connection.state
            },
            ..connection
        }),
{
}

proof fn lemma_metadata_alone(
    left: ConnectionView,
    right: ConnectionView,
    metadata: Option<Metadata>,
)
    requires
        left.name == right.name,
        left.state.id == right.state.id && left.state.device_id == right.state.device_id,
        left.state.track_name == right.state.track_name && left.state.album == right.state.album,
        left.state.artist == right.state.artist && left.state.url == right.state.url,
        left.state.track_duration == right.state.track_duration,
        left.state.thumbnail == right.state.thumbnail,
    ensures
        ({
            let l = left.applied(Reading::Metadata(metadata)).state;
            let r = right.applied(Reading::Metadata(metadata)).state;
            &&& l.id == r.id && l.device_id == r.device_id && l.track_name == r.track_name
            &&& l.album == r.album && l.artist == r.artist && l.url == r.url
            &&& l.track_duration == r.track_duration && l.thumbnail == r.thumbnail
            &&& right.applied(Reading::Metadata(metadata)) == (ConnectionView {
                state: NowPlayingView {
                    id: r.id,
                    device_id: r.device_id,
                    track_name: r.track_name,
                    album: r.album,
                    artist: r.artist,
                    url: r.url,
                    track_duration: r.track_duration,
                    thumbnail: r.thumbnail,
                    ..right.state
                },
                ..right
            })
        }),
{
}

/// Reading every property of a player reports each of them as it was told, keeps of those that
/// could not be read what was known, and touches nothing else.
pub proof fn fetch_reports_every_property(connection: ConnectionView, reads: PropertyReads)
    ensures
        ({
            let before = connection.state;
            let after = connection.fetched(reads).state;
            &&& after.is_playing == match reads.playback_status {
                Some(PlaybackStatus::Playing) => true,
                Some(PlaybackStatus::Paused) => false,
                Some(PlaybackStatus::Stopped) => false,
                None => before.is_playing,
            }
            &&& after.repeat_state == match reads.loop_status {
                Some(LoopStatus::Off) => Some("off"@),
                Some(LoopStatus::Track) => Some("track"@),
                Some(LoopStatus::Playlist) => Some("all"@),
                None => before.repeat_state,
            }
            &&& after.playback_rate == if reads.rate is Some {
                reads.rate
            } else {
                before.playback_rate
            }
            &&& after.shuffle_state == if reads.shuffle is Some {
                reads.shuffle
            } else {
                before.shuffle_state
            }
            &&& after.volume == match reads.volume {
                Some(percent) => if percent <= 100 {
                    percent
                } else {
                    100
                },
                None => before.volume,
            }
            &&& after.track_progress == match reads.position {
                Some(position) => Some((position as int % 0x1_0000_0000) as u32),
                None => before.track_progress,
            }
            &&& after.can_skip == match reads.can_go_next {
                Some(can) => can,
                None => before.can_skip,
            }
            &&& after.can_fast_forward == match reads.can_seek {
                Some(can) => can,
                None => before.can_fast_forward,
            }
        }),
        ({
            let told = connection.applied(Reading::Metadata(reads.metadata)).state;
            let after = connection.fetched(reads).state;
            &&& after.id == told.id && after.device_id == told.device_id
            &&& after.track_name == told.track_name && after.album == told.album
            &&& after.artist == told.artist && after.track_duration == told.track_duration
            &&& after.thumbnail == told.thumbnail && after.url == told.url
        }),
        ({
            let before = connection.state;
            let after = connection.fetched(reads).state;
            &&& after.playlist == before.playlist && after.playlist_id == before.playlist_id
            &&& after.device == before.device && after.can_like == before.can_like
            &&& after.can_change_volume == before.can_change_volume
            &&& after.can_set_output == before.can_set_output
            &&& connection.fetched(reads).name == connection.name
            &&& connection.fetched(reads).ended == connection.ended
        }),
{
    let c1 = connection.applied(Reading::PlaybackStatus(reads.playback_status));
    let c2 = c1.applied(Reading::LoopStatus(reads.loop_status));
    let c3 = c2.applied(Reading::Rate(reads.rate));
    let c4 = c3.applied(Reading::Shuffle(reads.shuffle));
    let c5 = c4.applied(Reading::Metadata(reads.metadata));
    lemma_first_four(connection, reads);
    lemma_last_four(c5, reads);
    lemma_metadata_alone(connection, c4, reads.metadata);
}

/// Each command is the call of its own name, and bears what the command bears.
pub proof fn each_command_has_its_call(
    track: Option<String>,
    position_ms: u32,
    volume: u8,
    shuffle: bool,
)
    ensures
        player_call(CommandData::Play, track) == PlayerCall::Play,
        player_call(CommandData::Pause, track) == PlayerCall::Pause,
        player_call(CommandData::PlayPause, track) == PlayerCall::PlayPause,
        player_call(CommandData::NextTrack, track) == PlayerCall::Next,
        player_call(CommandData::PreviousTrack, track) == PlayerCall::Previous,
        player_call(CommandData::SeekTo(position_ms), track) == (PlayerCall::SetPosition {
            track,
            position_us: (position_ms * 1000) as i64,
        }),
        player_call(CommandData::SetVolume(volume), track) == PlayerCall::SetVolume(volume),
        player_call(CommandData::SetShuffle(shuffle), track) == PlayerCall::SetShuffle(shuffle),
{
}

/// A worker that has not ended reports the state after every reading and every signal that it can
/// read, makes the call of every command without touching what it knows, waits where a signal
/// cannot be read, and ends exactly when it is cancelled.
pub proof fn worker_reports_what_it_reads(
    connection: ConnectionView,
    reads: PropertyReads,
    changes: Vec<(String, PropertyValue)>,
    command: Command,
    track: Option<String>,
)
    requires
        !connection.ended,
    ensures
        ({
            let event = ConnectionEvent::Fetched(reads);
            let after = connection.after(event);
            &&& after == connection.fetched(reads) && !after.ended
            &&& connection.action_on(event, track) == ActionView::Report(after.state)
        }),
        ({
            let event = ConnectionEvent::Changed(Some(changes));
            let after = connection.after(event);
            let told = Seq::new(changes@.len(), |i: int| (changes@[i].0@, changes@[i].1));
            &&& after == connection.changed_all(told) && after.ended == connection.changed_all(
                told,
            ).ended
            &&& connection.action_on(event, track) == ActionView::Report(after.state)
        }),
        connection.after(ConnectionEvent::Changed(None)) == connection,
        connection.action_on(ConnectionEvent::Changed(None), track) is Wait,
        connection.after(ConnectionEvent::Commanded(command)) == connection,
        connection.action_on(ConnectionEvent::Commanded(command), track) == ActionView::Call(
            player_call(command.data, track),
        ),
        connection.after(ConnectionEvent::Cancelled) == (ConnectionView {
            ended: true,
            ..connection
        }),
        connection.action_on(ConnectionEvent::Cancelled, track) is Stop,
{
    assert(crate::registry::pair_views(changes@) =~= Seq::new(
        changes@.len(),
        |i: int| (changes@[i].0@, changes@[i].1),
    ));
    fetch_reports_every_property(connection, reads);
}

/// What a connection and an action are in mathematical terms tells all that they hold.
pub proof fn views_tell_all(connection: PlayerConnection, action: ConnectionAction)
    ensures
        connection@.name == connection.name@,
        connection@.state == connection.state@,
        connection@.ended == connection.ended,
        action matches ConnectionAction::Report(state) ==> action@ == ActionView::Report(state@),
        action matches ConnectionAction::Call(call) ==> action@ == ActionView::Call(call),
        action is Wait <==> action@ is Wait,
        action is Stop <==> action@ is Stop,
{
}

/// A connection begins with its name and nothing else.
pub proof fn connection_begins_blank(name: Seq<char>)
    ensures
        ConnectionView::fresh(name) == (ConnectionView {
            name,
            state: NowPlayingView::blank(),
            ended: false,
        }),
{
}

/// A name is that of a player exactly where it is the common beginning followed by something, and
/// a change of its owner matters exactly where it has none before or none after.
pub proof fn players_by_their_names(name: Seq<char>, change: OwnerChange)
    ensures
        is_player_name(name) <==> exists|rest: Seq<char>|
            name == #[trigger] ("org.mpris.MediaPlayer2."@ + rest),
        change.matters() <==> (exists|rest: Seq<char>|
            change.name@ == #[trigger] ("org.mpris.MediaPlayer2."@ + rest)) && (
        change.old_owner is None || change.new_owner is None),
{
    prefix_is_the_beginning(name, "org.mpris.MediaPlayer2."@);
    prefix_is_the_beginning(change.name@, "org.mpris.MediaPlayer2."@);
}

/// A request passes from the client through the player to the manager with its device unchanged:
/// where it names a device, it reaches the handle that stands beside that name and no other, or
/// nobody where no player bears the name; where it names none, it reaches every handle.
pub proof fn device_is_kept_on_the_way<H>(
    entries: Seq<(Seq<char>, H)>,
    client: NowPlaying,
    request: PlayerCommand,
    command: Command,
    life: Lifecycle,
    passed: Command,
    i: int,
)
    requires
        names_distinct(entries),
        client.sends(request, Ok(command)),
        channelled(life, command) == Some(passed),
    ensures
        passed.to == request.to,
        request.to matches Some(device) ==> {
            &&& 0 <= i < entries.len() && entries[i].0 == device@ ==> addressed(entries, passed@.to)
                == seq![entries[i].1]
            &&& (forall|j: int|
                0 <= j < entries.len() ==> (#[trigger] entries[j]).0 != device@) ==> addressed(
                entries,
                passed@.to,
            ).len() == 0
        },
        request.to is None ==> {
            &&& addressed(entries, passed@.to).len() == entries.len()
            &&& 0 <= i < entries.len() ==> addressed(entries, passed@.to)[i] == entries[i].1
        },
{
    match request.to {
        Some(device) => message_reaches_those_meant(entries, device@, i),
        None => message_reaches_those_meant(entries, Seq::empty(), i),
    }
}

/// A changed property is read by its name, and its value by its type: a value of another type is
/// a reading that failed, and a property that does not matter is no reading.
pub proof fn properties_are_read_by_name_and_type(key: Seq<char>, value: PropertyValue)
    ensures
        Reading::of("PlaybackStatus"@, value) == Some(
            Reading::PlaybackStatus(
                match value {
                    PropertyValue::Text(word) => PlaybackStatus::of(word@),
                    _ => None,
                },
            ),
        ),
        Reading::of("LoopStatus"@, value) == Some(
            Reading::LoopStatus(
                match value {
                    PropertyValue::Text(word) => LoopStatus::of(word@),
                    _ => None,
                },
            ),
        ),
        Reading::of("Rate"@, value) == Some(
            Reading::Rate(
                match value {
                    PropertyValue::Number { number, .. } => Some(number),
                    _ => None,
                },
            ),
        ),
        Reading::of("Shuffle"@, value) == Some(
            Reading::Shuffle(
                match value {
                    PropertyValue::Boolean(flag) => Some(flag),
                    _ => None,
                },
            ),
        ),
        Reading::of("Metadata"@, value) == Some(
            Reading::Metadata(
                match value {
                    PropertyValue::Dictionary(metadata) => Some(metadata),
                    _ => None,
                },
            ),
        ),
        Reading::of("Volume"@, value) == Some(
            Reading::Volume(
                match value {
                    PropertyValue::Number { percent, .. } => Some(percent),
                    _ => None,
                },
            ),
        ),
        Reading::of("Position"@, value) == Some(
            Reading::Position(
                match value {
                    PropertyValue::Integer(position) => Some(position),
                    _ => None,
                },
            ),
        ),
        Reading::of("CanGoNext"@, value) == Some(
            Reading::CanGoNext(
                match value {
                    PropertyValue::Boolean(flag) => Some(flag),
                    _ => None,
                },
            ),
        ),
        Reading::of("CanSeek"@, value) == Some(
            Reading::CanSeek(
                match value {
                    PropertyValue::Boolean(flag) => Some(flag),
                    _ => None,
                },
            ),
        ),
        key != "PlaybackStatus"@ && key != "LoopStatus"@ && key != "Rate"@ && key != "Shuffle"@
            && key != "Metadata"@ && key != "Volume"@ && key != "Position"@ && key != "CanGoNext"@
            && key != "CanSeek"@ ==> Reading::of(key, value) is None,
{
    lemma_keys_differ();
}

} // verus!
