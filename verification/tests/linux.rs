use nowplaying::command::{Command, CommandData};
use nowplaying::linux::connection::{
    ConnectionAction, ConnectionEvent, LoopStatus, Metadata, PlaybackStatus, PlayerCall,
    PlayerConnection, PropertyReads, PropertyValue, Reading,
};
use nowplaying::linux::manager::{player_names, OwnerAction, OwnerChange, PlayerManager};
use nowplaying::state::Rate;

const VLC: &str = "org.mpris.MediaPlayer2.vlc";
const SPOTIFY: &str = "org.mpris.MediaPlayer2.spotify";

fn rate(value: f64) -> Rate {
    Rate { bits: value.to_bits() }
}

fn song() -> Metadata {
    Metadata {
        track_id: "/track/1".to_string(),
        title: Some("Song".to_string()),
        length: Some(4_294_967_296 + 7),
        album: Some("Album".to_string()),
        artist: Some(vec!["One".to_string(), "Two".to_string()]),
        art_url: Some("file:///cover.png".to_string()),
        url: Some("https://example.org/song".to_string()),
    }
}

fn nothing_read() -> PropertyReads {
    PropertyReads {
        playback_status: None,
        loop_status: None,
        rate: None,
        shuffle: None,
        metadata: None,
        volume: None,
        position: None,
        can_go_next: None,
        can_seek: None,
    }
}

fn change(name: &str, old: Option<&str>, new: Option<&str>) -> Option<OwnerChange> {
    Some(OwnerChange {
        name: name.to_string(),
        old_owner: old.map(|o| o.to_string()),
        new_owner: new.map(|o| o.to_string()),
    })
}

fn command(to: Option<&str>, data: CommandData) -> Command {
    Command { to: to.map(|t| t.to_string()), data }
}

fn manager() -> PlayerManager<u32> {
    PlayerManager::new(vec![(VLC.to_string(), 1), (SPOTIFY.to_string(), 2)])
}

#[test]
fn words_on_the_bus_are_read() {
    assert_eq!(PlaybackStatus::parse("Playing"), Some(PlaybackStatus::Playing));
    assert_eq!(PlaybackStatus::parse("Paused"), Some(PlaybackStatus::Paused));
    assert_eq!(PlaybackStatus::parse("Stopped"), Some(PlaybackStatus::Stopped));
    assert_eq!(PlaybackStatus::parse("playing"), None);
    assert_eq!(LoopStatus::parse("None"), Some(LoopStatus::Off));
    assert_eq!(LoopStatus::parse("Track"), Some(LoopStatus::Track));
    assert_eq!(LoopStatus::parse("Playlist"), Some(LoopStatus::Playlist));
    assert_eq!(LoopStatus::parse(""), None);
}

#[test]
fn full_fetch_takes_in_every_property() {
    let mut connection = PlayerConnection::new(VLC.to_string());
    connection.full_fetch(PropertyReads {
        playback_status: Some(PlaybackStatus::Playing),
        loop_status: Some(LoopStatus::Playlist),
        rate: Some(rate(1.5)),
        shuffle: Some(true),
        metadata: Some(song()),
        volume: Some(42),
        position: Some(90_000),
        can_go_next: Some(true),
        can_seek: Some(true),
    });
    let state = &connection.state;
    assert!(state.is_playing);
    assert_eq!(state.repeat_state, Some("all".to_string()));
    assert_eq!(state.playback_rate.map(|r| f64::from_bits(r.bits)), Some(1.5));
    assert_eq!(state.shuffle_state, Some(true));
    assert_eq!(state.id, Some("/track/1".to_string()));
    assert_eq!(state.device_id, Some(VLC.to_string()));
    assert_eq!(state.track_name, "Song");
    assert_eq!(state.track_duration, Some(7));
    assert_eq!(state.album, Some("Album".to_string()));
    assert_eq!(state.artist, Some(vec!["One".to_string(), "Two".to_string()]));
    assert_eq!(state.thumbnail, Some("file:///cover.png".to_string()));
    assert_eq!(state.url, Some("https://example.org/song".to_string()));
    assert_eq!(state.volume, 42);
    assert_eq!(state.track_progress, Some(90_000));
    assert!(state.can_skip);
    assert!(state.can_fast_forward);
    assert!(!state.can_like && !state.can_change_volume && !state.can_set_output);
}

#[test]
fn failed_readings_change_nothing() {
    let mut connection = PlayerConnection::new(VLC.to_string());
    connection.apply(Reading::Volume(Some(10)));
    connection.apply(Reading::LoopStatus(Some(LoopStatus::Track)));
    connection.full_fetch(nothing_read());
    assert_eq!(connection.state.volume, 10);
    assert_eq!(connection.state.repeat_state, Some("track".to_string()));
    assert_eq!(connection.state.device_id, None);
    assert_eq!(connection.state.track_name, "");
}

#[test]
fn metadata_replaces_what_the_last_track_had() {
    let mut connection = PlayerConnection::new(VLC.to_string());
    connection.handle_metadata(Some(song()));
    connection.handle_metadata(Some(Metadata {
        track_id: "/track/2".to_string(),
        title: None,
        length: None,
        album: None,
        artist: None,
        art_url: None,
        url: None,
    }));
    assert_eq!(connection.state.id, Some("/track/2".to_string()));
    assert_eq!(connection.state.track_name, "");
    assert_eq!(connection.state.track_duration, None);
    assert_eq!(connection.state.album, None);
    assert_eq!(connection.state.artist, None);
    assert_eq!(connection.state.thumbnail, None);
    assert_eq!(connection.state.url, None);
}

#[test]
fn positions_are_cut_to_their_low_word() {
    let mut connection = PlayerConnection::new(VLC.to_string());
    for position in [0, 1, -1, 4_294_967_295, 4_294_967_296, i64::MAX, i64::MIN] {
        connection.handle_playback_position(Some(position));
        assert_eq!(connection.state.track_progress, Some(position as u32));
    }
}

fn changes(reversed: bool) -> Vec<(String, PropertyValue)> {
    let mut list = vec![
        ("PlaybackStatus".to_string(), PropertyValue::Text("Playing".to_string())),
        ("LoopStatus".to_string(), PropertyValue::Text("None".to_string())),
        ("Rate".to_string(), PropertyValue::Number { number: rate(2.0), percent: 200 }),
        ("Shuffle".to_string(), PropertyValue::Boolean(false)),
        ("Metadata".to_string(), PropertyValue::Dictionary(song())),
        ("Volume".to_string(), PropertyValue::Number { number: rate(0.3), percent: 30 }),
        ("Position".to_string(), PropertyValue::Integer(5)),
        ("CanGoNext".to_string(), PropertyValue::Boolean(true)),
        ("CanSeek".to_string(), PropertyValue::Boolean(true)),
        ("MinimumRate".to_string(), PropertyValue::Number { number: rate(9.0), percent: 255 }),
    ];
    if reversed {
        list.reverse();
    }
    list
}

#[test]
fn changes_are_taken_in_and_reported() {
    let mut connection = PlayerConnection::new(VLC.to_string());
    let reported = connection.handle_change(Some(changes(false))).unwrap();
    assert!(reported.is_playing);
    assert_eq!(reported.repeat_state, Some("off".to_string()));
    assert_eq!(reported.playback_rate, Some(rate(2.0)));
    assert_eq!(reported.shuffle_state, Some(false));
    assert_eq!(reported.track_name, "Song");
    assert_eq!(reported.device_id, Some(VLC.to_string()));
    assert_eq!(reported.volume, 30);
    assert_eq!(reported.track_progress, Some(5));
    assert!(reported.can_skip && reported.can_fast_forward);
}

#[test]
fn order_of_changes_makes_no_difference() {
    let mut left = PlayerConnection::new(VLC.to_string());
    let mut right = PlayerConnection::new(VLC.to_string());
    left.handle_change(Some(changes(false)));
    right.handle_change(Some(changes(true)));
    assert_eq!(format!("{:?}", left), format!("{:?}", right));
}

#[test]
fn values_of_another_type_are_failed_readings() {
    let mut connection = PlayerConnection::new(VLC.to_string());
    connection.handle_change(Some(changes(false)));
    let before = format!("{:?}", connection);
    connection.handle_change(Some(vec![
        ("PlaybackStatus".to_string(), PropertyValue::Boolean(false)),
        ("PlaybackStatus".to_string(), PropertyValue::Text("Dancing".to_string())),
        ("LoopStatus".to_string(), PropertyValue::Integer(1)),
        ("Rate".to_string(), PropertyValue::Integer(1)),
        ("Shuffle".to_string(), PropertyValue::Text("true".to_string())),
        ("Metadata".to_string(), PropertyValue::Other),
        ("Volume".to_string(), PropertyValue::Integer(1)),
        ("Position".to_string(), PropertyValue::Number { number: rate(1.0), percent: 100 }),
        ("CanGoNext".to_string(), PropertyValue::Other),
        ("CanSeek".to_string(), PropertyValue::Integer(0)),
    ]));
    assert_eq!(format!("{:?}", connection), before);
}

#[test]
fn connection_acts_on_events() {
    let mut connection = PlayerConnection::new(VLC.to_string());
    assert!(matches!(
        connection.on_event(ConnectionEvent::Fetched(nothing_read())),
        ConnectionAction::Report(state) if state.track_name.is_empty()
    ));
    assert!(matches!(
        connection.on_event(ConnectionEvent::Changed(Some(changes(false)))),
        ConnectionAction::Report(state) if state.track_name == "Song"
    ));
    assert!(matches!(connection.on_event(ConnectionEvent::Changed(None)), ConnectionAction::Wait));
    assert!(matches!(
        connection.on_event(ConnectionEvent::Commanded(command(None, CommandData::Pause))),
        ConnectionAction::Call(PlayerCall::Pause)
    ));
    assert!(matches!(connection.on_event(ConnectionEvent::Cancelled), ConnectionAction::Stop));
    let before = format!("{:?}", connection);
    for event in [
        ConnectionEvent::Fetched(nothing_read()),
        ConnectionEvent::Changed(Some(vec![("CanSeek".to_string(), PropertyValue::Boolean(false))])),
        ConnectionEvent::Commanded(command(None, CommandData::Play)),
        ConnectionEvent::Cancelled,
    ] {
        assert!(matches!(connection.on_event(event), ConnectionAction::Wait));
    }
    assert_eq!(format!("{:?}", connection), before);
}

#[test]
fn each_command_has_its_call() {
    let connection = PlayerConnection::new(VLC.to_string());
    let call = |data| connection.handle_command(command(None, data));
    assert_eq!(call(CommandData::Play), PlayerCall::Play);
    assert_eq!(call(CommandData::Pause), PlayerCall::Pause);
    assert_eq!(call(CommandData::PlayPause), PlayerCall::PlayPause);
    assert_eq!(call(CommandData::NextTrack), PlayerCall::Next);
    assert_eq!(call(CommandData::PreviousTrack), PlayerCall::Previous);
    assert_eq!(
        call(CommandData::SeekTo(u32::MAX)),
        PlayerCall::SetPosition { track: None, position_us: 4_294_967_295_000 }
    );
    assert_eq!(call(CommandData::SetVolume(55)), PlayerCall::SetVolume(55));
    assert_eq!(call(CommandData::SetShuffle(true)), PlayerCall::SetShuffle(true));
}

#[test]
fn seeking_names_the_track_and_the_position() {
    let mut connection = PlayerConnection::new(VLC.to_string());
    connection.handle_metadata(Some(song()));
    connection.handle_playback_position(Some(5_000_000));
    assert_eq!(
        connection.handle_command(command(None, CommandData::SeekTo(90_000))),
        PlayerCall::SetPosition { track: Some("/track/1".to_string()), position_us: 90_000_000 }
    );
}

#[test]
fn more_than_the_full_volume_is_the_full_volume() {
    let mut connection = PlayerConnection::new(VLC.to_string());
    for (reported, volume) in [(0, 0), (99, 99), (100, 100), (101, 100), (150, 100), (255, 100)] {
        connection.handle_volume(Some(reported));
        assert_eq!(connection.state.volume, volume);
    }
    connection.handle_change(Some(vec![(
        "Volume".to_string(),
        PropertyValue::Number { number: rate(1.5), percent: 150 },
    )]));
    assert_eq!(connection.state.volume, 100);
    connection.handle_volume(None);
    assert_eq!(connection.state.volume, 100);
}

#[test]
fn only_players_are_selected() {
    let names = vec![
        "org.freedesktop.DBus".to_string(),
        VLC.to_string(),
        "org.mpris.MediaPlayer2".to_string(),
        "org.mpris.MediaPlayer2.".to_string(),
        ":1.42".to_string(),
        SPOTIFY.to_string(),
    ];
    assert_eq!(player_names(names), vec![VLC, "org.mpris.MediaPlayer2.", SPOTIFY]);
}

#[test]
fn later_handle_stays_under_a_repeated_name() {
    let manager =
        PlayerManager::new(vec![(VLC.to_string(), 1), (SPOTIFY.to_string(), 2), (VLC.to_string(), 3)]);
    assert_eq!(manager.len(), 2);
    assert_eq!(manager.route(&command(Some(VLC), CommandData::Play)), vec![&3]);
}

#[test]
fn commands_are_routed() {
    let manager = manager();
    assert_eq!(manager.route(&command(None, CommandData::Play)), vec![&1, &2]);
    assert_eq!(manager.route(&command(Some(SPOTIFY), CommandData::Play)), vec![&2]);
    assert!(manager.route(&command(Some("nobody"), CommandData::Play)).is_empty());
}

#[test]
fn reported_device_is_where_commands_go() {
    let manager = manager();
    let mut connection = PlayerConnection::new(SPOTIFY.to_string());
    connection.handle_metadata(Some(song()));
    let to = connection.state.device_id.clone();
    assert_eq!(manager.route(&Command { to, data: CommandData::NextTrack }), vec![&2]);
}

#[test]
fn players_come_and_go() {
    let mut manager = manager();
    let name = "org.mpris.MediaPlayer2.mpv";
    let action = manager.handle_change(change(name, None, Some(":1.9")));
    assert!(matches!(action, OwnerAction::Connect(found) if found == name));
    assert_eq!(manager.len(), 2);
    assert_eq!(manager.connected(name.to_string(), 3), None);
    assert_eq!(manager.len(), 3);
    assert_eq!(manager.connected(name.to_string(), 4), Some(3));
    assert!(matches!(
        manager.handle_change(change(name, Some(":1.9"), None)),
        OwnerAction::Cancel(4)
    ));
    assert_eq!(manager.len(), 2);
    assert!(matches!(manager.handle_change(change(name, Some(":1.9"), None)), OwnerAction::Ignore));
    assert_eq!(manager.route(&command(None, CommandData::Play)), vec![&1, &2]);
}

#[test]
fn other_owner_changes_are_ignored() {
    let mut manager = manager();
    assert!(matches!(manager.handle_change(None), OwnerAction::Ignore));
    assert!(matches!(
        manager.handle_change(change("org.freedesktop.Notifications", None, Some(":1.1"))),
        OwnerAction::Ignore
    ));
    assert!(matches!(
        manager.handle_change(change("org.freedesktop.Notifications", Some(":1.1"), None)),
        OwnerAction::Ignore
    ));
    assert!(matches!(
        manager.handle_change(change(VLC, Some(":1.1"), Some(":1.2"))),
        OwnerAction::Ignore
    ));
    assert_eq!(manager.len(), 2);
}

#[test]
fn connected_players_are_those_on_the_bus() {
    let mut manager: PlayerManager<usize> = PlayerManager::new(Vec::new());
    let mpv = "org.mpris.MediaPlayer2.mpv";
    let changes = [
        (VLC, None, Some(":1.1")),
        (mpv, None, Some(":1.2")),
        ("org.example.Other", None, Some(":1.3")),
        (VLC, Some(":1.1"), Some(":1.4")),
        (mpv, Some(":1.2"), None),
        (SPOTIFY, None, Some(":1.5")),
        (mpv, None, Some(":1.6")),
        (VLC, Some(":1.4"), None),
    ];
    for (handle, (name, old, new)) in changes.into_iter().enumerate() {
        if let OwnerAction::Connect(found) = manager.handle_change(change(name, old, new)) {
            assert_eq!(manager.connected(found, handle), None);
        }
    }
    assert_eq!(manager.route(&command(None, CommandData::Play)), vec![&5, &6]);
    assert!(manager.route(&command(Some(VLC), CommandData::Play)).is_empty());
    assert_eq!(manager.route(&command(Some(mpv), CommandData::Play)), vec![&6]);
}

#[test]
fn a_manager_starts_with_the_players_on_the_bus() {
    let names = vec![":1.1".to_string(), VLC.to_string(), SPOTIFY.to_string(), VLC.to_string()];
    let found = player_names(names);
    let manager = PlayerManager::new(found.into_iter().zip(0u32..).collect());
    assert_eq!(manager.len(), 2);
    assert_eq!(manager.route(&command(Some(VLC), CommandData::Play)), vec![&2]);
    assert_eq!(manager.route(&command(Some(SPOTIFY), CommandData::Play)), vec![&1]);
    assert!(manager.route(&command(Some(":1.1"), CommandData::Play)).is_empty());
}
