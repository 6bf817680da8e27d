use nowplaying::artwork::{data_url, encode_thumbnail, thumbnail};
use nowplaying::command::{Command, CommandData};
use nowplaying::macos::{
    now_playing, repeat_state, MacCommand, MacPlayerWorker, NowPlayingInfo, WorkerAction,
    WorkerEvent,
};
use nowplaying::state::Rate;

fn info(rate: Option<f64>) -> NowPlayingInfo {
    NowPlayingInfo {
        title: Some("Song".to_string()),
        artist: Some("Artist".to_string()),
        album: Some("Album".to_string()),
        duration_ms: Some(180_000),
        artwork_mime_type: Some("image/jpeg".to_string()),
        artwork_data: Some(b"Man".to_vec()),
        shuffle_mode: Some(2),
        repeat_mode: Some(1),
        app_name: Some("Music".to_string()),
        playback_rate: rate.map(|r| Rate { bits: r.to_bits() }),
        paused_progress_ms: 1_000,
        running_progress_ms: 2_500,
    }
}

#[test]
fn bytes_become_base64() {
    assert_eq!(encode_thumbnail(&b"".to_vec()), "");
    assert_eq!(encode_thumbnail(&b"f".to_vec()), "Zg==");
    assert_eq!(encode_thumbnail(&b"fo".to_vec()), "Zm8=");
    assert_eq!(encode_thumbnail(&b"foo".to_vec()), "Zm9v");
    assert_eq!(encode_thumbnail(&b"foobar".to_vec()), "Zm9vYmFy");
    assert_eq!(encode_thumbnail(&vec![0xff, 0xef, 0xfe]), "/+/+");
}

/// The text that the definition of Base64 gives, six bits at a time.
fn expected_base64(data: &[u8]) -> String {
    let alphabet = b"ABCDEFGHIJKLMNOPQRSTUVWXYZabcdefghijklmnopqrstuvwxyz0123456789+/";
    let byte = |i: usize| if i < data.len() { data[i] as usize } else { 0 };
    let mut text = String::new();
    for i in 0..(data.len() + 2) / 3 * 4 {
        let first = i / 4 * 3;
        let group = byte(first) * 0x1_0000 + byte(first + 1) * 0x100 + byte(first + 2);
        let bits = [group / 0x4_0000, group / 0x1000 % 64, group / 64 % 64, group % 64][i % 4];
        text.push(if i * 6 < data.len() * 8 { alphabet[bits] as char } else { '=' });
    }
    text
}

#[test]
fn base64_is_as_defined() {
    let mut data: Vec<u8> = Vec::new();
    let mut seed: u32 = 1;
    for _ in 0..600 {
        assert_eq!(encode_thumbnail(&data), expected_base64(&data));
        seed = seed.wrapping_mul(1_664_525).wrapping_add(1_013_904_223);
        data.push((seed >> 24) as u8);
    }
}

#[test]
fn artwork_becomes_a_data_url() {
    assert_eq!(data_url("image/png", "Zm9v"), "data:image/png;base64,Zm9v");
    let mime = Some("image/png".to_string());
    let data = Some(b"foo".to_vec());
    assert_eq!(thumbnail(&data, &mime), Some("data:image/png;base64,Zm9v".to_string()));
    assert_eq!(thumbnail(&None, &mime), None);
    assert_eq!(thumbnail(&data, &None), None);
}

#[test]
fn what_is_told_becomes_the_state() {
    let state = now_playing(info(Some(1.0)));
    assert_eq!(state.track_name, "Song");
    assert_eq!(state.artist, Some(vec!["Artist".to_string()]));
    assert_eq!(state.album, Some("Album".to_string()));
    assert_eq!(state.track_duration, Some(180_000));
    assert_eq!(state.thumbnail, Some("data:image/jpeg;base64,TWFu".to_string()));
    assert_eq!(state.shuffle_state, Some(true));
    assert_eq!(state.repeat_state, Some("track".to_string()));
    assert_eq!(state.device_id, Some("Music".to_string()));
    assert_eq!(state.playback_rate.map(|r| f64::from_bits(r.bits)), Some(1.0));
    assert!(state.is_playing);
    assert_eq!(state.track_progress, Some(2_500));
    assert!(state.can_skip);
    assert!(!state.can_fast_forward && !state.can_change_volume);
    assert!(!state.can_like && !state.can_set_output);
    assert_eq!(state.volume, 0);
    assert_eq!(state.id, None);
    assert_eq!(state.url, None);
}

#[test]
fn playing_is_a_rate_above_zero() {
    for rate in [f64::MIN_POSITIVE, 5e-324, 0.5, 1.0, 2.0, f64::MAX, f64::INFINITY] {
        assert!(rate > 0.0);
        let state = now_playing(info(Some(rate)));
        assert!(state.is_playing);
        assert_eq!(state.track_progress, Some(2_500));
    }
    for rate in [0.0, -0.0, -1.0, f64::MIN, f64::NEG_INFINITY, f64::NAN, -f64::NAN] {
        assert!(!(rate > 0.0));
        let state = now_playing(info(Some(rate)));
        assert!(!state.is_playing);
        assert_eq!(state.track_progress, Some(1_000));
    }
}

#[test]
fn what_is_not_told_is_blank() {
    let state = now_playing(NowPlayingInfo {
        title: None,
        artist: None,
        album: None,
        duration_ms: None,
        artwork_mime_type: None,
        artwork_data: None,
        shuffle_mode: None,
        repeat_mode: None,
        app_name: None,
        playback_rate: None,
        paused_progress_ms: 0,
        running_progress_ms: 9,
    });
    assert_eq!(state.track_name, "");
    assert_eq!(state.artist, None);
    assert_eq!(state.thumbnail, None);
    assert_eq!(state.shuffle_state, None);
    assert_eq!(state.repeat_state, None);
    assert_eq!(state.device_id, None);
    assert!(!state.is_playing);
    assert_eq!(state.track_progress, Some(0));
    assert_eq!(state.playback_rate.map(|r| f64::from_bits(r.bits)), Some(0.0));
}

#[test]
fn repeat_modes_have_words() {
    assert_eq!(repeat_state(0), "off");
    assert_eq!(repeat_state(1), "track");
    assert_eq!(repeat_state(2), "all");
    assert_eq!(repeat_state(3), "off");
}

#[test]
fn mac_commands_have_numbers() {
    assert_eq!(MacCommand::Play.code(), 0);
    assert_eq!(MacCommand::Pause.code(), 1);
    assert_eq!(MacCommand::TogglePlayPause.code(), 2);
    assert_eq!(MacCommand::NextTrack.code(), 4);
    assert_eq!(MacCommand::PreviousTrack.code(), 5);
    assert_eq!(MacCommand::SetRepeatMode.code(), 25);
    assert_eq!(MacCommand::SetShuffle.code(), 26);
}

#[test]
fn mac_worker_acts_on_events() {
    let mut worker = MacPlayerWorker::new();
    let on = |data| {
        let to = Some("ignored".to_string());
        MacPlayerWorker::new().on_event(WorkerEvent::Commanded(Command { to, data }))
    };
    assert!(matches!(worker.on_event(WorkerEvent::Started), WorkerAction::RegisterAndAsk));
    assert!(matches!(worker.on_event(WorkerEvent::Notified), WorkerAction::Ask));
    assert!(matches!(worker.on_event(WorkerEvent::Informed(None)), WorkerAction::Wait));
    assert!(matches!(
        worker.on_event(WorkerEvent::Informed(Some(info(None)))),
        WorkerAction::Report(state) if state.track_name == "Song"
    ));
    assert!(matches!(on(CommandData::Play), WorkerAction::Send(0)));
    assert!(matches!(on(CommandData::Pause), WorkerAction::Send(1)));
    assert!(matches!(on(CommandData::PlayPause), WorkerAction::Send(2)));
    assert!(matches!(on(CommandData::NextTrack), WorkerAction::Send(4)));
    assert!(matches!(on(CommandData::PreviousTrack), WorkerAction::Send(5)));
    assert!(matches!(on(CommandData::SeekTo(1)), WorkerAction::Wait));
    assert!(matches!(on(CommandData::SetVolume(1)), WorkerAction::Wait));
    assert!(matches!(on(CommandData::SetShuffle(true)), WorkerAction::Wait));
    assert!(matches!(worker.on_event(WorkerEvent::Cancelled), WorkerAction::Unregister));
    for event in [
        WorkerEvent::Started,
        WorkerEvent::Notified,
        WorkerEvent::Informed(Some(info(None))),
        WorkerEvent::Commanded(Command { to: None, data: CommandData::Play }),
        WorkerEvent::Cancelled,
    ] {
        assert!(matches!(worker.on_event(event), WorkerAction::Wait));
    }
}
