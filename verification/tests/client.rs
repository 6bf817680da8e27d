use nowplaying::client::{
    delivered, ClientError, NowPlaying, NowPlayingWorker, SubscriptionAction, SubscriptionEvent,
};
use nowplaying::command::{Command, CommandData};
use nowplaying::conversion::{NowPlayingMessage, PlayerCommand, PlayerCommandData};
use nowplaying::lifecycle::{LinuxPlayer, MacPlayer, WindowsPlayer};
use nowplaying::state;

fn play() -> Command {
    Command { to: None, data: CommandData::Play }
}

fn subscribed() -> NowPlaying {
    let mut client = NowPlaying::new();
    client.subscribe();
    client.worker_started();
    client
}

#[test]
fn commands_before_a_subscription_are_refused() {
    let client = NowPlaying::new();
    let error = client.play(None).unwrap_err();
    assert!(matches!(error, ClientError::WorkerNotInitialized));
    assert_eq!(error.reason(), "worker not initialized");
}

#[test]
fn each_request_is_its_command() {
    let client = subscribed();
    let to = || Some("device".to_string());
    let expect = |data| Command { to: Some("device".to_string()), data };
    assert_eq!(client.play(to()).unwrap(), expect(CommandData::Play));
    assert_eq!(client.pause(to()).unwrap(), expect(CommandData::Pause));
    assert_eq!(client.play_pause(to()).unwrap(), expect(CommandData::PlayPause));
    assert_eq!(client.next_track(to()).unwrap(), expect(CommandData::NextTrack));
    assert_eq!(client.previous_track(to()).unwrap(), expect(CommandData::PreviousTrack));
    assert_eq!(client.seek_to(1234, to()).unwrap(), expect(CommandData::SeekTo(1234)));
    assert_eq!(client.set_volume(80, to()).unwrap(), expect(CommandData::SetVolume(80)));
    assert_eq!(client.set_shuffle(true, to()).unwrap(), expect(CommandData::SetShuffle(true)));
    assert_eq!(client.play(None).unwrap().to, None);
    let command = PlayerCommand { to: None, data: PlayerCommandData::Pause };
    assert_eq!(client.send_command(command).unwrap().data, CommandData::Pause);
}

#[test]
fn a_new_subscription_cancels_the_one_before() {
    let mut client = NowPlaying::new();
    assert!(client.subscribe());
    client.worker_started();
    assert!(client.subscribe());
    client.worker_started();
    assert!(client.unsubscribe());
    assert!(client.cancelled);
    assert!(!client.unsubscribe());
    assert!(!client.subscribe());
    assert!(!client.cancelled);
}

#[test]
fn a_subscription_without_a_worker_leaves_a_channel() {
    let mut client = NowPlaying::new();
    client.subscribe();
    assert!(client.play(None).is_ok());
    client.worker_failed();
    assert!(matches!(client.play(None), Err(ClientError::SendFailed(_))));
    assert!(!client.unsubscribe());
    assert!(matches!(client.play(None), Err(ClientError::SendFailed(_))));
}

#[test]
fn outcomes_are_answered() {
    assert!(delivered(Ok(())).is_ok());
    let error = delivered(Err("channel closed".to_string())).unwrap_err();
    assert_eq!(error.reason(), "failed to send command: channel closed");
    let mut client = subscribed();
    assert!(client.worker_ended(Ok(())).is_ok());
    let error = client.worker_ended(Err("panicked".to_string())).unwrap_err();
    assert_eq!(error.reason(), "failed to join worker: panicked");
}

#[test]
fn commands_after_unsubscribing_fail_to_be_sent() {
    let mut client = subscribed();
    assert!(client.unsubscribe());
    assert!(client.worker_ended(Ok(())).is_ok());
    let error = client.play(None).unwrap_err();
    assert_eq!(error.reason(), "failed to send command: SendError { .. }");
    client.subscribe();
    client.worker_started();
    assert!(client.play(None).is_ok());
}

#[test]
fn a_client_needs_its_callback_but_no_log() {
    let (client, callback, log) = NowPlaying::create::<u8, u8, &str>(Ok(1), Some(Ok(2))).unwrap();
    assert!(!client.channel && !client.reader && !client.cancelled && !client.worker);
    assert_eq!((callback, log), (1, Some(2)));
    assert_eq!(NowPlaying::create::<u8, u8, &str>(Ok(1), Some(Err("log"))).unwrap().2, None);
    assert_eq!(NowPlaying::create::<u8, u8, &str>(Ok(1), None).unwrap().2, None);
    let error = NowPlaying::create::<u8, u8, &str>(Err("callback"), Some(Ok(2))).unwrap_err();
    assert_eq!(error, "callback");
}

#[test]
fn errors_have_reasons() {
    let detail = || "closed".to_string();
    assert_eq!(ClientError::SendFailed(detail()).reason(), "failed to send command: closed");
    assert_eq!(ClientError::JoinFailed(detail()).reason(), "failed to join worker: closed");
    assert_eq!(ClientError::CreateFailed(detail()).reason(), "failed to create player: closed");
    assert_eq!(
        ClientError::SubscribeFailed(detail()).reason(),
        "failed to subscribe to player: closed"
    );
}

#[test]
fn a_worker_needs_a_subscribed_player() {
    assert!(matches!(NowPlayingWorker::init(Ok(7), Ok(())), Ok((_, 7))));
    assert!(matches!(
        NowPlayingWorker::init(Err::<u8, String>("a".to_string()), Ok(())),
        Err(ClientError::CreateFailed(detail)) if detail == "a"
    ));
    assert!(matches!(
        NowPlayingWorker::init(Ok(()), Err("b".to_string())),
        Err(ClientError::SubscribeFailed(detail)) if detail == "b"
    ));
}

#[test]
fn the_worker_forwards_delivers_and_ends() {
    let mut worker = NowPlayingWorker { ended: false };
    assert!(matches!(
        worker.on_event(SubscriptionEvent::Commanded(play())),
        SubscriptionAction::Forward(command) if command == play()
    ));
    let mut told = state::NowPlaying::default();
    told.track_name = "Song".to_string();
    assert!(matches!(
        worker.on_event(SubscriptionEvent::Reported(told)),
        SubscriptionAction::Deliver(message) if message.track_name == "Song"
    ));
    assert!(matches!(
        worker.on_event(SubscriptionEvent::Cancelled),
        SubscriptionAction::Unsubscribe
    ));
    for event in [
        SubscriptionEvent::Commanded(play()),
        SubscriptionEvent::Reported(state::NowPlaying::default()),
        SubscriptionEvent::Cancelled,
    ] {
        assert!(matches!(worker.on_event(event), SubscriptionAction::Wait));
    }
}

#[test]
fn a_message_tells_every_field() {
    let told = state::NowPlaying {
        album: Some("a".to_string()),
        artist: Some(vec!["b".to_string()]),
        playlist: Some("c".to_string()),
        playlist_id: Some("d".to_string()),
        track_name: "e".to_string(),
        shuffle_state: Some(true),
        repeat_state: Some("off".to_string()),
        is_playing: true,
        can_fast_forward: false,
        can_skip: true,
        can_like: false,
        can_change_volume: true,
        can_set_output: false,
        track_duration: Some(1),
        track_progress: Some(2),
        playback_rate: Some(state::Rate { bits: 3 }),
        volume: 4,
        device: Some("f".to_string()),
        id: Some("g".to_string()),
        device_id: Some("h".to_string()),
        url: Some("i".to_string()),
        thumbnail: Some("j".to_string()),
    };
    let fields = |text: String| text[text.find('{').unwrap()..].to_string();
    let copy = told.clone();
    assert_eq!(format!("{:?}", copy), format!("{:?}", told));
    let message = NowPlayingMessage::from(told);
    assert_eq!(fields(format!("{:?}", message)), fields(format!("{:?}", copy)));
}

#[test]
fn requests_that_differ_are_different_commands() {
    let all = [
        PlayerCommandData::Play,
        PlayerCommandData::Pause,
        PlayerCommandData::PlayPause,
        PlayerCommandData::NextTrack,
        PlayerCommandData::PreviousTrack,
        PlayerCommandData::SeekTo { position_ms: 1 },
        PlayerCommandData::SeekTo { position_ms: 2 },
        PlayerCommandData::SetVolume { volume: 1 },
        PlayerCommandData::SetVolume { volume: 2 },
        PlayerCommandData::SetShuffle { shuffle: false },
        PlayerCommandData::SetShuffle { shuffle: true },
    ];
    for left in all {
        for right in all {
            assert_eq!(CommandData::from(left) == CommandData::from(right), left == right);
        }
    }
}

#[test]
fn linux_player_lives_and_dies() {
    let mut player = LinuxPlayer::init();
    assert_eq!(player.send_command(play()), None);
    assert!(!player.subscribe());
    assert_eq!(player.send_command(play()), Some(play()));
    assert!(!player.subscribe());
    player.unsubscribe();
    assert!(player.life.cancelled);
    assert_eq!(player.send_command(play()), Some(play()));
    assert!(player.subscribe());
    assert!(!player.life.cancelled);
}

#[test]
fn windows_player_lives_and_dies() {
    let mut player = WindowsPlayer::init();
    assert_eq!(player.send_command(play()), None);
    assert!(!player.handle_cancel_token_live());
    assert!(!player.subscribe());
    player.unsubscribe();
    assert_eq!(player.send_command(play()), Some(play()));
    assert!(player.handle_cancel_token_live());
    assert!(!player.handle_cancel_token_live());
}

#[test]
fn mac_player_closes_its_channel() {
    let mut player = MacPlayer::init();
    assert_eq!(player.send_command(play()), None);
    assert!(!player.subscribe());
    assert_eq!(player.send_command(play()), Some(play()));
    player.unsubscribe();
    assert_eq!(player.send_command(play()), None);
    assert!(player.subscribe());
    assert_eq!(player.send_command(play()), Some(play()));
}
