use nowplaying::command::{Command, CommandData};
use nowplaying::state::Rate;
use nowplaying::windows::manager::{ManagerHandlers, SessionManager, Sweep};
use nowplaying::windows::session::{
    ControlsReading, MediaReading, PlaybackReading, PlayerSession, SessionAction, SessionCall,
    SessionEvent, SessionPhase, SessionReading, SessionStatus, TimelineReading,
};

fn unread() -> SessionReading {
    SessionReading { media: None, playback: None, timeline: None }
}

fn full() -> SessionReading {
    SessionReading {
        media: Some(MediaReading {
            title: Some("Song".to_string()),
            album_title: Some("Album".to_string()),
            artist: Some("Artist".to_string()),
        }),
        playback: Some(PlaybackReading {
            status: Some(SessionStatus::Playing),
            rate: Some(Rate { bits: 1.0f64.to_bits() }),
            shuffle_active: Some(true),
            controls: Some(ControlsReading {
                next_enabled: Some(true),
                fast_forward_enabled: Some(true),
            }),
        }),
        timeline: Some(TimelineReading {
            end_time: Some(4_294_967_296 + 5),
            position: Some(3),
        }),
    }
}

fn command(to: Option<&str>, data: CommandData) -> Command {
    Command { to: to.map(|t| t.to_string()), data }
}

fn manager() -> SessionManager<u32> {
    SessionManager::new(ManagerHandlers { sessions_changed: 7, current_session_changed: 8 })
}

fn running() -> PlayerSession {
    let mut session = PlayerSession::new("app".to_string());
    session.on_event(SessionEvent::Read(full()));
    session.on_event(SessionEvent::HandlerAdded { token: 3 });
    session.on_event(SessionEvent::HandlerAdded { token: 4 });
    session
}

#[test]
fn a_full_reading_is_taken_in() {
    let mut session = PlayerSession::new("app".to_string());
    session.fetch_state(full());
    let state = &session.state;
    assert_eq!(state.track_name, "Song");
    assert_eq!(state.album, Some("Album".to_string()));
    assert_eq!(state.artist, Some(vec!["Artist".to_string()]));
    assert!(state.is_playing);
    assert_eq!(state.playback_rate.map(|r| f64::from_bits(r.bits)), Some(1.0));
    assert_eq!(state.shuffle_state, Some(true));
    assert!(state.can_skip);
    assert!(state.can_fast_forward);
    assert!(!state.can_change_volume && !state.can_set_output && !state.can_like);
    assert_eq!(state.track_duration, Some(5));
    assert_eq!(state.track_progress, Some(3));
    assert_eq!(state.device_id, Some("app".to_string()));
}

#[test]
fn what_cannot_be_read_stays() {
    let mut session = PlayerSession::new("app".to_string());
    session.fetch_state(full());
    let before = format!("{:?}", session);
    session.fetch_state(unread());
    assert_eq!(format!("{:?}", session), before);
    session.fetch_state(SessionReading {
        media: None,
        playback: Some(PlaybackReading {
            status: None,
            rate: None,
            shuffle_active: None,
            controls: Some(ControlsReading { next_enabled: None, fast_forward_enabled: None }),
        }),
        timeline: Some(TimelineReading { end_time: None, position: None }),
    });
    assert_eq!(format!("{:?}", session), before);
}

#[test]
fn a_track_without_texts_is_blank() {
    let mut session = PlayerSession::new("app".to_string());
    session.fetch_state(full());
    session.fetch_state(SessionReading {
        media: Some(MediaReading { title: None, album_title: None, artist: None }),
        playback: None,
        timeline: None,
    });
    assert_eq!(session.state.track_name, "");
    assert_eq!(session.state.album, None);
    assert_eq!(session.state.artist, Some(vec!["".to_string()]));
}

#[test]
fn only_the_playing_status_is_playing() {
    for status in [
        SessionStatus::Closed,
        SessionStatus::Opened,
        SessionStatus::Changing,
        SessionStatus::Stopped,
        SessionStatus::Paused,
        SessionStatus::Unknown(9),
    ] {
        let mut session = PlayerSession::new("app".to_string());
        session.fetch_state(full());
        session.fetch_state(SessionReading {
            media: None,
            playback: Some(PlaybackReading {
                status: Some(status),
                rate: None,
                shuffle_active: None,
                controls: None,
            }),
            timeline: None,
        });
        assert!(!session.state.is_playing);
    }
}

#[test]
fn each_command_has_its_session_call() {
    let session = PlayerSession::new("app".to_string());
    let call = |data| session.handle_command(command(None, data));
    assert_eq!(call(CommandData::Play), Some(SessionCall::Play));
    assert_eq!(call(CommandData::Pause), Some(SessionCall::Pause));
    assert_eq!(call(CommandData::PlayPause), Some(SessionCall::TogglePlayPause));
    assert_eq!(call(CommandData::NextTrack), Some(SessionCall::SkipNext));
    assert_eq!(call(CommandData::PreviousTrack), Some(SessionCall::SkipPrevious));
    assert_eq!(call(CommandData::SeekTo(7)), Some(SessionCall::ChangePlaybackPosition(70_000)));
    assert_eq!(call(CommandData::SetVolume(7)), None);
    assert_eq!(call(CommandData::SetShuffle(false)), Some(SessionCall::ChangeShuffleActive(false)));
}

#[test]
fn session_starts_runs_and_ends() {
    let mut session = PlayerSession::new("app".to_string());
    let step = session.on_event(SessionEvent::Read(unread()));
    assert_eq!(step.report.unwrap().device_id, Some("app".to_string()));
    assert_eq!(step.action, SessionAction::AddMediaHandler);
    let step = session.on_event(SessionEvent::HandlerAdded { token: 3 });
    assert!(step.report.is_none());
    assert_eq!(step.action, SessionAction::AddPlaybackHandler);
    let step = session.on_event(SessionEvent::HandlerAdded { token: 4 });
    assert_eq!(step.action, SessionAction::Wait);
    assert_eq!(session.phase, SessionPhase::Running { media: 3, playback: 4 });
    assert_eq!(session.on_event(SessionEvent::Signalled).action, SessionAction::Read);
    let step = session.on_event(SessionEvent::Read(full()));
    assert_eq!(step.report.unwrap().track_name, "Song");
    assert_eq!(step.action, SessionAction::Wait);
    let step = session.on_event(SessionEvent::Commanded(command(None, CommandData::Play)));
    assert_eq!(step.action, SessionAction::Call(SessionCall::Play));
    let step = session.on_event(SessionEvent::Commanded(command(None, CommandData::SetVolume(1))));
    assert_eq!(step.action, SessionAction::Wait);
    assert_eq!(
        session.on_event(SessionEvent::Cancelled).action,
        SessionAction::RemoveHandlers { media: 3, playback: 4 }
    );
    assert_eq!(session.phase, SessionPhase::Ended);
}

#[test]
fn a_handler_that_fails_ends_the_session() {
    let mut session = PlayerSession::new("app".to_string());
    session.on_event(SessionEvent::Read(full()));
    assert_eq!(session.on_event(SessionEvent::HandlerFailed).action, SessionAction::Stop);
    assert_eq!(session.phase, SessionPhase::Ended);

    let mut session = PlayerSession::new("app".to_string());
    session.on_event(SessionEvent::Read(full()));
    session.on_event(SessionEvent::HandlerAdded { token: 3 });
    assert_eq!(session.on_event(SessionEvent::HandlerFailed).action, SessionAction::Stop);
    assert_eq!(session.phase, SessionPhase::Ended);
}

#[test]
fn an_ended_session_does_nothing() {
    let mut session = running();
    session.on_event(SessionEvent::Cancelled);
    let before = format!("{:?}", session);
    for event in [
        SessionEvent::Read(unread()),
        SessionEvent::HandlerAdded { token: 5 },
        SessionEvent::HandlerFailed,
        SessionEvent::Signalled,
        SessionEvent::Commanded(command(None, CommandData::Play)),
        SessionEvent::Cancelled,
    ] {
        let step = session.on_event(event);
        assert!(step.report.is_none());
        assert_eq!(step.action, SessionAction::Wait);
    }
    assert_eq!(format!("{:?}", session), before);
}

#[test]
fn a_walk_matches_the_list() {
    let mut manager = manager();
    let mut sweep = Sweep::new();
    for (id, handle) in [("a", 1), ("b", 2)] {
        assert!(manager.visit(&mut sweep, id.to_string()));
        manager.attach(id.to_string(), handle);
    }
    assert!(manager.finish(sweep).is_empty());
    assert_eq!(manager.len(), 2);

    let mut sweep = Sweep::new();
    assert!(!manager.visit(&mut sweep, "b".to_string()));
    assert!(manager.visit(&mut sweep, "c".to_string()));
    manager.attach("c".to_string(), 3);
    assert!(!manager.visit(&mut sweep, "c".to_string()));
    assert_eq!(manager.finish(sweep), vec![1]);
    assert_eq!(manager.route(&command(None, CommandData::Play)), vec![&2, &3]);
}

#[test]
fn a_broken_walk_forgets_nothing() {
    let mut manager = manager();
    manager.attach("a".to_string(), 1);
    let mut sweep = Sweep::new();
    assert!(manager.visit(&mut sweep, "b".to_string()));
    manager.attach("b".to_string(), 2);
    assert_eq!(manager.end_walk(sweep, Err("unreadable")), Err("unreadable"));
    assert_eq!(manager.len(), 2);
    let mut sweep = Sweep::new();
    assert!(!manager.visit(&mut sweep, "b".to_string()));
    assert_eq!(manager.end_walk::<&str>(sweep, Ok(())), Ok(vec![1]));
    assert_eq!(manager.route(&command(None, CommandData::Play)), vec![&2]);
}

#[test]
fn commands_reach_the_named_session() {
    let mut manager = manager();
    manager.attach("app".to_string(), 1);
    manager.attach("other".to_string(), 2);
    let to = running().state.device_id;
    assert_eq!(manager.route(&Command { to, data: CommandData::Play }), vec![&1]);
    assert!(manager.route(&command(Some("gone"), CommandData::Play)).is_empty());
    let shutdown = manager.shut_down();
    assert_eq!(shutdown.cancel, vec![1, 2]);
    assert_eq!(shutdown.remove_sessions_changed, 7);
    assert_eq!(shutdown.remove_current_session_changed, 8);
    assert_eq!(manager.len(), 0);
    assert!(manager.route(&command(None, CommandData::Play)).is_empty());
}
