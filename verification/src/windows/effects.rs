//! What a media session tells, and what is then reported of it.

use crate::command::{Command, CommandData};
use crate::state::NowPlayingView;
use crate::windows::session::{
    session_call, state_after, PlayerSession, SessionAction, SessionCall, SessionEvent,
    SessionPhase, SessionReading, SessionStatus, SessionView,
};
use vstd::prelude::*;

verus! {

/// What is reported of the current track is what was read of it. Where the track could be read, a
/// title that could not is blank, an album that could not is none, and the artist is a list of
/// exactly one name, blank where it could not be read. Where the track could not be read at all,
/// what was known stays.
pub proof fn track_is_reported(
    state: NowPlayingView,
    session_id: Seq<char>,
    reading: SessionReading,
)
    ensures
        ({
            let after = state_after(state, session_id, reading);
            match reading.media {
                Some(media) => {
                    &&& media.title matches Some(title) ==> after.track_name == title@
                    &&& media.title is None ==> after.track_name.len() == 0
                    &&& media.album_title matches Some(album) ==> after.album == Some(album@)
                    &&& media.album_title is None ==> after.album is None
                    &&& after.artist matches Some(names) && names.len() == 1
                    &&& media.artist matches Some(artist) ==> after.artist->0[0] == artist@
                    &&& media.artist is None ==> after.artist->0[0].len() == 0
                },
                None => after.track_name == state.track_name && after.album == state.album
                    && after.artist == state.artist,
            }
        }),
{
}

/// A session is reported to play exactly where its status is that it plays; a rate and whether it
/// shuffles are reported as they were read. What could not be read stays as it was known.
pub proof fn playback_is_reported(
    state: NowPlayingView,
    session_id: Seq<char>,
    reading: SessionReading,
)
    ensures
        ({
            let after = state_after(state, session_id, reading);
            match reading.playback {
                Some(playback) => {
                    &&& playback.status == Some(SessionStatus::Playing) ==> after.is_playing
                    &&& playback.status matches Some(status) ==> (status is Closed
                        || status is Opened || status is Changing || status is Stopped
                        || status is Paused || status is Unknown) ==> !after.is_playing
                    &&& playback.status is None ==> after.is_playing == state.is_playing
                    &&& playback.rate matches Some(rate) ==> after.playback_rate == Some(rate)
                    &&& playback.rate is None ==> after.playback_rate == state.playback_rate
                    &&& playback.shuffle_active matches Some(shuffles) ==> after.shuffle_state
                        == Some(shuffles)
                    &&& playback.shuffle_active is None ==> after.shuffle_state
                        == state.shuffle_state
                },
                None => after.is_playing == state.is_playing && after.playback_rate
                    == state.playback_rate && after.shuffle_state == state.shuffle_state,
            }
        }),
{
}

/// A session is reported to skip exactly where going to the next track is enabled, and to fast
/// forward exactly where fast forwarding is, each independently of the other. A control that was
/// not told stays as it was known.
pub proof fn controls_are_reported(
    state: NowPlayingView,
    session_id: Seq<char>,
    reading: SessionReading,
)
    ensures
        ({
            let after = state_after(state, session_id, reading);
            match reading.playback {
                Some(playback) => match playback.controls {
                    Some(controls) => {
                        &&& controls.next_enabled matches Some(can) ==> after.can_skip == can
                        &&& controls.next_enabled is None ==> after.can_skip == state.can_skip
                        &&& controls.fast_forward_enabled matches Some(can)
                            ==> after.can_fast_forward == can
                        &&& controls.fast_forward_enabled is None ==> after.can_fast_forward
                            == state.can_fast_forward
                    },
                    None => after.can_skip == state.can_skip && after.can_fast_forward
                        == state.can_fast_forward,
                },
                None => after.can_skip == state.can_skip && after.can_fast_forward
                    == state.can_fast_forward,
            }
        }),
{
}

/// The length of the track is its end on the timeline, and the progress is the position on it,
/// each by its lowest 32 bits. What could not be read stays as it was known.
pub proof fn timeline_is_reported(
    state: NowPlayingView,
    session_id: Seq<char>,
    reading: SessionReading,
)
    ensures
        ({
            let after = state_after(state, session_id, reading);
            match reading.timeline {
                Some(timeline) => {
                    &&& timeline.end_time matches Some(end) ==> after.track_duration == Some(
                        (end as int % 0x1_0000_0000) as u32,
                    )
                    &&& timeline.end_time is None ==> after.track_duration == state.track_duration
                    &&& timeline.position matches Some(position) ==> after.track_progress == Some(
                        (position as int % 0x1_0000_0000) as u32,
                    )
                    &&& timeline.position is None ==> after.track_progress == state.track_progress
                },
                None => after.track_duration == state.track_duration && after.track_progress
                    == state.track_progress,
            }
        }),
{
}

/// Every reading names the session as the device, denies what sessions do not offer, and leaves
/// alone what sessions do not tell.
pub proof fn session_is_the_device(
    state: NowPlayingView,
    session_id: Seq<char>,
    reading: SessionReading,
)
    ensures
        ({
            let after = state_after(state, session_id, reading);
            &&& after.device_id == Some(session_id)
            &&& !after.can_change_volume && !after.can_set_output && !after.can_like
            &&& after.playlist == state.playlist && after.playlist_id == state.playlist_id
            &&& after.repeat_state == state.repeat_state && after.volume == state.volume
            &&& after.device == state.device && after.id == state.id && after.url == state.url
            &&& after.thumbnail == state.thumbnail
        }),
{
}

/// Each command is the call of its own name, and bears what the command bears; a volume has none.
pub proof fn each_command_has_its_call(position_ms: u32, volume: u8, shuffle: bool)
    ensures
        session_call(CommandData::Play) == Some(SessionCall::Play),
        session_call(CommandData::Pause) == Some(SessionCall::Pause),
        session_call(CommandData::PlayPause) == Some(SessionCall::TogglePlayPause),
        session_call(CommandData::NextTrack) == Some(SessionCall::SkipNext),
        session_call(CommandData::PreviousTrack) == Some(SessionCall::SkipPrevious),
        session_call(CommandData::SeekTo(position_ms)) == Some(
            SessionCall::ChangePlaybackPosition((position_ms * 10_000) as i64),
        ),
        session_call(CommandData::SetVolume(volume)) is None,
        session_call(CommandData::SetShuffle(shuffle)) == Some(
            SessionCall::ChangeShuffleActive(shuffle),
        ),
{
}

/// A worker begins by reading, then adds the handler for changes of the track, then the one for
/// changes of the playback, and then runs; it ends without running where one cannot be added.
pub proof fn worker_starts_in_order(
    session_id: Seq<char>,
    state: NowPlayingView,
    reading: SessionReading,
    media: i64,
    playback: i64,
)
    ensures
        ({
            let session = SessionView::fresh(session_id);
            let event = SessionEvent::Read(reading);
            &&& session == (SessionView {
                session_id,
                state: NowPlayingView::blank(),
                phase: SessionPhase::Starting,
            })
            &&& session.action_on(event) is AddMediaHandler && session.reports_on(event)
            &&& session.after(event) == (SessionView {
                session_id,
                state: state_after(NowPlayingView::blank(), session_id, reading),
                phase: SessionPhase::AddingMediaHandler,
            })
        }),
        ({
            let session = SessionView {
                session_id,
                state,
                phase: SessionPhase::AddingMediaHandler,
            };
            let added = SessionEvent::HandlerAdded { token: media };
            &&& session.action_on(added) is AddPlaybackHandler && !session.reports_on(added)
            &&& session.after(added) == (SessionView {
                phase: SessionPhase::AddingPlaybackHandler { media },
                ..session
            })
            &&& session.action_on(SessionEvent::HandlerFailed) is Stop
            &&& session.after(SessionEvent::HandlerFailed) == (SessionView {
                phase: SessionPhase::Ended,
                ..session
            })
        }),
        ({
            let session = SessionView {
                session_id,
                state,
                phase: SessionPhase::AddingPlaybackHandler { media },
            };
            let added = SessionEvent::HandlerAdded { token: playback };
            &&& session.action_on(added) is Wait && !session.reports_on(added)
            &&& session.after(added) == (SessionView {
                phase: SessionPhase::Running { media, playback },
                ..session
            })
            &&& session.action_on(SessionEvent::HandlerFailed) is Stop
            &&& session.after(SessionEvent::HandlerFailed) == (SessionView {
                phase: SessionPhase::Ended,
                ..session
            })
        }),
{
}

/// A running worker reads on every signal and reports what it has read, makes the call of every
/// command that has one without touching what it knows, and on cancellation removes each handler
/// with its own token and ends. Only readings are reported.
pub proof fn running_worker_reports_what_it_reads(
    session: SessionView,
    media: i64,
    playback: i64,
    reading: SessionReading,
    command: Command,
    event: SessionEvent,
)
    requires
        session.phase == (SessionPhase::Running { media, playback }),
    ensures
        session.action_on(SessionEvent::Signalled) is Read,
        session.after(SessionEvent::Signalled) == session,
        session.reports_on(event) <==> event is Read,
        session.action_on(SessionEvent::Read(reading)) is Wait,
        session.after(SessionEvent::Read(reading)) == (SessionView {
            state: state_after(session.state, session.session_id, reading),
            ..session
        }),
        session.after(SessionEvent::Commanded(command)) == session,
        session.action_on(SessionEvent::Commanded(command)) == match session_call(command.data) {
            Some(call) => SessionAction::Call(call),
            None => SessionAction::Wait,
        },
        session.action_on(SessionEvent::Cancelled) == (SessionAction::RemoveHandlers {
            media,
            playback,
        }),
        session.after(SessionEvent::Cancelled) == (SessionView {
            phase: SessionPhase::Ended,
            ..session
        }),
        event is HandlerAdded || event is HandlerFailed ==> session.after(event) == session
            && session.action_on(event) is Wait,
{
}

/// Before it runs, a worker takes no commands, and neither a signal nor a cancellation moves it;
/// what it does not wait for changes nothing.
pub proof fn starting_worker_waits(session: SessionView, event: SessionEvent)
    requires
        session.phase is Starting || session.phase is AddingMediaHandler
            || session.phase is AddingPlaybackHandler,
        event is Commanded || event is Signalled || event is Cancelled || (event is Read
            && !(session.phase is Starting)) || (session.phase is Starting && (
        event is HandlerAdded || event is HandlerFailed)),
    ensures
        session.after(event) == session,
        session.action_on(event) is Wait,
        !session.reports_on(event),
{
}

/// What a session is in mathematical terms tells all that it holds.
pub proof fn view_tells_all(session: PlayerSession)
    ensures
        session@.session_id == session.session_id@,
        session@.state == session.state@,
        session@.phase == session.phase,
{
}

} // verus!
