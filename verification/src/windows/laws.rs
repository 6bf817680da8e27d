//! What holds of media sessions whatever the system lists.

use crate::client::{ClientError, NowPlaying};
use crate::command::Command;
use crate::conversion::{data_of, PlayerCommand, PlayerCommandData};
use crate::registry::{
    addressed, handle_of, handles, has_name, lemma_filtered, lemma_place, name_among, named_at,
    names_distinct, place_of,
};
use crate::windows::session::{
    session_call, SessionAction, SessionCall, SessionEvent, SessionPhase, SessionView,
};
use vstd::prelude::*;

verus! {

impl SessionView {
    /// What holds of every session that has been read: its state bears the session as its device
    /// and claims no control that sessions do not offer; what sessions do not tell is never
    /// claimed.
    pub open spec fn consistent(self) -> bool {
        &&& self.phase != SessionPhase::Starting ==> self.state.device_id == Some(self.session_id)
        &&& !self.state.can_change_volume
        &&& !self.state.can_set_output
        &&& !self.state.can_like
        &&& self.state.repeat_state is None
        &&& self.state.playlist is None
        &&& self.state.playlist_id is None
        &&& self.state.device is None
        &&& self.state.id is None
        &&& self.state.url is None
        &&& self.state.thumbnail is None
        &&& self.state.volume == 0
    }

    /// The session after a list of events, the first one first.
    pub open spec fn after_all(self, events: Seq<SessionEvent>) -> SessionView
        decreases events.len(),
    {
        if events.len() == 0 {
            self
        } else {
            self.after_all(events.drop_last()).after(events.last())
        }
    }
}

/// A session stays consistent through any events, and every state that it reports bears the
/// session as its device.
pub proof fn session_is_always_consistent(
    session_id: Seq<char>,
    events: Seq<SessionEvent>,
    event: SessionEvent,
)
    ensures
        ({
            let session = SessionView::fresh(session_id).after_all(events);
            &&& session.consistent()
            &&& session.session_id == session_id
            &&& session.reports_on(event) ==> session.after(event).state.device_id == Some(
                session_id,
            )
        }),
    decreases events.len(),
{
    if events.len() > 0 {
        session_is_always_consistent(session_id, events.drop_last(), events.last());
    }
}

/// A worker that has come to its end does nothing more, whatever it is told.
pub proof fn ended_session_is_silent(session: SessionView, event: SessionEvent)
    requires
        session.phase == SessionPhase::Ended,
    ensures
        session.after(event) == session,
        session.action_on(event) == SessionAction::Wait,
        !session.reports_on(event),
{
}

/// The events up to place `i` have led to the adding of the handler for changes of the track, and
/// the event at `i` tells that it was added with the token `media`.
pub open spec fn media_handler_added(
    session_id: Seq<char>,
    events: Seq<SessionEvent>,
    i: int,
    media: i64,
) -> bool {
    &&& 0 <= i < events.len()
    &&& SessionView::fresh(session_id).after_all(events.take(i)).phase
        == SessionPhase::AddingMediaHandler
    &&& events[i] == (SessionEvent::HandlerAdded { token: media })
}

/// The events up to place `j` have led to the adding of the handler for changes of the playback,
/// and the event at `j` tells that it was added with the token `playback`.
pub open spec fn playback_handler_added(
    session_id: Seq<char>,
    events: Seq<SessionEvent>,
    j: int,
    playback: i64,
) -> bool {
    &&& 0 <= j < events.len()
    &&& SessionView::fresh(session_id).after_all(events.take(j)).phase is AddingPlaybackHandler
    &&& events[j] == (SessionEvent::HandlerAdded { token: playback })
}

proof fn lemma_media_handler(session_id: Seq<char>, events: Seq<SessionEvent>, media: i64)
    requires
        SessionView::fresh(session_id).after_all(events).phase == (
        SessionPhase::AddingPlaybackHandler { media }),
    ensures
        exists|i: int| media_handler_added(session_id, events, i, media),
    decreases events.len(),
{
    if events.len() > 0 {
        let init = events.drop_last();
        let last = events.len() - 1;
        assert(events.take(last) =~= init);
        if SessionView::fresh(session_id).after_all(init).phase is AddingPlaybackHandler {
            lemma_media_handler(session_id, init, media);
            let i = choose|i: int| media_handler_added(session_id, init, i, media);
            assert(events.take(i) =~= init.take(i));
            assert(media_handler_added(session_id, events, i, media));
        } else {
            assert(media_handler_added(session_id, events, last, media));
        }
    }
}

/// A worker runs only once both handlers have been added, first the one for changes of the track
/// and then the one for changes of the playback, and it holds the token of each.
pub proof fn running_session_has_both_handlers(
    session_id: Seq<char>,
    events: Seq<SessionEvent>,
    media: i64,
    playback: i64,
)
    requires
        SessionView::fresh(session_id).after_all(events).phase == (SessionPhase::Running {
            media,
            playback,
        }),
    ensures
        exists|i: int, j: int|
            i < j && #[trigger] media_handler_added(session_id, events, i, media)
                && #[trigger] playback_handler_added(session_id, events, j, playback),
    decreases events.len(),
{
    if events.len() > 0 {
        let init = events.drop_last();
        let last = events.len() - 1;
        assert(events.take(last) =~= init);
        if SessionView::fresh(session_id).after_all(init).phase is Running {
            running_session_has_both_handlers(session_id, init, media, playback);
            let (i, j) = choose|i: int, j: int|
                i < j && #[trigger] media_handler_added(session_id, init, i, media)
                    && #[trigger] playback_handler_added(session_id, init, j, playback);
            assert(events.take(i) =~= init.take(i));
            assert(events.take(j) =~= init.take(j));
            assert(media_handler_added(session_id, events, i, media));
            assert(playback_handler_added(session_id, events, j, playback));
        } else {
            lemma_media_handler(session_id, init, media);
            let i = choose|i: int| media_handler_added(session_id, init, i, media);
            assert(events.take(i) =~= init.take(i));
            assert(media_handler_added(session_id, events, i, media));
            assert(playback_handler_added(session_id, events, last, playback));
        }
    }
}

/// When a worker is told to remove its handlers, each token is that of the handler's own adding;
/// and the worker has then come to its end.
pub proof fn handlers_are_removed_with_their_own_tokens(
    session_id: Seq<char>,
    events: Seq<SessionEvent>,
    event: SessionEvent,
    media: i64,
    playback: i64,
)
    requires
        SessionView::fresh(session_id).after_all(events).action_on(event) == (
        SessionAction::RemoveHandlers { media, playback }),
    ensures
        exists|i: int, j: int|
            i < j && #[trigger] media_handler_added(session_id, events, i, media)
                && #[trigger] playback_handler_added(session_id, events, j, playback),
        event is Cancelled,
        SessionView::fresh(session_id).after_all(events.push(event)).phase == SessionPhase::Ended,
{
    running_session_has_both_handlers(session_id, events, media, playback);
    assert(events.push(event).drop_last() =~= events);
}

/// A request to seek to a position asks the session for exactly that position: there are ten
/// thousand units of a hundred nanoseconds in a millisecond.
pub proof fn seeking_is_absolute(position_ms: u32)
    ensures
        session_call(data_of(PlayerCommandData::SeekTo { position_ms })) matches Some(
            SessionCall::ChangePlaybackPosition(ticks),
        ) && ticks == position_ms * 10_000,
{
}

/// A command that names the device of a reported state reaches the session that reported it, and
/// no other.
pub proof fn device_id_reaches_its_session<H>(
    entries: Seq<(Seq<char>, H)>,
    session: SessionView,
    handle: H,
)
    requires
        names_distinct(entries),
        session.consistent(),
        session.phase != SessionPhase::Starting,
        handle_of(entries, session.session_id) == Some(handle),
    ensures
        addressed(entries, session.state.device_id) == seq![handle],
{
}

/// The call that a request asks for; none for a volume, which cannot be set through a session. A
/// position in milliseconds is one in ten thousand times as many units of a hundred nanoseconds.
pub open spec fn requested_call(request: PlayerCommandData) -> Option<SessionCall> {
    match request {
        PlayerCommandData::Play => Some(SessionCall::Play),
        PlayerCommandData::Pause => Some(SessionCall::Pause),
        PlayerCommandData::PlayPause => Some(SessionCall::TogglePlayPause),
        PlayerCommandData::NextTrack => Some(SessionCall::SkipNext),
        PlayerCommandData::PreviousTrack => Some(SessionCall::SkipPrevious),
        PlayerCommandData::SeekTo { position_ms } => Some(
            SessionCall::ChangePlaybackPosition((position_ms * 10_000) as i64),
        ),
        PlayerCommandData::SetVolume { .. } => None,
        PlayerCommandData::SetShuffle { shuffle } => Some(
            SessionCall::ChangeShuffleActive(shuffle),
        ),
    }
}

/// What a caller asks of a device is carried out by the session that reported the device, and by
/// no other; what a caller asks of no device in particular is carried out by every session. Each
/// running session that the command reaches makes the call that was asked for, if there is one.
pub proof fn request_is_carried_out<H>(
    entries: Seq<(Seq<char>, H)>,
    client: NowPlaying,
    request: PlayerCommand,
    res: Result<Command, ClientError>,
    session: SessionView,
    handle: H,
)
    requires
        names_distinct(entries),
        client.channel && client.reader,
        client.sends(request, res),
        session.consistent(),
        session.phase is Running,
        handle_of(entries, session.session_id) == Some(handle),
    ensures
        res matches Ok(command) && {
            &&& session.action_on(SessionEvent::Commanded(command)) == match requested_call(
                request.data,
            ) {
                Some(call) => SessionAction::Call(call),
                None => SessionAction::Wait,
            }
            &&& request.to is None ==> addressed(entries, command@.to) == handles(entries)
            &&& request.to.deep_view() == session.state.device_id ==> addressed(
                entries,
                command@.to,
            ) == seq![handle]
        },
{
}

/// The entries after one step of a walk: a session without a worker gets the one that was
/// started for it, if it could be started.
pub open spec fn visited<H>(
    entries: Seq<(Seq<char>, H)>,
    id: Seq<char>,
    started: Option<H>,
) -> Seq<(Seq<char>, H)> {
    match started {
        Some(handle) if !has_name(entries, id) => entries.push((id, handle)),
        _ => entries,
    }
}

/// The entries after a walk through the whole list, the first session first.
pub open spec fn visited_all<H>(
    entries: Seq<(Seq<char>, H)>,
    walk: Seq<(Seq<char>, Option<H>)>,
) -> Seq<(Seq<char>, H)>
    decreases walk.len(),
{
    if walk.len() == 0 {
        entries
    } else {
        visited(visited_all(entries, walk.drop_last()), walk.last().0, walk.last().1)
    }
}

/// The sessions that a walk has seen.
pub open spec fn seen_in<H>(walk: Seq<(Seq<char>, Option<H>)>) -> Seq<Seq<char>> {
    walk.map_values(|step: (Seq<char>, Option<H>)| step.0)
}

/// A walk forgets no session, keeps the worker of every session that had one, and adds only
/// sessions that it has seen.
pub proof fn walk_keeps_workers<H>(
    entries: Seq<(Seq<char>, H)>,
    walk: Seq<(Seq<char>, Option<H>)>,
)
    requires
        names_distinct(entries),
    ensures
        names_distinct(visited_all(entries, walk)),
        forall|id: Seq<char>| #[trigger]
            has_name(entries, id) ==> handle_of(visited_all(entries, walk), id) == handle_of(
                entries,
                id,
            ),
        forall|id: Seq<char>| #[trigger]
            has_name(visited_all(entries, walk), id) ==> has_name(entries, id) || seen_in(
                walk,
            ).contains(id),
        (forall|i: int| 0 <= i < walk.len() ==> (#[trigger] walk[i]).1 is Some) ==> forall|i: int|
            0 <= i < walk.len() ==> has_name(
                visited_all(entries, walk),
                (#[trigger] walk[i]).0,
            ),
    decreases walk.len(),
{
    if walk.len() > 0 {
        let init = walk.drop_last();
        let (id, started) = walk.last();
        walk_keeps_workers(entries, init);
        let mid = visited_all(entries, init);
        let after = visited_all(entries, walk);
        assert(seen_in(walk) =~= seen_in(init).push(id));
        assert(seen_in(walk)[walk.len() - 1] == id);
        assert(seen_in(walk).contains(id));
        lemma_visited(mid, id, started);
        assert forall|other: Seq<char>| #[trigger] has_name(entries, other) implies handle_of(
            after,
            other,
        ) == handle_of(entries, other) by {
            assert(handle_of(mid, other) == handle_of(entries, other));
            assert(has_name(mid, other));
        }
        assert forall|other: Seq<char>| #[trigger] has_name(after, other) implies has_name(
            entries,
            other,
        ) || seen_in(walk).contains(other) by {
            if has_name(mid, other) {
                if seen_in(init).contains(other) {
                    let k = seen_in(init).index_of(other);
                    assert(seen_in(walk)[k] == other);
                }
            } else {
                assert(other == id);
            }
        }
        if forall|i: int| 0 <= i < walk.len() ==> (#[trigger] walk[i]).1 is Some {
            assert forall|i: int| 0 <= i < init.len() implies (#[trigger] init[i]).1 is Some by {
                assert(walk[i].1 is Some);
            }
            assert forall|i: int| 0 <= i < walk.len() implies has_name(
                after,
                (#[trigger] walk[i]).0,
            ) by {
                if i < init.len() {
                    assert(has_name(mid, init[i].0));
                    assert(handle_of(after, walk[i].0) is Some);
                } else {
                    assert(walk[walk.len() - 1].1 is Some);
                }
            }
        }
    }
}

proof fn lemma_visited<H>(entries: Seq<(Seq<char>, H)>, id: Seq<char>, started: Option<H>)
    requires
        names_distinct(entries),
    ensures
        names_distinct(visited(entries, id, started)),
        forall|other: Seq<char>| #[trigger]
            has_name(entries, other) ==> handle_of(visited(entries, id, started), other)
                == handle_of(entries, other),
        forall|other: Seq<char>| #[trigger]
            has_name(visited(entries, id, started), other) ==> has_name(entries, other) || other
                == id,
        started is Some ==> has_name(visited(entries, id, started), id),
{
    let after = visited(entries, id, started);
    if started is Some && !has_name(entries, id) {
        assert forall|i: int, j: int| 0 <= i < j < after.len() implies (#[trigger] after[i]).0 != (
        #[trigger] after[j]).0 by {
            if j == entries.len() {
                assert(!named_at(entries, id, i));
            } else {
                assert(entries[i].0 != entries[j].0);
            }
        }
        assert(named_at(after, id, entries.len() as int));
        assert forall|other: Seq<char>| #[trigger] has_name(entries, other) implies handle_of(
            after,
            other,
        ) == handle_of(entries, other) by {
            let i = place_of(entries, other);
            assert(named_at(entries, other, i));
            assert(after[i] == entries[i]);
            lemma_place(after, i);
        }
        assert forall|other: Seq<char>| #[trigger] has_name(after, other) implies has_name(
            entries,
            other,
        ) || other == id by {
            let i = place_of(after, other);
            assert(named_at(after, other, i));
            if i < entries.len() {
                assert(named_at(entries, other, i));
            }
        }
    }
}

/// After a walk through the whole list in which every missing worker could be started, exactly
/// the listed sessions have a worker; and a listed session that had one before still has the
/// same.
pub proof fn update_matches_the_list<H>(
    entries: Seq<(Seq<char>, H)>,
    walk: Seq<(Seq<char>, Option<H>)>,
)
    requires
        names_distinct(entries),
        forall|i: int| 0 <= i < walk.len() ==> (#[trigger] walk[i]).1 is Some,
    ensures
        ({
            let after = visited_all(entries, walk).filter(name_among(seen_in(walk)));
            &&& forall|id: Seq<char>| #[trigger] has_name(after, id) <==> seen_in(walk).contains(id)
            &&& forall|id: Seq<char>| #[trigger]
                has_name(entries, id) && seen_in(walk).contains(id) ==> handle_of(after, id)
                    == handle_of(entries, id)
        }),
{
    let mid = visited_all(entries, walk);
    let seen = seen_in(walk);
    let after = mid.filter(name_among(seen));
    walk_keeps_workers(entries, walk);
    lemma_filtered(mid, seen);
    assert forall|id: Seq<char>| #[trigger] has_name(after, id) <==> seen.contains(id) by {
        if seen.contains(id) {
            let k = seen.index_of(id);
            assert(walk[k].0 == id);
            assert(has_name(mid, walk[k].0));
        }
    }
    assert forall|id: Seq<char>| #[trigger]
        has_name(entries, id) && seen.contains(id) implies handle_of(after, id) == handle_of(
        entries,
        id,
    ) by {
        assert(handle_of(mid, id) == handle_of(entries, id));
        assert(has_name(mid, id));
    }
}

} // verus!
