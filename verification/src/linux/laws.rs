//! What holds of players on the session bus whatever happens there.

use crate::client::{ClientError, NowPlaying};
use crate::command::{Command, CommandData};
use crate::conversion::{PlayerCommand, PlayerCommandData};
use crate::linux::connection::{
    player_call, ActionView, ConnectionEvent, ConnectionView, PlayerCall, PlayerConnection,
    PropertyReads, PropertyValue, Reading,
};
use crate::linux::manager::{is_player_name, OwnerChange};
use crate::registry::{
    addressed, handle_map, handle_of, handles, has_name, inserted, inserted_all, lemma_inserted,
    lemma_place, lemma_removed, named_at, names_distinct, pair_views, place_of, removed,
};
use vstd::prelude::*;

verus! {

impl ConnectionView {
    /// What holds of every connection: the state bears the player's own name as its device, or
    /// none yet; its repeat word is one of the three that callers know; its volume is a
    /// percentage; and nothing is claimed of what the bus does not tell.
    pub open spec fn consistent(self) -> bool {
        &&& self.state.device_id is None || self.state.device_id == Some(self.name)
        &&& self.state.repeat_is_known()
        &&& self.state.volume <= 100
        &&& self.state.playlist is None
        &&& self.state.playlist_id is None
        &&& self.state.device is None
        &&& !self.state.can_like
        &&& !self.state.can_change_volume
        &&& !self.state.can_set_output
    }
}

/// A fresh connection is consistent.
pub proof fn fresh_connection_is_consistent(name: Seq<char>)
    ensures
        ConnectionView::fresh(name).consistent(),
{
}

/// A reading keeps a connection consistent, and never changes the player's name.
pub proof fn reading_keeps_connection_consistent(connection: ConnectionView, reading: Reading)
    requires
        connection.consistent(),
    ensures
        connection.applied(reading).consistent(),
        connection.applied(reading).name == connection.name,
{
}

/// Changes of properties keep a connection consistent, however many there are.
pub proof fn changes_keep_connection_consistent(
    connection: ConnectionView,
    changes: Seq<(Seq<char>, PropertyValue)>,
)
    requires
        connection.consistent(),
    ensures
        connection.changed_all(changes).consistent(),
        connection.changed_all(changes).name == connection.name,
    decreases changes.len(),
{
    if changes.len() > 0 {
        changes_keep_connection_consistent(connection, changes.drop_last());
    }
}

/// A full reading keeps a connection consistent.
pub proof fn fetch_keeps_connection_consistent(connection: ConnectionView, reads: PropertyReads)
    requires
        connection.consistent(),
    ensures
        connection.fetched(reads).consistent(),
        connection.fetched(reads).name == connection.name,
{
    reading_keeps_connection_consistent(connection, Reading::PlaybackStatus(reads.playback_status));
    let with_status = connection.applied(Reading::PlaybackStatus(reads.playback_status));
    reading_keeps_connection_consistent(with_status, Reading::LoopStatus(reads.loop_status));
    let with_loop = with_status.applied(Reading::LoopStatus(reads.loop_status));
    reading_keeps_connection_consistent(with_loop, Reading::Rate(reads.rate));
    let with_rate = with_loop.applied(Reading::Rate(reads.rate));
    reading_keeps_connection_consistent(with_rate, Reading::Shuffle(reads.shuffle));
    let with_shuffle = with_rate.applied(Reading::Shuffle(reads.shuffle));
    reading_keeps_connection_consistent(with_shuffle, Reading::Metadata(reads.metadata));
    let with_metadata = with_shuffle.applied(Reading::Metadata(reads.metadata));
    reading_keeps_connection_consistent(with_metadata, Reading::Volume(reads.volume));
    let with_volume = with_metadata.applied(Reading::Volume(reads.volume));
    reading_keeps_connection_consistent(with_volume, Reading::Position(reads.position));
    let with_position = with_volume.applied(Reading::Position(reads.position));
    reading_keeps_connection_consistent(with_position, Reading::CanGoNext(reads.can_go_next));
    let with_next = with_position.applied(Reading::CanGoNext(reads.can_go_next));
    reading_keeps_connection_consistent(with_next, Reading::CanSeek(reads.can_seek));
}

/// The volume is a percentage, whatever a player reports.
pub proof fn volume_stays_a_percentage(
    connection: ConnectionView,
    changes: Seq<(Seq<char>, PropertyValue)>,
    reads: PropertyReads,
)
    requires
        connection.state.volume <= 100,
    ensures
        connection.changed_all(changes).state.volume <= 100,
        connection.fetched(reads).state.volume <= 100,
    decreases changes.len(),
{
    if changes.len() > 0 {
        volume_stays_a_percentage(connection, changes.drop_last(), reads);
    }
}

/// Readings of two different properties have the same effect in either order.
proof fn lemma_readings_commute(connection: ConnectionView, left: Reading, right: Reading)
    requires
        left is PlaybackStatus ==> !(right is PlaybackStatus),
        left is LoopStatus ==> !(right is LoopStatus),
        left is Rate ==> !(right is Rate),
        left is Shuffle ==> !(right is Shuffle),
        left is Metadata ==> !(right is Metadata),
        left is Volume ==> !(right is Volume),
        left is Position ==> !(right is Position),
        left is CanGoNext ==> !(right is CanGoNext),
        left is CanSeek ==> !(right is CanSeek),
    ensures
        connection.applied(left).applied(right) == connection.applied(right).applied(left),
{
    match left {
        Reading::PlaybackStatus(_) => {},
        Reading::LoopStatus(_) => {},
        Reading::Rate(_) => {},
        Reading::Shuffle(_) => {},
        Reading::Metadata(_) => {},
        Reading::Volume(_) => {},
        Reading::Position(_) => {},
        Reading::CanGoNext(_) => {},
        Reading::CanSeek(_) => {},
    }
}

/// Changes of two different properties have the same effect in either order.
pub proof fn changes_commute(
    connection: ConnectionView,
    left: (Seq<char>, PropertyValue),
    right: (Seq<char>, PropertyValue),
)
    requires
        left.0 != right.0,
    ensures
        connection.changed(left.0, left.1).changed(right.0, right.1) == connection.changed(
            right.0,
            right.1,
        ).changed(left.0, left.1),
{
    match (Reading::of(left.0, left.1), Reading::of(right.0, right.1)) {
        (Some(first), Some(second)) => lemma_readings_commute(connection, first, second),
        _ => {},
    }
}

proof fn lemma_change_last(
    connection: ConnectionView,
    changes: Seq<(Seq<char>, PropertyValue)>,
    j: int,
)
    requires
        names_distinct(changes),
        0 <= j < changes.len(),
    ensures
        connection.changed_all(changes) == connection.changed_all(changes.remove(j)).changed(
            changes[j].0,
            changes[j].1,
        ),
    decreases changes.len(),
{
    let init = changes.drop_last();
    if j == changes.len() - 1 {
        assert(changes.remove(j) =~= init);
    } else {
        assert forall|a: int, b: int| 0 <= a < b < init.len() implies (#[trigger] init[a]).0 != (
        #[trigger] init[b]).0 by {
            assert(changes[a].0 != changes[b].0);
        }
        lemma_change_last(connection, init, j);
        assert(changes.remove(j).drop_last() =~= init.remove(j));
        assert(changes[j].0 != changes[changes.len() - 1].0);
        changes_commute(connection.changed_all(init.remove(j)), changes[j], changes.last());
    }
}

/// A signal lists changed properties in no particular order, and the order makes no difference:
/// two lists of the same changes, each property once, lead to the same connection.
pub proof fn order_of_changes_is_immaterial(
    connection: ConnectionView,
    left: Seq<(Seq<char>, PropertyValue)>,
    right: Seq<(Seq<char>, PropertyValue)>,
)
    requires
        names_distinct(left),
        names_distinct(right),
        left.to_multiset() == right.to_multiset(),
    ensures
        connection.changed_all(left) == connection.changed_all(right),
    decreases left.len(),
{
    left.to_multiset_ensures();
    right.to_multiset_ensures();
    if left.len() > 0 {
        let change = left.last();
        assert(left.contains(change));
        assert(left.to_multiset().count(change) > 0);
        assert(right.to_multiset().count(change) > 0);
        let j = choose|j: int| 0 <= j < right.len() && right[j] == change;
        lemma_change_last(connection, right, j);
        let rest = right.remove(j);
        assert(left.remove(left.len() - 1) =~= left.drop_last());
        assert forall|a: int, b: int| 0 <= a < b < rest.len() implies (#[trigger] rest[a]).0 != (
        #[trigger] rest[b]).0 by {
            let c = if a < j { a } else { a + 1 };
            let d = if b < j { b } else { b + 1 };
            assert(right[c].0 != right[d].0);
        }
        assert forall|a: int, b: int| 0 <= a < b < left.drop_last().len() implies (
        #[trigger] left.drop_last()[a]).0 != (#[trigger] left.drop_last()[b]).0 by {
            assert(left[a].0 != left[b].0);
        }
        order_of_changes_is_immaterial(connection, left.drop_last(), rest);
    }
}

/// A player that is entered is found under its name; every other name is kept as it was.
pub proof fn connected_player_is_found<H>(
    entries: Seq<(Seq<char>, H)>,
    name: Seq<char>,
    handle: H,
)
    requires
        names_distinct(entries),
    ensures
        handle_of(inserted(entries, name, handle), name) == Some(handle),
        forall|other: Seq<char>| #[trigger]
            handle_of(inserted(entries, name, handle), other) == handle_of(entries, other)
                || other == name,
{
    lemma_inserted(entries, name, handle);
    let after = inserted(entries, name, handle);
    assert(handle_map(after).dom().contains(name));
    assert(handle_map(after)[name] == handle);
    assert forall|other: Seq<char>| #[trigger]
        handle_of(after, other) == handle_of(entries, other) || other == name by {
        assert(handle_map(after).dom().contains(other) == handle_map(entries).insert(
            name,
            handle,
        ).dom().contains(other));
        assert(other != name && has_name(entries, other) ==> handle_map(after)[other]
            == handle_map(entries)[other]);
    }
}

/// A player that goes away is no longer found; every other name is kept as it was.
pub proof fn gone_player_is_forgotten<H>(entries: Seq<(Seq<char>, H)>, name: Seq<char>)
    requires
        names_distinct(entries),
    ensures
        handle_of(removed(entries, name), name) is None,
        forall|other: Seq<char>| #[trigger]
            handle_of(removed(entries, name), other) == handle_of(entries, other) || other
                == name,
{
    lemma_removed(entries, name);
    let after = removed(entries, name);
    assert(!handle_map(after).dom().contains(name));
    assert forall|other: Seq<char>| #[trigger]
        handle_of(after, other) == handle_of(entries, other) || other == name by {
        assert(handle_map(after).dom().contains(other) == handle_map(entries).remove(
            name,
        ).dom().contains(other));
        assert(other != name && has_name(entries, other) ==> handle_map(after)[other]
            == handle_map(entries)[other]);
    }
}

/// A player that appears and goes away again leaves the others exactly as they were.
pub proof fn coming_and_going_changes_nothing<H>(
    entries: Seq<(Seq<char>, H)>,
    name: Seq<char>,
    handle: H,
)
    requires
        names_distinct(entries),
        !has_name(entries, name),
    ensures
        removed(inserted(entries, name, handle), name) == entries,
{
    let after = inserted(entries, name, handle);
    lemma_inserted(entries, name, handle);
    lemma_place(after, entries.len() as int);
    assert(after.remove(entries.len() as int) =~= entries);
}

/// The names in use on the bus after a change of owner.
pub open spec fn bus_after(present: Set<Seq<char>>, change: OwnerChange) -> Set<Seq<char>> {
    if change.new_owner is None {
        present.remove(change.name@)
    } else {
        present.insert(change.name@)
    }
}

/// The names in use on the bus after a list of changes, the first one first. With each change
/// goes the handle of the worker that is started on it, if one is.
pub open spec fn bus_after_all<H>(
    present: Set<Seq<char>>,
    changes: Seq<(OwnerChange, H)>,
) -> Set<Seq<char>>
    decreases changes.len(),
{
    if changes.len() == 0 {
        present
    } else {
        bus_after(bus_after_all(present, changes.drop_last()), changes.last().0)
    }
}

/// The connected players after a change of owner, where the worker of a player that has appeared
/// could be started.
pub open spec fn players_after<H>(
    entries: Seq<(Seq<char>, H)>,
    change: OwnerChange,
    handle: H,
) -> Seq<(Seq<char>, H)> {
    if !change.matters() {
        entries
    } else if change.new_owner is None {
        removed(entries, change.name@)
    } else {
        inserted(entries, change.name@, handle)
    }
}

/// The connected players after a list of changes, the first one first.
pub open spec fn players_after_all<H>(
    entries: Seq<(Seq<char>, H)>,
    changes: Seq<(OwnerChange, H)>,
) -> Seq<(Seq<char>, H)>
    decreases changes.len(),
{
    if changes.len() == 0 {
        entries
    } else {
        players_after(
            players_after_all(entries, changes.drop_last()),
            changes.last().0,
            changes.last().1,
        )
    }
}

/// Exactly the players whose names are in use are connected.
pub open spec fn mirrors<H>(entries: Seq<(Seq<char>, H)>, present: Set<Seq<char>>) -> bool {
    forall|name: Seq<char>| #[trigger]
        has_name(entries, name) <==> is_player_name(name) && present.contains(name)
}

proof fn lemma_kept_names(names: Seq<Seq<char>>, name: Seq<char>)
    ensures
        names.filter(|name: Seq<char>| is_player_name(name)).contains(name) <==> names.contains(
            name,
        ) && is_player_name(name),
    decreases names.len(),
{
    reveal(Seq::filter);
    let keep = |name: Seq<char>| is_player_name(name);
    let kept = names.filter(keep);
    if names.len() > 0 {
        let init = names.drop_last();
        lemma_kept_names(init, name);
        assert(names =~= init.push(names.last()));
        if keep(names.last()) {
            assert(kept =~= init.filter(keep).push(names.last()));
            assert(kept[kept.len() - 1] == names.last());
        }
        if init.filter(keep).contains(name) {
            let i = init.filter(keep).index_of(name);
            assert(kept[i] == name);
        }
        if init.contains(name) {
            let i = init.index_of(name);
            assert(names[i] == name);
        }
        assert(names[names.len() - 1] == names.last());
    }
}

proof fn lemma_inserted_all<H>(pairs: Seq<(Seq<char>, H)>)
    ensures
        names_distinct(inserted_all(Seq::empty(), pairs)),
        forall|name: Seq<char>| #[trigger]
            has_name(inserted_all(Seq::empty(), pairs), name) <==> has_name(pairs, name),
    decreases pairs.len(),
{
    if pairs.len() > 0 {
        let init = pairs.drop_last();
        let before = inserted_all(Seq::<(Seq<char>, H)>::empty(), init);
        let after = inserted_all(Seq::<(Seq<char>, H)>::empty(), pairs);
        let (last, handle) = pairs.last();
        lemma_inserted_all(init);
        lemma_inserted(before, last, handle);
        assert forall|name: Seq<char>| #[trigger] has_name(after, name) <==> has_name(
            pairs,
            name,
        ) by {
            assert(handle_map(after).dom().contains(name) == handle_map(before).insert(
                last,
                handle,
            ).dom().contains(name));
            assert(has_name(after, name) == (name == last || has_name(init, name)));
            if has_name(init, name) {
                let i = place_of(init, name);
                assert(named_at(init, name, i));
                assert(named_at(pairs, name, i));
            }
            if has_name(pairs, name) {
                let i = place_of(pairs, name);
                assert(named_at(pairs, name, i));
                if i < init.len() {
                    assert(named_at(init, name, i));
                }
            }
            assert(named_at(pairs, last, pairs.len() - 1));
        }
    } else {
        let none = Seq::<(Seq<char>, H)>::empty();
        assert(pairs =~= none);
    }
}

/// A manager that starts with the players among the names on the bus mirrors the bus.
pub proof fn start_mirrors_the_bus<H>(names: Seq<Seq<char>>, pairs: Seq<(Seq<char>, H)>)
    requires
        pairs.map_values(|pair: (Seq<char>, H)| pair.0) == names.filter(
            |name: Seq<char>| is_player_name(name),
        ),
    ensures
        names_distinct(inserted_all(Seq::empty(), pairs)),
        mirrors(inserted_all(Seq::empty(), pairs), names.to_set()),
{
    let entries = inserted_all(Seq::<(Seq<char>, H)>::empty(), pairs);
    let found = pairs.map_values(|pair: (Seq<char>, H)| pair.0);
    lemma_inserted_all(pairs);
    assert forall|name: Seq<char>| #[trigger] has_name(entries, name) <==> is_player_name(name)
        && names.to_set().contains(name) by {
        lemma_kept_names(names, name);
        if has_name(pairs, name) {
            let i = place_of(pairs, name);
            assert(named_at(pairs, name, i));
            assert(found[i] == name);
        }
        if found.contains(name) {
            let i = found.index_of(name);
            assert(named_at(pairs, name, i));
        }
        assert(names.to_set().contains(name) == names.contains(name));
    }
}

/// A change of owner keeps the connected players a mirror of the bus. A name that has an old
/// owner is in use.
pub proof fn change_keeps_the_mirror<H>(
    entries: Seq<(Seq<char>, H)>,
    present: Set<Seq<char>>,
    change: OwnerChange,
    handle: H,
)
    requires
        names_distinct(entries),
        mirrors(entries, present),
        change.old_owner is Some ==> present.contains(change.name@),
    ensures
        names_distinct(players_after(entries, change, handle)),
        mirrors(players_after(entries, change, handle), bus_after(present, change)),
{
    let name = change.name@;
    let after = players_after(entries, change, handle);
    lemma_inserted(entries, name, handle);
    lemma_removed(entries, name);
    assert forall|other: Seq<char>| #[trigger] has_name(after, other) <==> is_player_name(other)
        && bus_after(present, change).contains(other) by {
        assert(handle_map(after).dom().contains(other) == has_name(after, other));
        assert(handle_map(entries).dom().contains(other) == has_name(entries, other));
        assert(handle_map(entries).insert(name, handle).dom().contains(other) == (other == name
            || has_name(entries, other)));
        assert(handle_map(entries).remove(name).dom().contains(other) == (other != name
            && has_name(entries, other)));
    }
}

/// However players come and go, exactly the players whose names are in use on the bus are
/// connected, each of them once.
pub proof fn connected_players_mirror_the_bus<H>(
    entries: Seq<(Seq<char>, H)>,
    present: Set<Seq<char>>,
    changes: Seq<(OwnerChange, H)>,
)
    requires
        names_distinct(entries),
        mirrors(entries, present),
        forall|i: int|
            0 <= i < changes.len() && (#[trigger] changes[i]).0.old_owner is Some
                ==> bus_after_all(present, changes.take(i)).contains(changes[i].0.name@),
    ensures
        names_distinct(players_after_all(entries, changes)),
        mirrors(players_after_all(entries, changes), bus_after_all(present, changes)),
    decreases changes.len(),
{
    if changes.len() > 0 {
        let init = changes.drop_last();
        assert forall|i: int|
            0 <= i < init.len() && (#[trigger] init[i]).0.old_owner is Some implies bus_after_all(
            present,
            init.take(i),
        ).contains(init[i].0.name@) by {
            assert(init[i] == changes[i]);
            assert(init.take(i) =~= changes.take(i));
        }
        connected_players_mirror_the_bus(entries, present, init);
        assert(changes.take(changes.len() - 1) =~= init);
        assert(changes[changes.len() - 1] == changes.last());
        change_keeps_the_mirror(
            players_after_all(entries, init),
            bus_after_all(present, init),
            changes.last().0,
            changes.last().1,
        );
    }
}

/// A command that names the device of a reported state reaches the player that reported it, and
/// no other.
pub proof fn device_id_reaches_its_player<H>(
    entries: Seq<(Seq<char>, H)>,
    connection: ConnectionView,
    handle: H,
    device_id: Seq<char>,
)
    requires
        names_distinct(entries),
        connection.consistent(),
        handle_of(entries, connection.name) == Some(handle),
        connection.state.device_id == Some(device_id),
    ensures
        addressed(entries, Some(device_id)) == seq![handle],
{
}

/// The call that a request asks for, where `track` is the current track, if it is known. A
/// position in milliseconds is one in a thousand times as many microseconds from the start of the
/// track, wherever the player is in it.
pub open spec fn requested_call(request: PlayerCommandData, track: Option<String>) -> PlayerCall {
    match request {
        PlayerCommandData::Play => PlayerCall::Play,
        PlayerCommandData::Pause => PlayerCall::Pause,
        PlayerCommandData::PlayPause => PlayerCall::PlayPause,
        PlayerCommandData::NextTrack => PlayerCall::Next,
        PlayerCommandData::PreviousTrack => PlayerCall::Previous,
        PlayerCommandData::SeekTo { position_ms } => PlayerCall::SetPosition {
            track,
            position_us: (position_ms * 1000) as i64,
        },
        PlayerCommandData::SetVolume { volume } => PlayerCall::SetVolume(volume),
        PlayerCommandData::SetShuffle { shuffle } => PlayerCall::SetShuffle(shuffle),
    }
}

/// What a caller asks of a device is carried out by the player that reported the device, and by
/// no other; what a caller asks of no device in particular is carried out by every player. Each
/// player that the command reaches makes the call that was asked for.
pub proof fn request_is_carried_out<H>(
    entries: Seq<(Seq<char>, H)>,
    client: NowPlaying,
    request: PlayerCommand,
    res: Result<Command, ClientError>,
    connection: PlayerConnection,
    handle: H,
)
    requires
        names_distinct(entries),
        client.channel && client.reader,
        client.sends(request, res),
        connection@.consistent(),
        handle_of(entries, connection@.name) == Some(handle),
    ensures
        res matches Ok(command) && {
            &&& !connection.ended ==> connection@.action_on(
                ConnectionEvent::Commanded(command),
                connection.state.id,
            ) == ActionView::Call(requested_call(request.data, connection.state.id))
            &&& request.to is None ==> addressed(entries, command@.to) == handles(entries)
            &&& request.to is Some && request.to.deep_view() == connection@.state.device_id
                ==> addressed(entries, command@.to) == seq![handle]
        },
{
}

/// A request to seek to a position asks the player for exactly that position: its microseconds
/// are a thousand times the milliseconds, without loss, on the track that the player reported.
pub proof fn seeking_is_absolute(position_ms: u32, connection: PlayerConnection)
    ensures
        player_call(CommandData::SeekTo(position_ms), connection.state.id) matches
            PlayerCall::SetPosition { track, position_us } && {
            &&& position_us == position_ms * 1000
            &&& track.deep_view() == connection@.state.id
        },
{
}

/// The connection after a list of events, the first one first.
pub open spec fn after_all(
    connection: ConnectionView,
    events: Seq<ConnectionEvent>,
) -> ConnectionView
    decreases events.len(),
{
    if events.len() == 0 {
        connection
    } else {
        after_all(connection, events.drop_last()).after(events.last())
    }
}

/// A connection stays consistent through any events.
pub proof fn connection_is_always_consistent(name: Seq<char>, events: Seq<ConnectionEvent>)
    ensures
        after_all(ConnectionView::fresh(name), events).consistent(),
        after_all(ConnectionView::fresh(name), events).name == name,
    decreases events.len(),
{
    if events.len() > 0 {
        connection_is_always_consistent(name, events.drop_last());
        let before = after_all(ConnectionView::fresh(name), events.drop_last());
        match events.last() {
            ConnectionEvent::Fetched(reads) => fetch_keeps_connection_consistent(before, reads),
            ConnectionEvent::Changed(Some(changes)) => changes_keep_connection_consistent(
                before,
                pair_views(changes@),
            ),
            _ => {},
        }
    }
}

/// Once a worker has been cancelled, nothing follows: no later event changes what is known of the
/// player, and none leads to a report or a call.
pub proof fn cancelled_connection_is_silent(
    connection: ConnectionView,
    events: Seq<ConnectionEvent>,
    i: int,
    event: ConnectionEvent,
    track: Option<String>,
)
    requires
        0 <= i < events.len(),
        events[i] is Cancelled,
    ensures
        after_all(connection, events) == after_all(connection, events.take(i + 1)),
        after_all(connection, events).ended,
        after_all(connection, events).action_on(event, track) == ActionView::Wait,
    decreases events.len(),
{
    if i < events.len() - 1 {
        let init = events.drop_last();
        cancelled_connection_is_silent(connection, init, i, event, track);
        assert(init.take(i + 1) =~= events.take(i + 1));
    } else {
        assert(events.take(i + 1) =~= events);
    }
}

/// Once the metadata of a track has been read, the state bears a device that commands can name.
pub proof fn metadata_gives_a_device(connection: ConnectionView, reading: Reading)
    requires
        reading matches Reading::Metadata(Some(_)),
    ensures
        connection.applied(reading).state.device_id == Some(connection.name),
{
}

/// A signal that lists all nine properties has the effect of reading them all.
pub proof fn signal_of_all_is_a_fetch(
    connection: ConnectionView,
    status: PropertyValue,
    loop_status: PropertyValue,
    rate: PropertyValue,
    shuffle: PropertyValue,
    metadata: PropertyValue,
    volume: PropertyValue,
    position: PropertyValue,
    can_go_next: PropertyValue,
    can_seek: PropertyValue,
)
    ensures
        connection.changed_all(
            seq![
                ("PlaybackStatus"@, status),
                ("LoopStatus"@, loop_status),
                ("Rate"@, rate),
                ("Shuffle"@, shuffle),
                ("Metadata"@, metadata),
                ("Volume"@, volume),
                ("Position"@, position),
                ("CanGoNext"@, can_go_next),
                ("CanSeek"@, can_seek),
            ],
        ) == connection.fetched(
            PropertyReads {
                playback_status: status.as_status(),
                loop_status: loop_status.as_loop_status(),
                rate: rate.as_number(),
                shuffle: shuffle.as_boolean(),
                metadata: metadata.as_metadata(),
                volume: volume.as_percent(),
                position: position.as_integer(),
                can_go_next: can_go_next.as_boolean(),
                can_seek: can_seek.as_boolean(),
            },
        ),
{
    let nine = seq![
        ("PlaybackStatus"@, status),
        ("LoopStatus"@, loop_status),
        ("Rate"@, rate),
        ("Shuffle"@, shuffle),
        ("Metadata"@, metadata),
        ("Volume"@, volume),
        ("Position"@, position),
        ("CanGoNext"@, can_go_next),
        ("CanSeek"@, can_seek),
    ];
    assert(nine.take(9) =~= nine);
    lemma_step(connection, nine, 0);
    lemma_step(connection, nine, 1);
    lemma_step(connection, nine, 2);
    lemma_step(connection, nine, 3);
    lemma_step(connection, nine, 4);
    lemma_step(connection, nine, 5);
    lemma_step(connection, nine, 6);
    lemma_step(connection, nine, 7);
    lemma_step(connection, nine, 8);
    lemma_key_readings(
        status,
        loop_status,
        rate,
        shuffle,
        metadata,
        volume,
        position,
        can_go_next,
        can_seek,
    );
}

proof fn lemma_step(
    connection: ConnectionView,
    changes: Seq<(Seq<char>, PropertyValue)>,
    i: int,
)
    requires
        0 <= i < changes.len(),
    ensures
        connection.changed_all(changes.take(i + 1)) == connection.changed_all(
            changes.take(i),
        ).changed(changes[i].0, changes[i].1),
        connection.changed_all(changes.take(0)) == connection,
{
    assert(changes.take(i + 1).drop_last() =~= changes.take(i));
}

proof fn lemma_key_readings(
    status: PropertyValue,
    loop_status: PropertyValue,
    rate: PropertyValue,
    shuffle: PropertyValue,
    metadata: PropertyValue,
    volume: PropertyValue,
    position: PropertyValue,
    can_go_next: PropertyValue,
    can_seek: PropertyValue,
)
    ensures
        Reading::of("PlaybackStatus"@, status) == Some(Reading::PlaybackStatus(status.as_status())),
        Reading::of("LoopStatus"@, loop_status) == Some(
            Reading::LoopStatus(loop_status.as_loop_status()),
        ),
        Reading::of("Rate"@, rate) == Some(Reading::Rate(rate.as_number())),
        Reading::of("Shuffle"@, shuffle) == Some(Reading::Shuffle(shuffle.as_boolean())),
        Reading::of("Metadata"@, metadata) == Some(Reading::Metadata(metadata.as_metadata())),
        Reading::of("Volume"@, volume) == Some(Reading::Volume(volume.as_percent())),
        Reading::of("Position"@, position) == Some(Reading::Position(position.as_integer())),
        Reading::of("CanGoNext"@, can_go_next) == Some(
            Reading::CanGoNext(can_go_next.as_boolean()),
        ),
        Reading::of("CanSeek"@, can_seek) == Some(Reading::CanSeek(can_seek.as_boolean())),
{
    reveal_strlit("PlaybackStatus");
    reveal_strlit("LoopStatus");
    reveal_strlit("Rate");
    reveal_strlit("Shuffle");
    reveal_strlit("Metadata");
    reveal_strlit("Volume");
    reveal_strlit("Position");
    reveal_strlit("CanGoNext");
    reveal_strlit("CanSeek");
    assert("PlaybackStatus"@.len() == 14 && "LoopStatus"@.len() == 10 && "Rate"@.len() == 4);
    assert("Shuffle"@.len() == 7 && "Shuffle"@[0] == 'S');
    assert("Metadata"@.len() == 8 && "Metadata"@[0] == 'M');
    assert("Volume"@.len() == 6);
    assert("Position"@.len() == 8 && "Position"@[0] == 'P');
    assert("CanGoNext"@.len() == 9);
    assert("CanSeek"@.len() == 7 && "CanSeek"@[0] == 'C');
}

} // verus!
