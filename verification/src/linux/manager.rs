//! The players on the session bus: which names are players, who comes and goes, and which of
//! them a command reaches.

use crate::command::Command;
use crate::registry::{
    addressed, handle_of, has_name, inserted, inserted_all, named_at, names_distinct,
    pair_views, place_of, removed, Registry,
};
use crate::text::{has_prefix, starts_with};
use vstd::prelude::*;

verus! {

/// The name on the bus is that of a media player.
pub open spec fn is_player_name(name: Seq<char>) -> bool {
    has_prefix(name, "org.mpris.MediaPlayer2."@)
}

/// Every entry bears the name of a media player.
pub open spec fn all_players<H>(entries: Seq<(Seq<char>, H)>) -> bool {
    forall|i: int| 0 <= i < entries.len() ==> is_player_name((#[trigger] entries[i]).0)
}

/// A name on the bus has passed from one owner to another; a name without an owner is not in use.
#[derive(Debug)]
pub struct OwnerChange {
    pub name: String,
    pub old_owner: Option<String>,
    pub new_owner: Option<String>,
}

impl OwnerChange {
    /// The change is one of a player that appears or goes away.
    pub open spec fn matters(self) -> bool {
        is_player_name(self.name@) && !(self.old_owner is Some && self.new_owner is Some)
    }
}

/// What is to be done about a change of owner.
#[derive(Debug)]
pub enum OwnerAction<H> {
    /// Nothing.
    Ignore,
    /// The worker of a player that is gone is to be cancelled.
    Cancel(H),
    /// A worker is to be started for the player of this name.
    Connect(String),
}

/// The names of players among names on the bus.
pub fn player_names(names: Vec<String>) -> (res: Vec<String>)
    ensures
        res.deep_view() == names.deep_view().filter(|name: Seq<char>| is_player_name(name)),
{
    let ghost all = names.deep_view();
    let ghost keep = |name: Seq<char>| is_player_name(name);
    let mut res: Vec<String> = Vec::new();
    let mut i: usize = 0;
    proof {
        reveal(Seq::filter);
        assert(all.take(0).filter(keep) =~= Seq::empty());
        assert(res.deep_view() =~= Seq::empty());
    }
    while i < names.len()
        invariant
            i <= names.len(),
            all == names.deep_view(),
            keep == (|name: Seq<char>| is_player_name(name)),
            res.deep_view() == all.take(i as int).filter(keep),
        decreases names.len() - i,
    {
        let ghost before = res.deep_view();
        proof {
            reveal(Seq::filter);
            assert(all.take(i + 1).drop_last() =~= all.take(i as int));
            assert(all.take(i + 1).last() == names@[i as int]@);
        }
        if starts_with(names[i].as_str(), "org.mpris.MediaPlayer2.") {
            res.push(names[i].clone());
            assert(res.deep_view() =~= before.push(names@[i as int]@));
        }
        i += 1;
    }
    assert(all.take(names@.len() as int) =~= all);
    res
}

/// The players that are connected, each with a handle to its worker.
#[derive(Debug)]
pub struct PlayerManager<H> {
    players: Registry<H>,
}

impl<H> View for PlayerManager<H> {
    type V = Seq<(Seq<char>, H)>;

    closed spec fn view(&self) -> Seq<(Seq<char>, H)> {
        self.players@
    }
}

impl<H> PlayerManager<H> {
    /// No player is connected twice, and only players are connected.
    pub open spec fn wf(&self) -> bool {
        names_distinct(self@) && all_players(self@)
    }

    /// A manager of the players that were found at the start.
    pub fn new(initial: Vec<(String, H)>) -> (res: PlayerManager<H>)
        requires
            all_players(pair_views(initial@)),
        ensures
            res.wf(),
            res@ == inserted_all(Seq::empty(), pair_views(initial@)),
    {
        proof {
            lemma_all_players_inserted_all(pair_views(initial@));
        }
        PlayerManager { players: Registry::from_pairs(initial) }
    }

    /// How many players are connected.
    pub fn len(&self) -> (res: usize)
        ensures
            res == self@.len(),
    {
        self.players.len()
    }

    /// Decides what a change of owner calls for. A player that is gone is forgotten at once; a
    /// player that has appeared is entered by `connected`, once its worker runs. A change that
    /// could not be read calls for nothing.
    pub fn handle_change(&mut self, change: Option<OwnerChange>) -> (res: OwnerAction<H>)
        requires
            old(self).wf(),
        ensures
            final(self).wf(),
            match change {
                Some(change) if change.matters() => if change.new_owner is None {
                    &&& final(self)@ == removed(old(self)@, change.name@)
                    &&& match handle_of(old(self)@, change.name@) {
                        Some(handle) => res == OwnerAction::Cancel(handle),
                        None => res is Ignore,
                    }
                } else {
                    &&& final(self)@ == old(self)@
                    &&& res matches OwnerAction::Connect(name) && name@ == change.name@
                },
                _ => final(self)@ == old(self)@ && res is Ignore,
            },
    {
        match change {
            Some(change) => {
                if !starts_with(change.name.as_str(), "org.mpris.MediaPlayer2.") || (
                change.old_owner.is_some() && change.new_owner.is_some()) {
                    return OwnerAction::Ignore;
                }
                if change.new_owner.is_none() {
                    let ghost before = self@;
                    let taken = self.players.remove(change.name.as_str());
                    proof {
                        lemma_all_players_removed(before, change.name@);
                    }
                    return match taken {
                        Some(handle) => OwnerAction::Cancel(handle),
                        None => OwnerAction::Ignore,
                    };
                }
                OwnerAction::Connect(change.name)
            },
            None => OwnerAction::Ignore,
        }
    }

    /// Enters a player whose worker runs, and gives back the worker that it displaces, which is
    /// to be cancelled.
    pub fn connected(&mut self, name: String, handle: H) -> (res: Option<H>)
        requires
            old(self).wf(),
            is_player_name(name@),
        ensures
            final(self).wf(),
            final(self)@ == inserted(old(self)@, name@, handle),
            res == handle_of(old(self)@, name@),
    {
        proof {
            lemma_all_players_inserted(self@, name@, handle);
        }
        self.players.insert(name, handle)
    }

    /// The players that a command is sent to: the one that it names, if that one is connected,
    /// or all of them where it names none.
    pub fn route(&self, command: &Command) -> (res: Vec<&H>)
        requires
            self.wf(),
        ensures
            res@.map_values(|handle: &H| *handle) == addressed(self@, command@.to),
    {
        self.players.recipients(&command.to)
    }
}

proof fn lemma_all_players_inserted<H>(entries: Seq<(Seq<char>, H)>, name: Seq<char>, handle: H)
    requires
        all_players(entries),
        is_player_name(name),
    ensures
        all_players(inserted(entries, name, handle)),
{
    if has_name(entries, name) {
        assert(named_at(entries, name, place_of(entries, name)));
    }
}

proof fn lemma_all_players_removed<H>(entries: Seq<(Seq<char>, H)>, name: Seq<char>)
    requires
        all_players(entries),
    ensures
        all_players(removed(entries, name)),
{
    if has_name(entries, name) {
        let p = place_of(entries, name);
        assert(named_at(entries, name, p));
        let after = entries.remove(p);
        assert forall|i: int| 0 <= i < after.len() implies is_player_name(
            (#[trigger] after[i]).0,
        ) by {
            assert(after[i] == if i < p {
                entries[i]
            } else {
                entries[i + 1]
            });
        }
    }
}

proof fn lemma_all_players_inserted_all<H>(pairs: Seq<(Seq<char>, H)>)
    requires
        all_players(pairs),
    ensures
        all_players(inserted_all(Seq::empty(), pairs)),
    decreases pairs.len(),
{
    if pairs.len() > 0 {
        assert forall|i: int| 0 <= i < pairs.drop_last().len() implies is_player_name(
            (#[trigger] pairs.drop_last()[i]).0,
        ) by {
            assert(pairs.drop_last()[i] == pairs[i]);
        }
        lemma_all_players_inserted_all(pairs.drop_last());
        lemma_all_players_inserted(
            inserted_all(Seq::empty(), pairs.drop_last()),
            pairs.last().0,
            pairs.last().1,
        );
    }
}

} // verus!
