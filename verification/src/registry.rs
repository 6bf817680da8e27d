//! The players that are currently connected, each under its own name.

use crate::text::same_text;
use vstd::prelude::*;

verus! {

/// The entry at place `i` bears the name `name`.
pub open spec fn named_at<H>(entries: Seq<(Seq<char>, H)>, name: Seq<char>, i: int) -> bool {
    0 <= i < entries.len() && entries[i].0 == name
}

/// Some entry bears the name `name`.
pub open spec fn has_name<H>(entries: Seq<(Seq<char>, H)>, name: Seq<char>) -> bool {
    exists|i: int| named_at(entries, name, i)
}

/// The place of the entry that bears the name `name`.
pub open spec fn place_of<H>(entries: Seq<(Seq<char>, H)>, name: Seq<char>) -> int {
    choose|i: int| named_at(entries, name, i)
}

/// No two entries bear the same name.
pub open spec fn names_distinct<H>(entries: Seq<(Seq<char>, H)>) -> bool {
    forall|i: int, j: int|
        0 <= i < j < entries.len() ==> (#[trigger] entries[i]).0 != (#[trigger] entries[j]).0
}

/// The handle of each name.
pub open spec fn handle_map<H>(entries: Seq<(Seq<char>, H)>) -> Map<Seq<char>, H> {
    Map::new(
        |name: Seq<char>| has_name(entries, name),
        |name: Seq<char>| entries[place_of(entries, name)].1,
    )
}

/// All handles, in the order of the entries.
pub open spec fn handles<H>(entries: Seq<(Seq<char>, H)>) -> Seq<H> {
    entries.map_values(|entry: (Seq<char>, H)| entry.1)
}

/// The handle kept under `name`, if there is one.
pub open spec fn handle_of<H>(entries: Seq<(Seq<char>, H)>, name: Seq<char>) -> Option<H> {
    if has_name(entries, name) {
        Some(entries[place_of(entries, name)].1)
    } else {
        None
    }
}

/// The entries once `handle` is kept under `name`.
pub open spec fn inserted<H>(
    entries: Seq<(Seq<char>, H)>,
    name: Seq<char>,
    handle: H,
) -> Seq<(Seq<char>, H)> {
    if has_name(entries, name) {
        entries.update(place_of(entries, name), (name, handle))
    } else {
        entries.push((name, handle))
    }
}

/// The entries once nothing is kept under `name`.
pub open spec fn removed<H>(entries: Seq<(Seq<char>, H)>, name: Seq<char>) -> Seq<(Seq<char>, H)> {
    if has_name(entries, name) {
        entries.remove(place_of(entries, name))
    } else {
        entries
    }
}

/// The entries once every pair of `pairs` has been inserted, the first pair first.
pub open spec fn inserted_all<H>(
    entries: Seq<(Seq<char>, H)>,
    pairs: Seq<(Seq<char>, H)>,
) -> Seq<(Seq<char>, H)>
    decreases pairs.len(),
{
    if pairs.len() == 0 {
        entries
    } else {
        inserted(inserted_all(entries, pairs.drop_last()), pairs.last().0, pairs.last().1)
    }
}

/// The handles that a message is meant for: all of them, or the one of the name that it bears.
pub open spec fn addressed<H>(entries: Seq<(Seq<char>, H)>, to: Option<Seq<char>>) -> Seq<H> {
    match to {
        None => handles(entries),
        Some(name) => match handle_of(entries, name) {
            Some(handle) => seq![handle],
            None => Seq::empty(),
        },
    }
}

/// The entry's name is one of `names`.
pub open spec fn name_among<H>(names: Seq<Seq<char>>) -> spec_fn((Seq<char>, H)) -> bool {
    |entry: (Seq<char>, H)| names.contains(entry.0)
}

/// The entry's name is none of `names`.
pub open spec fn name_missing<H>(names: Seq<Seq<char>>) -> spec_fn((Seq<char>, H)) -> bool {
    |entry: (Seq<char>, H)| !names.contains(entry.0)
}

/// Where names are distinct, an entry's place is determined by its name.
pub proof fn lemma_place<H>(entries: Seq<(Seq<char>, H)>, i: int)
    requires
        names_distinct(entries),
        0 <= i < entries.len(),
    ensures
        has_name(entries, entries[i].0),
        place_of(entries, entries[i].0) == i,
{
    assert(named_at(entries, entries[i].0, i));
    let j = place_of(entries, entries[i].0);
    assert(named_at(entries, entries[i].0, j));
    if i < j {
        assert(entries[i].0 != entries[j].0);
    } else if j < i {
        assert(entries[j].0 != entries[i].0);
    }
}

/// Inserting keeps names distinct and sets exactly the one name.
pub proof fn lemma_inserted<H>(entries: Seq<(Seq<char>, H)>, name: Seq<char>, handle: H)
    requires
        names_distinct(entries),
    ensures
        names_distinct(inserted(entries, name, handle)),
        handle_map(inserted(entries, name, handle)) == handle_map(entries).insert(name, handle),
{
    let after = inserted(entries, name, handle);
    if has_name(entries, name) {
        let p = place_of(entries, name);
        assert(named_at(entries, name, p));
        assert forall|i: int, j: int| 0 <= i < j < after.len() implies (#[trigger] after[i]).0 != (
        #[trigger] after[j]).0 by {
            assert(after[i].0 == entries[i].0);
            assert(after[j].0 == entries[j].0);
        }
    } else {
        assert forall|i: int, j: int| 0 <= i < j < after.len() implies (#[trigger] after[i]).0 != (
        #[trigger] after[j]).0 by {
            if j == entries.len() {
                assert(!named_at(entries, name, i));
            } else {
                assert(entries[i].0 != entries[j].0);
            }
        }
    }
    let left = handle_map(after);
    let right = handle_map(entries).insert(name, handle);
    assert forall|n: Seq<char>| left.dom().contains(n) == right.dom().contains(n) by {
        if has_name(after, n) {
            let i = place_of(after, n);
            assert(named_at(after, n, i));
            if i < entries.len() {
                assert(named_at(entries, n, i));
            }
        }
        if has_name(entries, n) {
            let i = place_of(entries, n);
            assert(named_at(entries, n, i));
            assert(named_at(after, n, i));
        }
        if n == name {
            if has_name(entries, name) {
                assert(named_at(after, name, place_of(entries, name)));
            } else {
                assert(named_at(after, name, entries.len() as int));
            }
        }
    }
    assert forall|n: Seq<char>| left.dom().contains(n) implies left[n] == right[n] by {
        let i = place_of(after, n);
        assert(named_at(after, n, i));
        if n == name {
            if has_name(entries, name) {
                lemma_place(after, place_of(entries, name));
            } else {
                lemma_place(after, entries.len() as int);
            }
        } else {
            assert(i < entries.len());
            lemma_place(entries, i);
        }
    }
    assert(left =~= right);
}

/// Removing keeps names distinct and forgets exactly the one name.
pub proof fn lemma_removed<H>(entries: Seq<(Seq<char>, H)>, name: Seq<char>)
    requires
        names_distinct(entries),
    ensures
        names_distinct(removed(entries, name)),
        handle_map(removed(entries, name)) == handle_map(entries).remove(name),
{
    let after = removed(entries, name);
    let left = handle_map(after);
    let right = handle_map(entries).remove(name);
    if has_name(entries, name) {
        let p = place_of(entries, name);
        assert(named_at(entries, name, p));
        assert forall|i: int, j: int| 0 <= i < j < after.len() implies (#[trigger] after[i]).0 != (
        #[trigger] after[j]).0 by {
            let a = if i < p { i } else { i + 1 };
            let b = if j < p { j } else { j + 1 };
            assert(entries[a].0 != entries[b].0);
        }
        assert forall|n: Seq<char>| left.dom().contains(n) == right.dom().contains(n) by {
            if has_name(after, n) {
                let i = place_of(after, n);
                assert(named_at(after, n, i));
                let a = if i < p { i } else { i + 1 };
                assert(named_at(entries, n, a));
                lemma_place(entries, a);
                lemma_place(entries, p);
            }
            if has_name(entries, n) && n != name {
                let i = place_of(entries, n);
                assert(named_at(entries, n, i));
                let a = if i < p { i } else { i - 1 };
                assert(named_at(after, n, a));
            }
        }
        assert forall|n: Seq<char>| left.dom().contains(n) implies left[n] == right[n] by {
            let i = place_of(after, n);
            assert(named_at(after, n, i));
            let a = if i < p { i } else { i + 1 };
            lemma_place(entries, a);
        }
    }
    assert(left =~= right);
}

/// Filtering by name keeps names distinct and restricts the names to those that pass.
pub proof fn lemma_filtered<H>(entries: Seq<(Seq<char>, H)>, names: Seq<Seq<char>>)
    requires
        names_distinct(entries),
    ensures
        names_distinct(entries.filter(name_among(names))),
        forall|n: Seq<char>| #[trigger]
            has_name(entries.filter(name_among(names)), n) <==> has_name(entries, n)
                && names.contains(n),
        forall|n: Seq<char>|
            #![trigger handle_of(entries.filter(name_among(names)), n)]
            has_name(entries, n) && names.contains(n) ==> handle_of(
                entries.filter(name_among(names)),
                n,
            ) == handle_of(entries, n),
    decreases entries.len(),
{
    let pred = name_among::<H>(names);
    reveal(Seq::filter);
    if entries.len() == 0 {
        assert(entries.filter(pred) =~= entries);
        assert forall|n: Seq<char>| #[trigger]
            has_name(entries.filter(pred), n) <==> has_name(entries, n) && names.contains(n) by {}
    } else {
        let init = entries.drop_last();
        let last = entries.last();
        assert forall|i: int, j: int| 0 <= i < j < init.len() implies (#[trigger] init[i]).0 != (
        #[trigger] init[j]).0 by {
            assert(entries[i].0 != entries[j].0);
        }
        lemma_filtered(init, names);
        let kept = init.filter(pred);
        let all = entries.filter(pred);
        assert(all == if pred(last) {
            kept.push(last)
        } else {
            kept
        });
        assert(!has_name(init, last.0)) by {
            if has_name(init, last.0) {
                let i = place_of(init, last.0);
                assert(named_at(init, last.0, i));
                assert(entries[i].0 != entries[entries.len() - 1].0);
            }
        }
        assert(!has_name(kept, last.0));
        assert forall|i: int, j: int| 0 <= i < j < all.len() implies (#[trigger] all[i]).0 != (
        #[trigger] all[j]).0 by {
            if j < kept.len() {
                assert(kept[i].0 != kept[j].0);
            } else {
                assert(!named_at(kept, last.0, i));
            }
        }
        assert forall|n: Seq<char>| #[trigger]
            has_name(all, n) <==> has_name(entries, n) && names.contains(n) by {
            if has_name(all, n) {
                let i = place_of(all, n);
                assert(named_at(all, n, i));
                if i < kept.len() {
                    assert(named_at(kept, n, i));
                    assert(has_name(kept, n));
                    let k = place_of(init, n);
                    assert(named_at(init, n, k));
                    assert(named_at(entries, n, k));
                } else {
                    assert(named_at(entries, n, entries.len() - 1));
                }
            }
            if has_name(entries, n) && names.contains(n) {
                let i = place_of(entries, n);
                assert(named_at(entries, n, i));
                if i < init.len() {
                    assert(named_at(init, n, i));
                    assert(has_name(kept, n));
                    let k = place_of(kept, n);
                    assert(named_at(kept, n, k));
                    assert(named_at(all, n, k));
                } else {
                    assert(named_at(all, n, all.len() - 1));
                }
            }
        }
        assert forall|n: Seq<char>|
            #![trigger handle_of(all, n)]
            has_name(entries, n) && names.contains(n) implies handle_of(all, n) == handle_of(
            entries,
            n,
        ) by {
            assert(has_name(all, n));
            let i = place_of(entries, n);
            assert(named_at(entries, n, i));
            if i < init.len() {
                assert(named_at(init, n, i));
                lemma_place(init, i);
                assert(handle_of(kept, n) == handle_of(init, n));
                assert(has_name(kept, n));
                let k = place_of(kept, n);
                assert(named_at(kept, n, k));
                assert(all[k] == kept[k]);
                lemma_place(all, k);
            } else {
                lemma_place(all, all.len() - 1);
                lemma_place(entries, entries.len() - 1);
            }
        }
    }
}

/// A list of handles, each under a name of its own.
///
/// `H` is whatever is needed to reach the worker of a player. The list keeps it and gives it
/// back, and never looks inside.
#[derive(Debug)]
pub struct Registry<H> {
    entries: Vec<(String, H)>,
}

impl<H> View for Registry<H> {
    type V = Seq<(Seq<char>, H)>;

    closed spec fn view(&self) -> Seq<(Seq<char>, H)> {
        Seq::new(self.entries@.len(), |i: int| (self.entries@[i].0@, self.entries@[i].1))
    }
}

impl<H> Registry<H> {
    /// No name occurs twice.
    pub open spec fn wf(&self) -> bool {
        names_distinct(self@)
    }

    /// A list without entries.
    pub fn new() -> (res: Registry<H>)
        ensures
            res.wf(),
            res@ == Seq::<(Seq<char>, H)>::empty(),
    {
        let res = Registry { entries: Vec::new() };
        assert(res@ =~= Seq::<(Seq<char>, H)>::empty());
        res
    }

    /// How many entries there are.
    pub fn len(&self) -> (res: usize)
        ensures
            res == self@.len(),
    {
        self.entries.len()
    }

    /// Where the entry of `name` stands.
    fn find(&self, name: &str) -> (res: Option<usize>)
        requires
            self.wf(),
        ensures
            match res {
                Some(i) => has_name(self@, name@) && i == place_of(self@, name@) && i
                    < self@.len(),
                None => !has_name(self@, name@),
            },
    {
        let mut i: usize = 0;
        while i < self.entries.len()
            invariant
                self.wf(),
                i <= self.entries.len(),
                forall|j: int| 0 <= j < i ==> !named_at(self@, name@, j),
            decreases self.entries.len() - i,
        {
            if same_text(self.entries[i].0.as_str(), name) {
                proof {
                    lemma_place(self@, i as int);
                }
                return Some(i);
            }
            i += 1;
        }
        None
    }

    /// Whether something is kept under `name`.
    pub fn contains(&self, name: &str) -> (res: bool)
        requires
            self.wf(),
        ensures
            res == has_name(self@, name@),
    {
        self.find(name).is_some()
    }

    /// The handle kept under `name`, if there is one.
    pub fn get(&self, name: &str) -> (res: Option<&H>)
        requires
            self.wf(),
        ensures
            match res {
                Some(handle) => handle_of(self@, name@) == Some(*handle),
                None => handle_of(self@, name@) is None,
            },
    {
        match self.find(name) {
            Some(i) => Some(&self.entries[i].1),
            None => None,
        }
    }

    /// Keeps `handle` under `name` and gives back the handle that it displaces.
    pub fn insert(&mut self, name: String, handle: H) -> (res: Option<H>)
        requires
            old(self).wf(),
        ensures
            final(self).wf(),
            final(self)@ == inserted(old(self)@, name@, handle),
            res == handle_of(old(self)@, name@),
    {
        let ghost before = self@;
        proof {
            lemma_inserted(before, name@, handle);
        }
        match self.find(name.as_str()) {
            Some(i) => {
                let displaced = self.entries.remove(i);
                let ghost given = name@;
                self.entries.insert(i, (name, handle));
                assert(self@ =~= before.update(i as int, (given, handle)));
                Some(displaced.1)
            },
            None => {
                let ghost given = name@;
                self.entries.push((name, handle));
                assert(self@ =~= before.push((given, handle)));
                None
            },
        }
    }

    /// Forgets what is kept under `name` and gives it back.
    pub fn remove(&mut self, name: &str) -> (res: Option<H>)
        requires
            old(self).wf(),
        ensures
            final(self).wf(),
            final(self)@ == removed(old(self)@, name@),
            res == handle_of(old(self)@, name@),
    {
        let ghost before = self@;
        proof {
            lemma_removed(before, name@);
        }
        match self.find(name) {
            Some(i) => {
                let taken = self.entries.remove(i);
                assert(self@ =~= before.remove(i as int));
                Some(taken.1)
            },
            None => None,
        }
    }

    /// The list that results from inserting every pair in turn: of two handles under one name
    /// the later one stays.
    pub fn from_pairs(pairs: Vec<(String, H)>) -> (res: Registry<H>)
        ensures
            res.wf(),
            res@ == inserted_all(Seq::empty(), pair_views(pairs@)),
    {
        let mut pairs = pairs;
        let ghost all = pair_views(pairs@);
        let mut res: Registry<H> = Registry::new();
        let ghost mut done: int = 0;
        assert(all.take(0) =~= Seq::empty());
        assert(all.skip(0) =~= all);
        while pairs.len() > 0
            invariant
                res.wf(),
                0 <= done <= all.len(),
                res@ == inserted_all(Seq::empty(), all.take(done)),
                pair_views(pairs@) == all.skip(done),
            decreases pairs.len(),
        {
            let ghost rest = pair_views(pairs@);
            let pair = pairs.remove(0);
            proof {
                assert(rest.len() == all.len() - done);
                assert(all.skip(done)[0] == all[done]);
                assert(pair_views(pairs@) =~= rest.skip(1));
                assert(all.skip(done + 1) =~= rest.skip(1));
                assert(all.take(done + 1).drop_last() =~= all.take(done));
                done = done + 1;
            }
            res.insert(pair.0, pair.1);
        }
        assert(all.take(done) =~= all);
        res
    }

    /// The handles that a message is meant for: all of them where it bears no name, else the
    /// one of that name, if there is one.
    pub fn recipients(&self, to: &Option<String>) -> (res: Vec<&H>)
        requires
            self.wf(),
        ensures
            res@.map_values(|handle: &H| *handle) == addressed(self@, to.deep_view()),
    {
        let mut res: Vec<&H> = Vec::new();
        match to {
            Some(name) => {
                match self.get(name.as_str()) {
                    Some(handle) => {
                        res.push(handle);
                    },
                    None => {},
                }
            },
            None => {
                let mut i: usize = 0;
                while i < self.entries.len()
                    invariant
                        i <= self.entries.len(),
                        res@.len() == i,
                        forall|j: int| 0 <= j < i ==> *(#[trigger] res@[j]) == self@[j].1,
                    decreases self.entries.len() - i,
                {
                    res.push(&self.entries[i].1);
                    i += 1;
                }
            },
        }
        assert(res@.map_values(|handle: &H| *handle) =~= addressed(self@, to.deep_view()));
        res
    }

    /// Forgets every entry whose name is not in `names`, and gives back the forgotten handles.
    pub fn retain(&mut self, names: &Vec<String>) -> (res: Vec<H>)
        requires
            old(self).wf(),
        ensures
            final(self).wf(),
            final(self)@ == old(self)@.filter(name_among(names.deep_view())),
            res@ == handles(old(self)@.filter(name_missing(names.deep_view()))),
    {
        let ghost before = self@;
        let ghost keep = name_among::<H>(names.deep_view());
        let ghost drop = name_missing::<H>(names.deep_view());
        let mut res: Vec<H> = Vec::new();
        let mut i: usize = 0;
        let ghost mut seen: int = 0;
        proof {
            reveal(Seq::filter);
            assert(before.take(0) =~= Seq::empty());
            assert(before.take(0).filter(keep) =~= Seq::empty());
            assert(before.take(0).filter(drop) =~= Seq::empty());
            assert(self@ =~= before.take(0).filter(keep) + before.skip(0));
            assert(res@ =~= handles(before.take(0).filter(drop)));
        }
        while i < self.entries.len()
            invariant
                keep == name_among::<H>(names.deep_view()),
                drop == name_missing::<H>(names.deep_view()),
                0 <= seen <= before.len(),
                i == before.take(seen).filter(keep).len(),
                self@ == before.take(seen).filter(keep) + before.skip(seen),
                res@ == handles(before.take(seen).filter(drop)),
            decreases before.len() - seen,
        {
            let ghost kept = before.take(seen).filter(keep);
            let ghost dropped = before.take(seen).filter(drop);
            let ghost whole = self@;
            proof {
                reveal(Seq::filter);
                assert(self@.len() == kept.len() + (before.len() - seen));
                assert(seen < before.len());
                assert(before.take(seen + 1).drop_last() =~= before.take(seen));
                assert(before.take(seen + 1).last() == before[seen]);
                assert(self@[i as int] == before[seen]);
            }
            if list_contains(names, self.entries[i].0.as_str()) {
                proof {
                    assert(before.take(seen + 1).filter(keep) == kept.push(before[seen]));
                    assert(before.take(seen + 1).filter(drop) == dropped);
                    assert(kept.push(before[seen]) + before.skip(seen + 1) =~= whole);
                    seen = seen + 1;
                }
                i += 1;
            } else {
                let taken = self.entries.remove(i);
                res.push(taken.1);
                proof {
                    assert(before.take(seen + 1).filter(keep) == kept);
                    assert(before.take(seen + 1).filter(drop) == dropped.push(before[seen]));
                    assert(self@ =~= whole.remove(i as int));
                    assert(whole.remove(i as int) =~= kept + before.skip(seen + 1));
                    assert(res@ =~= handles(dropped.push(before[seen])));
                    seen = seen + 1;
                }
            }
        }
        proof {
            assert(self@.len() == before.take(seen).filter(keep).len() + (before.len() - seen));
            assert(before.take(seen) =~= before);
            assert(self@ =~= before.filter(keep));
            lemma_filtered(before, names.deep_view());
        }
        res
    }

    /// Forgets every entry and gives back all handles.
    pub fn take_all(&mut self) -> (res: Vec<H>)
        ensures
            final(self).wf(),
            final(self)@ == Seq::<(Seq<char>, H)>::empty(),
            res@ == handles(old(self)@),
    {
        let ghost before = self@;
        let mut res: Vec<H> = Vec::new();
        assert(before.skip(0) =~= before);
        while self.entries.len() > 0
            invariant
                res@.len() <= before.len(),
                self@ == before.skip(res@.len() as int),
                res@ == handles(before).take(res@.len() as int),
            decreases self.entries.len(),
        {
            let ghost n = res@.len() as int;
            let ghost whole = self@;
            assert(whole.len() == before.len() - n);
            assert(whole[0] == before[n]);
            let taken = self.entries.remove(0);
            res.push(taken.1);
            assert(self@ =~= whole.remove(0));
            assert(whole.remove(0) =~= before.skip(n + 1));
            assert(res@ =~= handles(before).take(n + 1));
        }
        assert(self@.len() == before.len() - res@.len());
        assert(self@ =~= Seq::empty());
        assert(res@ =~= handles(before));
        res
    }
}

/// Pairs of names and handles, each name as a sequence of characters.
pub open spec fn pair_views<H>(pairs: Seq<(String, H)>) -> Seq<(Seq<char>, H)> {
    Seq::new(pairs.len(), |i: int| (pairs[i].0@, pairs[i].1))
}

/// Whether `name` is one of `names`.
pub fn list_contains(names: &Vec<String>, name: &str) -> (res: bool)
    ensures
        res == names.deep_view().contains(name@),
{
    let mut i: usize = 0;
    while i < names.len()
        invariant
            i <= names.len(),
            forall|j: int| 0 <= j < i ==> names.deep_view()[j] != name@,
        decreases names.len() - i,
    {
        if same_text(names[i].as_str(), name) {
            assert(names.deep_view()[i as int] == name@);
            return true;
        }
        i += 1;
    }
    false
}

/// A name is kept exactly where some entry bears it; names are distinct exactly where no two
/// places bear the same one; and pairs are seen in their order, each with its own handle.
pub proof fn names_by_their_places<H>(
    entries: Seq<(Seq<char>, H)>,
    name: Seq<char>,
    pairs: Seq<(String, H)>,
)
    ensures
        has_name(entries, name) <==> exists|i: int|
            0 <= i < entries.len() && (#[trigger] entries[i]).0 == name,
        names_distinct(entries) <==> forall|i: int, j: int|
            0 <= i < entries.len() && 0 <= j < entries.len() && i != j ==> (
            #[trigger] entries[i]).0 != (#[trigger] entries[j]).0,
        pair_views(pairs).len() == pairs.len(),
        forall|i: int|
            0 <= i < pairs.len() ==> (#[trigger] pair_views(pairs)[i]).0 == pairs[i].0@
                && pair_views(pairs)[i].1 == pairs[i].1,
{
    if has_name(entries, name) {
        let i = choose|i: int| named_at(entries, name, i);
        assert(entries[i].0 == name);
    }
    if exists|i: int| 0 <= i < entries.len() && (#[trigger] entries[i]).0 == name {
        let i = choose|i: int| 0 <= i < entries.len() && (#[trigger] entries[i]).0 == name;
        assert(named_at(entries, name, i));
    }
    if names_distinct(entries) {
        assert forall|i: int, j: int|
            0 <= i < entries.len() && 0 <= j < entries.len() && i != j implies (
        #[trigger] entries[i]).0 != (#[trigger] entries[j]).0 by {
            if j < i {
                assert(entries[j].0 != entries[i].0);
            }
        }
    }
}

/// The handle under a name is the one that stands beside it, and under a name that no entry bears
/// there is none. A message reaches that handle alone, or nobody; a message without a name reaches
/// every handle, each once, in their order.
pub proof fn message_reaches_those_meant<H>(entries: Seq<(Seq<char>, H)>, name: Seq<char>, i: int)
    requires
        names_distinct(entries),
    ensures
        0 <= i < entries.len() && entries[i].0 == name ==> {
            &&& handle_of(entries, name) == Some(entries[i].1)
            &&& addressed(entries, Some(name)) == seq![entries[i].1]
        },
        (forall|j: int| 0 <= j < entries.len() ==> (#[trigger] entries[j]).0 != name) ==> {
            &&& handle_of(entries, name) is None
            &&& addressed(entries, Some(name)).len() == 0
        },
        handles(entries).len() == entries.len(),
        addressed(entries, None).len() == entries.len(),
        forall|j: int|
            0 <= j < entries.len() ==> #[trigger] handles(entries)[j] == entries[j].1,
        forall|j: int|
            0 <= j < entries.len() ==> #[trigger] addressed(entries, None)[j] == entries[j].1,
{
    if 0 <= i < entries.len() && entries[i].0 == name {
        lemma_place(entries, i);
    }
    if forall|j: int| 0 <= j < entries.len() ==> (#[trigger] entries[j]).0 != name {
        assert forall|j: int| !named_at(entries, name, j) by {
            if 0 <= j < entries.len() {
                assert(entries[j].0 != name);
            }
        }
    }
}

/// Keeping a handle under a name puts it in the place of the name, or at the end where the name is
/// new; forgetting a name closes its place. Every other entry stays, in its order.
pub proof fn entries_keep_their_order<H>(
    entries: Seq<(Seq<char>, H)>,
    name: Seq<char>,
    handle: H,
    i: int,
)
    requires
        names_distinct(entries),
    ensures
        0 <= i < entries.len() && entries[i].0 == name ==> {
            &&& inserted(entries, name, handle).len() == entries.len()
            &&& inserted(entries, name, handle)[i] == (name, handle)
            &&& forall|j: int|
                0 <= j < entries.len() && j != i ==> #[trigger] inserted(entries, name, handle)[j]
                    == entries[j]
            &&& removed(entries, name).len() == entries.len() - 1
            &&& forall|j: int|
                0 <= j < i ==> #[trigger] removed(entries, name)[j] == entries[j]
            &&& forall|j: int|
                i <= j < entries.len() - 1 ==> #[trigger] removed(entries, name)[j] == entries[j
                    + 1]
        },
        (forall|j: int| 0 <= j < entries.len() ==> (#[trigger] entries[j]).0 != name) ==> {
            &&& inserted(entries, name, handle).len() == entries.len() + 1
            &&& inserted(entries, name, handle)[entries.len() as int] == (name, handle)
            &&& forall|j: int|
                0 <= j < entries.len() ==> #[trigger] inserted(entries, name, handle)[j]
                    == entries[j]
            &&& removed(entries, name) == entries
        },
{
    if 0 <= i < entries.len() && entries[i].0 == name {
        lemma_place(entries, i);
    }
    if forall|j: int| 0 <= j < entries.len() ==> (#[trigger] entries[j]).0 != name {
        assert forall|j: int| !named_at(entries, name, j) by {
            if 0 <= j < entries.len() {
                assert(entries[j].0 != name);
            }
        }
    }
}

/// Of pairs under one name the last one stays, and a name that no pair bears keeps what it had.
pub proof fn last_pair_stays<H>(
    entries: Seq<(Seq<char>, H)>,
    pairs: Seq<(Seq<char>, H)>,
    name: Seq<char>,
    i: int,
)
    requires
        names_distinct(entries),
        -1 <= i < pairs.len(),
        i >= 0 ==> pairs[i].0 == name,
        forall|j: int| i < j < pairs.len() ==> (#[trigger] pairs[j]).0 != name,
    ensures
        names_distinct(inserted_all(entries, pairs)),
        handle_of(inserted_all(entries, pairs), name) == if i >= 0 {
            Some(pairs[i].1)
        } else {
            handle_of(entries, name)
        },
    decreases pairs.len(),
{
    if pairs.len() > 0 {
        let init = pairs.drop_last();
        let (last, handle) = pairs.last();
        let before = inserted_all(entries, init);
        if i == pairs.len() - 1 {
            lemma_distinct_after(entries, init);
            lemma_inserted(before, last, handle);
            assert(handle_map(inserted(before, last, handle)).dom().contains(name));
            assert(handle_map(inserted(before, last, handle))[name] == handle);
        } else {
            assert forall|j: int| i < j < init.len() implies (#[trigger] init[j]).0 != name by {
                assert(pairs[j].0 != name);
            }
            last_pair_stays(entries, init, name, i);
            lemma_inserted(before, last, handle);
            assert(pairs[pairs.len() - 1].0 != name);
            let after = inserted(before, last, handle);
            assert(handle_map(after).dom().contains(name) == handle_map(before).dom().contains(
                name,
            ));
            assert(has_name(before, name) ==> handle_map(after)[name] == handle_map(before)[name]);
        }
    }
}

proof fn lemma_distinct_after<H>(entries: Seq<(Seq<char>, H)>, pairs: Seq<(Seq<char>, H)>)
    requires
        names_distinct(entries),
    ensures
        names_distinct(inserted_all(entries, pairs)),
    decreases pairs.len(),
{
    if pairs.len() > 0 {
        lemma_distinct_after(entries, pairs.drop_last());
        lemma_inserted(
            inserted_all(entries, pairs.drop_last()),
            pairs.last().0,
            pairs.last().1,
        );
    }
}

/// An entry is kept exactly where its name is listed, and given up exactly where it is not.
pub proof fn listed_entries_are_kept<H>(
    entries: Seq<(Seq<char>, H)>,
    names: Seq<Seq<char>>,
    entry: (Seq<char>, H),
)
    ensures
        entries.filter(name_among(names)).contains(entry) <==> entries.contains(entry)
            && names.contains(entry.0),
        entries.filter(name_missing(names)).contains(entry) <==> entries.contains(entry)
            && !names.contains(entry.0),
        entries.filter(name_among(names)).len() + entries.filter(name_missing(names)).len()
            == entries.len(),
    decreases entries.len(),
{
    reveal(Seq::filter);
    let keep = name_among::<H>(names);
    let drop = name_missing::<H>(names);
    if entries.len() > 0 {
        let init = entries.drop_last();
        let last = entries.last();
        listed_entries_are_kept(init, names, entry);
        let kept = entries.filter(keep);
        let dropped = entries.filter(drop);
        assert(entries =~= init.push(last));
        assert(entries.contains(entry) == (init.contains(entry) || entry == last)) by {
            if init.contains(entry) {
                let k = init.index_of(entry);
                assert(entries[k] == entry);
            }
            assert(entries[entries.len() - 1] == last);
        }
        if keep(last) {
            lemma_pushed(init.filter(keep), last, entry);
        } else {
            lemma_pushed(init.filter(drop), last, entry);
        }
    }
}

proof fn lemma_pushed<A>(items: Seq<A>, last: A, item: A)
    ensures
        items.push(last).contains(item) == (items.contains(item) || item == last),
{
    if items.contains(item) {
        let k = items.index_of(item);
        assert(items.push(last)[k] == item);
    }
    assert(items.push(last)[items.len() as int] == last);
}

} // verus!
