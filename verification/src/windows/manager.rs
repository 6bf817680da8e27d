//! The media sessions: which of them are new, which are gone, and which of them a command
//! reaches.

use crate::command::Command;
use crate::registry::{
    addressed, handles, has_name, name_among, name_missing, names_distinct, Registry,
};
use vstd::prelude::*;

verus! {

/// The sessions seen so far in one walk through the system's list of sessions.
#[derive(Debug)]
pub struct Sweep {
    seen: Vec<String>,
}

impl View for Sweep {
    type V = Seq<Seq<char>>;

    closed spec fn view(&self) -> Seq<Seq<char>> {
        self.seen.deep_view()
    }
}

impl Sweep {
    /// A walk that has seen no session yet.
    pub fn new() -> (res: Sweep)
        ensures
            res@ == Seq::<Seq<char>>::empty(),
    {
        let res = Sweep { seen: Vec::new() };
        assert(res@ =~= Seq::<Seq<char>>::empty());
        res
    }
}

/// The tokens with which the manager's handlers are removed.
#[derive(Debug, Clone, Copy, PartialEq, Eq, Structural)]
pub struct ManagerHandlers {
    /// The token of the handler for changes of the list of sessions.
    pub sessions_changed: i64,
    /// The token of the handler for changes of the current session.
    pub current_session_changed: i64,
}

/// What is to be done when the manager comes to its end. All of it is done, even where a handler
/// cannot be removed.
#[derive(Debug)]
pub struct Shutdown<H> {
    /// The token to remove the handler for changes of the list of sessions with.
    pub remove_sessions_changed: i64,
    /// The token to remove the handler for changes of the current session with.
    pub remove_current_session_changed: i64,
    /// The workers to cancel.
    pub cancel: Vec<H>,
}

/// The sessions that have a worker, each with a handle to it, and the manager's own handlers.
#[derive(Debug)]
pub struct SessionManager<H> {
    handlers: ManagerHandlers,
    sessions: Registry<H>,
}

impl<H> View for SessionManager<H> {
    type V = Seq<(Seq<char>, H)>;

    closed spec fn view(&self) -> Seq<(Seq<char>, H)> {
        self.sessions@
    }
}

impl<H> SessionManager<H> {
    /// The tokens of the manager's handlers.
    pub closed spec fn tokens(&self) -> ManagerHandlers {
        self.handlers
    }

    /// No session has two workers.
    pub open spec fn wf(&self) -> bool {
        names_distinct(self@)
    }

    /// A manager without sessions, whose handlers have been added.
    pub fn new(handlers: ManagerHandlers) -> (res: SessionManager<H>)
        ensures
            res.wf(),
            res@ == Seq::<(Seq<char>, H)>::empty(),
            res.tokens() == handlers,
    {
        SessionManager { handlers, sessions: Registry::new() }
    }

    /// How many sessions have a worker.
    pub fn len(&self) -> (res: usize)
        ensures
            res == self@.len(),
    {
        self.sessions.len()
    }

    /// Notes that the walk has come to the session `id`, and tells whether a worker is to be
    /// started for it.
    pub fn visit(&self, sweep: &mut Sweep, id: String) -> (res: bool)
        requires
            self.wf(),
        ensures
            final(sweep)@ == old(sweep)@.push(id@),
            res == !has_name(self@, id@),
    {
        let res = !self.sessions.contains(id.as_str());
        let ghost before = sweep@;
        let ghost spelled = id@;
        sweep.seen.push(id);
        assert(sweep@ =~= before.push(spelled));
        res
    }

    /// Enters the worker that was started for a session that had none.
    pub fn attach(&mut self, id: String, handle: H)
        requires
            old(self).wf(),
            !has_name(old(self)@, id@),
        ensures
            final(self).wf(),
            final(self)@ == old(self)@.push((id@, handle)),
            final(self).tokens() == old(self).tokens(),
    {
        self.sessions.insert(id, handle);
    }

    /// Ends a walk that has seen the whole list: the sessions that it has not seen are
    /// forgotten, and their workers, which are to be cancelled, given back.
    pub fn finish(&mut self, sweep: Sweep) -> (res: Vec<H>)
        requires
            old(self).wf(),
        ensures
            final(self).wf(),
            final(self)@ == old(self)@.filter(name_among(sweep@)),
            final(self).tokens() == old(self).tokens(),
            res@ == handles(old(self)@.filter(name_missing(sweep@))),
    {
        self.sessions.retain(&sweep.seen)
    }

    /// Ends a walk. Where `outcome` tells that the whole list was seen, the sessions that were not
    /// seen are forgotten, and their workers, which are to be cancelled, given back. A walk that
    /// was broken off forgets nothing, and its error is handed on.
    pub fn end_walk<E>(&mut self, sweep: Sweep, outcome: Result<(), E>) -> (res: Result<Vec<H>, E>)
        requires
            old(self).wf(),
        ensures
            final(self).wf(),
            final(self).tokens() == old(self).tokens(),
            match outcome {
                Ok(_) => {
                    &&& final(self)@ == old(self)@.filter(name_among(sweep@))
                    &&& res matches Ok(gone) && gone@ == handles(
                        old(self)@.filter(name_missing(sweep@)),
                    )
                },
                Err(error) => final(self)@ == old(self)@ && res == Err::<Vec<H>, E>(error),
            },
    {
        match outcome {
            Ok(_) => Ok(self.finish(sweep)),
            Err(error) => Err(error),
        }
    }

    /// The sessions that a command is sent to: the one that it names, if that one has a worker,
    /// or all of them where it names none.
    pub fn route(&self, command: &Command) -> (res: Vec<&H>)
        requires
            self.wf(),
        ensures
            res@.map_values(|handle: &H| *handle) == addressed(self@, command@.to),
    {
        self.sessions.recipients(&command.to)
    }

    /// Forgets all sessions and tells what is to be done about them and about the manager's
    /// handlers: each handler is removed with its own token, and every worker cancelled.
    pub fn shut_down(&mut self) -> (res: Shutdown<H>)
        ensures
            final(self).wf(),
            final(self)@ == Seq::<(Seq<char>, H)>::empty(),
            final(self).tokens() == old(self).tokens(),
            res.remove_sessions_changed == old(self).tokens().sessions_changed,
            res.remove_current_session_changed == old(self).tokens().current_session_changed,
            res.cancel@ == handles(old(self)@),
    {
        Shutdown {
            remove_sessions_changed: self.handlers.sessions_changed,
            remove_current_session_changed: self.handlers.current_session_changed,
            cancel: self.sessions.take_all(),
        }
    }
}

} // verus!
