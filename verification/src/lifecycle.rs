//! When the workers of a player are started and cancelled.
//!
//! A worker is cancelled through a token. A player holds one token at a time, hands every worker
//! a token below it, and cancels all of them by cancelling its own.

use crate::command::Command;
use vstd::prelude::*;

verus! {

/// Where a player stands between `subscribe` and `unsubscribe`.
#[derive(Debug, Clone, Copy, PartialEq, Eq, Structural)]
pub struct Lifecycle {
    /// There is a channel for commands.
    pub channel: bool,
    /// The token has been cancelled.
    pub cancelled: bool,
}

impl Lifecycle {
    /// A player that has never been subscribed to.
    pub open spec fn fresh() -> Lifecycle {
        Lifecycle { channel: false, cancelled: false }
    }

    /// The player with a token that is not cancelled.
    pub open spec fn revived(self) -> Lifecycle {
        Lifecycle { cancelled: false, ..self }
    }

    /// The player once it has been subscribed to: its token is live, and it has a channel, even
    /// where the worker at the other end cannot be started.
    pub open spec fn subscribed(self) -> Lifecycle {
        Lifecycle { channel: true, cancelled: false }
    }

    /// The player once it has been unsubscribed from, where the channel stays.
    pub open spec fn unsubscribed(self) -> Lifecycle {
        Lifecycle { cancelled: true, ..self }
    }

    /// The player once it has been unsubscribed from, where the channel goes too.
    pub open spec fn shut(self) -> Lifecycle {
        Lifecycle { channel: false, cancelled: true }
    }
}

/// What becomes of a command: it goes into the channel, or is dropped where there is none.
pub open spec fn channelled(life: Lifecycle, command: Command) -> Option<Command> {
    if life.channel {
        Some(command)
    } else {
        None
    }
}

/// The player on the session bus.
#[derive(Debug)]
pub struct LinuxPlayer {
    pub life: Lifecycle,
}

impl LinuxPlayer {
    pub fn init() -> (res: LinuxPlayer)
        ensures
            res.life == Lifecycle::fresh(),
    {
        LinuxPlayer { life: Lifecycle { channel: false, cancelled: false } }
    }

    /// Sees to it that the token is live, and tells whether a new one is to be made for that.
    pub fn handle_cancel_token_live(&mut self) -> (res: bool)
        ensures
            final(self).life == old(self).life.revived(),
            res == old(self).life.cancelled,
    {
        let stale = self.life.cancelled;
        if stale {
            self.life.cancelled = false;
        }
        stale
    }

    /// Subscribes: a channel is opened and a worker started with a token below the player's.
    /// Tells whether the player's token is to be replaced by a new one first.
    pub fn subscribe(&mut self) -> (res: bool)
        ensures
            final(self).life == old(self).life.subscribed(),
            res == old(self).life.cancelled,
    {
        let stale = self.handle_cancel_token_live();
        self.life.channel = true;
        stale
    }

    /// Unsubscribes: the player's token is to be cancelled.
    pub fn unsubscribe(&mut self)
        ensures
            final(self).life == old(self).life.unsubscribed(),
    {
        self.life.cancelled = true;
    }

    /// The command to put into the channel; none, and the command is dropped, where there is no
    /// channel yet.
    pub fn send_command(&self, command: Command) -> (res: Option<Command>)
        ensures
            res == channelled(self.life, command),
    {
        if self.life.channel {
            Some(command)
        } else {
            None
        }
    }
}

/// The player of the media sessions.
#[derive(Debug)]
pub struct WindowsPlayer {
    pub life: Lifecycle,
}

impl WindowsPlayer {
    pub fn init() -> (res: WindowsPlayer)
        ensures
            res.life == Lifecycle::fresh(),
    {
        WindowsPlayer { life: Lifecycle { channel: false, cancelled: false } }
    }

    /// Sees to it that the token is live, and tells whether a new one is to be made for that.
    pub fn handle_cancel_token_live(&mut self) -> (res: bool)
        ensures
            final(self).life == old(self).life.revived(),
            res == old(self).life.cancelled,
    {
        let stale = self.life.cancelled;
        if stale {
            self.life.cancelled = false;
        }
        stale
    }

    /// Subscribes: a channel is opened and a worker started with a token below the player's.
    /// Tells whether the player's token is to be replaced by a new one first.
    pub fn subscribe(&mut self) -> (res: bool)
        ensures
            final(self).life == old(self).life.subscribed(),
            res == old(self).life.cancelled,
    {
        let stale = self.handle_cancel_token_live();
        self.life.channel = true;
        stale
    }

    /// Unsubscribes: the player's token is to be cancelled.
    pub fn unsubscribe(&mut self)
        ensures
            final(self).life == old(self).life.unsubscribed(),
    {
        self.life.cancelled = true;
    }

    /// The command to put into the channel; none, and the command is dropped, where there is no
    /// channel yet.
    pub fn send_command(&self, command: Command) -> (res: Option<Command>)
        ensures
            res == channelled(self.life, command),
    {
        if self.life.channel {
            Some(command)
        } else {
            None
        }
    }
}

/// The player of the media remote framework.
#[derive(Debug)]
pub struct MacPlayer {
    pub life: Lifecycle,
}

impl MacPlayer {
    pub fn init() -> (res: MacPlayer)
        ensures
            res.life == Lifecycle::fresh(),
    {
        MacPlayer { life: Lifecycle { channel: false, cancelled: false } }
    }

    /// Subscribes: a channel is opened and a worker started with a token below the player's.
    /// Tells whether the player's token is to be replaced by a new one first.
    pub fn subscribe(&mut self) -> (res: bool)
        ensures
            final(self).life == old(self).life.subscribed(),
            res == old(self).life.cancelled,
    {
        let stale = self.life.cancelled;
        if stale {
            self.life.cancelled = false;
        }
        self.life.channel = true;
        stale
    }

    /// Unsubscribes: the player's token is to be cancelled, and the channel closed.
    pub fn unsubscribe(&mut self)
        ensures
            final(self).life == old(self).life.shut(),
    {
        self.life.cancelled = true;
        self.life.channel = false;
    }

    /// The command to put into the channel; none, and the command is dropped, where there is no
    /// channel.
    pub fn send_command(&self, command: Command) -> (res: Option<Command>)
        ensures
            res == channelled(self.life, command),
    {
        if self.life.channel {
            Some(command)
        } else {
            None
        }
    }
}

/// What can be done to a player.
pub enum PlayerOp {
    /// Subscribe; `started` tells whether the worker could be started.
    Subscribe { started: bool },
    Unsubscribe,
}

/// The tokens that a player has held, the current one last, and the token of every worker that
/// was ever started.
pub struct Tokens {
    /// Which tokens have been cancelled.
    pub cancelled: Seq<bool>,
    /// For each worker the place of its token.
    pub workers: Seq<int>,
}

impl Tokens {
    /// One live token, and no worker.
    pub open spec fn fresh() -> Tokens {
        Tokens { cancelled: seq![false], workers: Seq::empty() }
    }

    /// A new token takes the place of the current one.
    pub open spec fn renewed(self) -> Tokens {
        Tokens { cancelled: self.cancelled.push(false), ..self }
    }

    /// The current token is cancelled.
    pub open spec fn with_cancelled(self) -> Tokens {
        Tokens { cancelled: self.cancelled.update(self.cancelled.len() - 1, true), ..self }
    }

    /// A worker is started with the current token.
    pub open spec fn with_worker(self) -> Tokens {
        Tokens { workers: self.workers.push(self.cancelled.len() - 1), ..self }
    }

    /// The worker `i` has not been cancelled.
    pub open spec fn lives(self, i: int) -> bool {
        0 <= i < self.workers.len() && !self.cancelled[self.workers[i]]
    }

    /// Every worker has a token, and all tokens but the current one have been cancelled.
    pub open spec fn ordered(self) -> bool {
        &&& self.cancelled.len() > 0
        &&& forall|i: int|
            0 <= i < self.workers.len() ==> 0 <= #[trigger] self.workers[i] < self.cancelled.len()
        &&& forall|t: int| 0 <= t < self.cancelled.len() - 1 ==> #[trigger] self.cancelled[t]
    }
}

/// A player together with its tokens, after a list of operations on it. `closes` tells whether the
/// player closes its channel when it is unsubscribed from.
pub open spec fn player_after(closes: bool, ops: Seq<PlayerOp>) -> (Lifecycle, Tokens)
    decreases ops.len(),
{
    if ops.len() == 0 {
        (Lifecycle::fresh(), Tokens::fresh())
    } else {
        let (life, tokens) = player_after(closes, ops.drop_last());
        match ops.last() {
            PlayerOp::Subscribe { started } => {
                let live = if life.cancelled {
                    tokens.renewed()
                } else {
                    tokens
                };
                if started {
                    (life.subscribed(), live.with_worker())
                } else {
                    (life.subscribed(), live)
                }
            },
            PlayerOp::Unsubscribe => (
                if closes {
                    life.shut()
                } else {
                    life.unsubscribed()
                },
                tokens.with_cancelled(),
            ),
        }
    }
}

/// A player knows of its token whether it is cancelled, whatever has been done to it.
pub proof fn player_knows_its_token(closes: bool, ops: Seq<PlayerOp>)
    ensures
        player_after(closes, ops).1.ordered(),
        player_after(closes, ops).0.cancelled == player_after(closes, ops).1.cancelled.last(),
    decreases ops.len(),
{
    if ops.len() > 0 {
        player_knows_its_token(closes, ops.drop_last());
        let before = player_after(closes, ops.drop_last()).1;
        let after = player_after(closes, ops).1;
        assert(forall|i: int|
            0 <= i < before.workers.len() ==> after.workers[i] == before.workers[i]);
    }
}

/// Unsubscribing cancels every worker that was ever started.
pub proof fn unsubscribing_cancels_all_workers(closes: bool, ops: Seq<PlayerOp>, i: int)
    requires
        ops.len() > 0,
        ops.last() is Unsubscribe,
    ensures
        !player_after(closes, ops).1.lives(i),
{
    player_knows_its_token(closes, ops);
}

/// Subscribing leads to a live worker wherever one can be started: the one that it starts.
pub proof fn subscribing_starts_a_live_worker(closes: bool, ops: Seq<PlayerOp>)
    requires
        ops.len() > 0,
        ops.last() == (PlayerOp::Subscribe { started: true }),
    ensures
        player_after(closes, ops).1.workers.len() == player_after(
            closes,
            ops.drop_last(),
        ).1.workers.len() + 1,
        player_after(closes, ops).1.lives(player_after(closes, ops).1.workers.len() - 1),
{
    player_knows_its_token(closes, ops);
}

/// A player that keeps its channel drops a command exactly where it has never been subscribed to.
pub proof fn commands_need_a_first_subscription(ops: Seq<PlayerOp>, command: Command)
    ensures
        channelled(player_after(false, ops).0, command) is Some <==> exists|i: int|
            0 <= i < ops.len() && #[trigger] ops[i] is Subscribe,
    decreases ops.len(),
{
    if ops.len() > 0 {
        let init = ops.drop_last();
        commands_need_a_first_subscription(init, command);
        if exists|i: int| 0 <= i < init.len() && #[trigger] init[i] is Subscribe {
            let i = choose|i: int| 0 <= i < init.len() && #[trigger] init[i] is Subscribe;
            assert(ops[i] is Subscribe);
        }
        if exists|i: int| 0 <= i < ops.len() && #[trigger] ops[i] is Subscribe {
            let i = choose|i: int| 0 <= i < ops.len() && #[trigger] ops[i] is Subscribe;
            if i < init.len() {
                assert(init[i] is Subscribe);
            }
        }
        if ops.last() is Subscribe {
            assert(ops[ops.len() - 1] is Subscribe);
        }
    }
}

/// A player that closes its channel drops a command exactly where it is not subscribed to.
pub proof fn commands_need_a_standing_subscription(ops: Seq<PlayerOp>, command: Command)
    ensures
        channelled(player_after(true, ops).0, command) is Some <==> ops.len() > 0
            && ops.last() is Subscribe,
{
}

/// What a player with a channel is given goes into the channel as it is, for the same device and
/// with the same data; without a channel nothing does.
pub proof fn command_passes_unchanged(life: Lifecycle, command: Command)
    ensures
        channelled(life, command) is Some <==> life.channel,
        channelled(life, command) matches Some(passed) ==> passed.to == command.to && passed.data
            == command.data && passed@ == command@,
{
}

/// A player begins without a channel and with a live token. Subscribing gives it both, reviving
/// keeps the channel as it is, and unsubscribing cancels the token, with the channel kept or
/// closed.
pub proof fn player_steps(life: Lifecycle)
    ensures
        !Lifecycle::fresh().channel && !Lifecycle::fresh().cancelled,
        !life.revived().cancelled && life.revived().channel == life.channel,
        !life.subscribed().cancelled && life.subscribed().channel,
        life.unsubscribed().cancelled && life.unsubscribed().channel == life.channel,
        life.shut().cancelled && !life.shut().channel,
{
}

} // verus!
