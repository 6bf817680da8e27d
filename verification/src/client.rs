//! The interface that callers hold, and the worker behind it.

use crate::command::{Command, CommandData};
use crate::conversion::{
    command_of, message_of, NowPlayingMessage, PlayerCommand, PlayerCommandData,
};
use crate::lifecycle::Tokens;
use crate::state;
use crate::text::{has_prefix, joined};
use vstd::prelude::*;

verus! {

/// Why a request of a caller failed. A detail is whatever the failing part said of it.
#[derive(Debug)]
pub enum ClientError {
    /// A command was sent before the first subscription.
    WorkerNotInitialized,
    /// The worker no longer takes commands.
    SendFailed(String),
    /// The worker did not come to an orderly end.
    JoinFailed(String),
    /// The player could not be created.
    CreateFailed(String),
    /// The player could not be subscribed to.
    SubscribeFailed(String),
}

impl ClientError {
    /// The text that the caller is given.
    pub open spec fn text(self) -> Seq<char> {
        match self {
            ClientError::WorkerNotInitialized => "worker not initialized"@,
            ClientError::SendFailed(detail) => "failed to send command: "@ + detail@,
            ClientError::JoinFailed(detail) => "failed to join worker: "@ + detail@,
            ClientError::CreateFailed(detail) => "failed to create player: "@ + detail@,
            ClientError::SubscribeFailed(detail) => "failed to subscribe to player: "@ + detail@,
        }
    }

    /// The text that the caller is given.
    pub fn reason(&self) -> (res: String)
        ensures
            res@ == self.text(),
    {
        match self {
            ClientError::WorkerNotInitialized => "worker not initialized".to_string(),
            ClientError::SendFailed(detail) => joined("failed to send command: ", detail.as_str()),
            ClientError::JoinFailed(detail) => joined("failed to join worker: ", detail.as_str()),
            ClientError::CreateFailed(detail) => joined(
                "failed to create player: ",
                detail.as_str(),
            ),
            ClientError::SubscribeFailed(detail) => joined(
                "failed to subscribe to player: ",
                detail.as_str(),
            ),
        }
    }
}

/// The answer to a command that went into the channel, by how the sending went.
pub fn delivered(outcome: Result<(), String>) -> (res: Result<(), ClientError>)
    ensures
        res == match outcome {
            Ok(_) => Ok::<(), ClientError>(()),
            Err(detail) => Err(ClientError::SendFailed(detail)),
        },
{
    match outcome {
        Ok(_) => Ok(()),
        Err(detail) => Err(ClientError::SendFailed(detail)),
    }
}

/// Where a caller's subscription stands.
#[derive(Debug)]
pub struct NowPlaying {
    /// There is a channel to a worker.
    pub channel: bool,
    /// The channel can be read: by a worker that is being started, that runs, or that has been
    /// cancelled and not yet been waited for.
    pub reader: bool,
    /// The token of the latest worker has been cancelled.
    pub cancelled: bool,
    /// A worker has been started that nobody has waited for.
    pub worker: bool,
}

impl NowPlaying {
    /// Nothing has been subscribed to yet.
    pub open spec fn fresh() -> NowPlaying {
        NowPlaying { channel: false, reader: false, cancelled: false, worker: false }
    }

    /// A subscription has begun: there is a channel and a new token, whether or not a worker can
    /// be started with them.
    pub open spec fn subscribing(self) -> NowPlaying {
        NowPlaying { channel: true, reader: true, cancelled: false, worker: self.worker }
    }

    /// The worker of the subscription runs.
    pub open spec fn subscribed(self) -> NowPlaying {
        NowPlaying { worker: true, ..self }
    }

    /// Nothing reads the channel any more.
    pub open spec fn unread(self) -> NowPlaying {
        NowPlaying { reader: false, ..self }
    }

    /// The subscription has been cancelled.
    pub open spec fn unsubscribing(self) -> NowPlaying {
        NowPlaying { cancelled: true, worker: false, ..self }
    }

    /// The subscription has been cancelled, and the worker, if there was one, waited for.
    pub open spec fn unsubscribed(self) -> NowPlaying {
        if self.worker {
            self.unsubscribing().unread()
        } else {
            self.unsubscribing()
        }
    }

    /// A command is what the caller asks, and it goes into the channel where one is read. Without
    /// a channel it is refused, and into a channel that nothing reads it cannot be sent.
    pub open spec fn sends(
        self,
        command: PlayerCommand,
        res: Result<Command, ClientError>,
    ) -> bool {
        if !self.channel {
            res == Err::<Command, ClientError>(ClientError::WorkerNotInitialized)
        } else if self.reader {
            res == Ok::<Command, ClientError>(command_of(command))
        } else {
            res matches Err(ClientError::SendFailed(detail)) && detail@ == "SendError { .. }"@
        }
    }

    /// A client whose callback was built, with the log callback where there is one that was built
    /// too. Without its callback there is no client; without the log callback there is.
    pub fn create<C, L, E>(callback: Result<C, E>, log_callback: Option<Result<L, E>>) -> (res:
        Result<(NowPlaying, C, Option<L>), E>)
        ensures
            res == match callback {
                Ok(callback) => Ok::<(NowPlaying, C, Option<L>), E>(
                    (
                        NowPlaying::fresh(),
                        callback,
                        match log_callback {
                            Some(Ok(log_callback)) => Some(log_callback),
                            _ => None,
                        },
                    ),
                ),
                Err(error) => Err(error),
            },
    {
        match callback {
            Ok(callback) => {
                let log = match log_callback {
                    Some(Ok(log_callback)) => Some(log_callback),
                    _ => None,
                };
                Ok((NowPlaying::new(), callback, log))
            },
            Err(error) => Err(error),
        }
    }

    pub fn new() -> (res: NowPlaying)
        ensures
            res == NowPlaying::fresh(),
    {
        NowPlaying { channel: false, reader: false, cancelled: false, worker: false }
    }

    /// Begins a subscription: a new token and a new channel are to be made for a new worker.
    /// Tells whether the token so far is to be cancelled first.
    pub fn subscribe(&mut self) -> (res: bool)
        ensures
            *final(self) == old(self).subscribing(),
            res == !old(self).cancelled,
    {
        let live = !self.cancelled;
        self.cancelled = false;
        self.channel = true;
        self.reader = true;
        live
    }

    /// Notes that the worker of the subscription runs.
    pub fn worker_started(&mut self)
        ensures
            *final(self) == old(self).subscribed(),
    {
        self.worker = true;
    }

    /// Notes that no worker could be started for the subscription; its end of the channel is gone.
    pub fn worker_failed(&mut self)
        ensures
            *final(self) == old(self).unread(),
    {
        self.reader = false;
    }

    /// Ends the subscription: the token is to be cancelled. Tells whether there is a worker to
    /// wait for.
    pub fn unsubscribe(&mut self) -> (res: bool)
        ensures
            *final(self) == old(self).unsubscribing(),
            res == old(self).worker,
    {
        let running = self.worker;
        self.cancelled = true;
        self.worker = false;
        running
    }

    /// Notes that the worker that was waited for has ended, and answers the caller by how it has.
    pub fn worker_ended(&mut self, outcome: Result<(), String>) -> (res: Result<(), ClientError>)
        ensures
            *final(self) == old(self).unread(),
            res == match outcome {
                Ok(_) => Ok::<(), ClientError>(()),
                Err(detail) => Err(ClientError::JoinFailed(detail)),
            },
    {
        self.reader = false;
        match outcome {
            Ok(_) => Ok(()),
            Err(detail) => Err(ClientError::JoinFailed(detail)),
        }
    }

    /// The command to put into the channel to the worker.
    pub fn send_command(&self, command: PlayerCommand) -> (res: Result<Command, ClientError>)
        ensures
            self.sends(command, res),
    {
        if !self.channel {
            Err(ClientError::WorkerNotInitialized)
        } else if self.reader {
            Ok(Command::from(command))
        } else {
            Err(ClientError::SendFailed("SendError { .. }".to_string()))
        }
    }

    pub fn play(&self, to: Option<String>) -> (res: Result<Command, ClientError>)
        ensures
            self.sends(PlayerCommand { to, data: PlayerCommandData::Play }, res),
    {
        self.send_command(PlayerCommand { to, data: PlayerCommandData::Play })
    }

    pub fn pause(&self, to: Option<String>) -> (res: Result<Command, ClientError>)
        ensures
            self.sends(PlayerCommand { to, data: PlayerCommandData::Pause }, res),
    {
        self.send_command(PlayerCommand { to, data: PlayerCommandData::Pause })
    }

    pub fn play_pause(&self, to: Option<String>) -> (res: Result<Command, ClientError>)
        ensures
            self.sends(PlayerCommand { to, data: PlayerCommandData::PlayPause }, res),
    {
        self.send_command(PlayerCommand { to, data: PlayerCommandData::PlayPause })
    }

    pub fn next_track(&self, to: Option<String>) -> (res: Result<Command, ClientError>)
        ensures
            self.sends(PlayerCommand { to, data: PlayerCommandData::NextTrack }, res),
    {
        self.send_command(PlayerCommand { to, data: PlayerCommandData::NextTrack })
    }

    pub fn previous_track(&self, to: Option<String>) -> (res: Result<Command, ClientError>)
        ensures
            self.sends(PlayerCommand { to, data: PlayerCommandData::PreviousTrack }, res),
    {
        self.send_command(PlayerCommand { to, data: PlayerCommandData::PreviousTrack })
    }

    pub fn seek_to(&self, position_ms: u32, to: Option<String>) -> (res: Result<
        Command,
        ClientError,
    >)
        ensures
            self.sends(PlayerCommand { to, data: PlayerCommandData::SeekTo { position_ms } }, res),
    {
        self.send_command(PlayerCommand { to, data: PlayerCommandData::SeekTo { position_ms } })
    }

    pub fn set_volume(&self, volume: u8, to: Option<String>) -> (res: Result<Command, ClientError>)
        ensures
            self.sends(PlayerCommand { to, data: PlayerCommandData::SetVolume { volume } }, res),
    {
        self.send_command(PlayerCommand { to, data: PlayerCommandData::SetVolume { volume } })
    }

    pub fn set_shuffle(&self, shuffle: bool, to: Option<String>) -> (res: Result<
        Command,
        ClientError,
    >)
        ensures
            self.sends(PlayerCommand { to, data: PlayerCommandData::SetShuffle { shuffle } }, res),
    {
        self.send_command(PlayerCommand { to, data: PlayerCommandData::SetShuffle { shuffle } })
    }
}

/// What the worker behind a subscription is told.
#[derive(Debug)]
pub enum SubscriptionEvent {
    Commanded(Command),
    /// The player has reported a state.
    Reported(state::NowPlaying),
    Cancelled,
}

/// What the worker behind a subscription does next.
#[derive(Debug)]
pub enum SubscriptionAction {
    /// Hand the command to the player.
    Forward(Command),
    /// Call the caller back with the message.
    Deliver(NowPlayingMessage),
    /// Wait for the next event.
    Wait,
    /// Unsubscribe from the player, and come to an end.
    Unsubscribe,
}

/// The worker behind a subscription.
#[derive(Debug)]
pub struct NowPlayingWorker {
    /// The worker has come to its end.
    pub ended: bool,
}

impl NowPlayingWorker {
    /// The worker after an event.
    pub open spec fn after(self, event: SubscriptionEvent) -> NowPlayingWorker {
        NowPlayingWorker { ended: self.ended || event is Cancelled }
    }

    /// The worker after a list of events.
    pub open spec fn after_all(self, events: Seq<SubscriptionEvent>) -> NowPlayingWorker
        decreases events.len(),
    {
        if events.len() == 0 {
            self
        } else {
            self.after_all(events.drop_last()).after(events.last())
        }
    }

    /// The action that an event leads to.
    pub open spec fn action_on(self, event: SubscriptionEvent) -> SubscriptionAction {
        if self.ended {
            SubscriptionAction::Wait
        } else {
            match event {
                SubscriptionEvent::Commanded(command) => SubscriptionAction::Forward(command),
                SubscriptionEvent::Reported(state) => SubscriptionAction::Deliver(
                    message_of(state),
                ),
                SubscriptionEvent::Cancelled => SubscriptionAction::Unsubscribe,
            }
        }
    }

    /// A worker whose player has been created and subscribed to, together with that player.
    /// `created` and `subscribed` say how that went; a player that could not be created is not
    /// subscribed to.
    pub fn init<P>(created: Result<P, String>, subscribed: Result<(), String>) -> (res: Result<
        (NowPlayingWorker, P),
        ClientError,
    >)
        ensures
            res == match (created, subscribed) {
                (Err(detail), _) => Err::<(NowPlayingWorker, P), ClientError>(
                    ClientError::CreateFailed(detail),
                ),
                (Ok(_), Err(detail)) => Err(ClientError::SubscribeFailed(detail)),
                (Ok(player), Ok(_)) => Ok((NowPlayingWorker { ended: false }, player)),
            },
    {
        match created {
            Ok(player) => match subscribed {
                Ok(_) => Ok((NowPlayingWorker { ended: false }, player)),
                Err(detail) => Err(ClientError::SubscribeFailed(detail)),
            },
            Err(detail) => Err(ClientError::CreateFailed(detail)),
        }
    }

    /// What the worker does on an event. A worker that has ended does nothing more.
    pub fn on_event(&mut self, event: SubscriptionEvent) -> (res: SubscriptionAction)
        ensures
            *final(self) == old(self).after(event),
            res == old(self).action_on(event),
    {
        if self.ended {
            return SubscriptionAction::Wait;
        }
        match event {
            SubscriptionEvent::Commanded(command) => SubscriptionAction::Forward(command),
            SubscriptionEvent::Reported(state) => SubscriptionAction::Deliver(
                NowPlayingMessage::from(state),
            ),
            SubscriptionEvent::Cancelled => {
                self.ended = true;
                SubscriptionAction::Unsubscribe
            },
        }
    }
}

/// Once a worker has been cancelled, nothing follows: no later event leads to a command that is
/// forwarded or a message that is delivered.
pub proof fn cancelled_worker_is_silent(
    worker: NowPlayingWorker,
    events: Seq<SubscriptionEvent>,
    i: int,
    event: SubscriptionEvent,
)
    requires
        0 <= i < events.len(),
        events[i] is Cancelled,
    ensures
        worker.after_all(events).ended,
        worker.after_all(events).action_on(event) == SubscriptionAction::Wait,
    decreases events.len(),
{
    if i < events.len() - 1 {
        cancelled_worker_is_silent(worker, events.drop_last(), i, event);
    }
}

/// What a caller can do.
pub enum ClientOp {
    /// Subscribe; `started` tells whether the worker could be started.
    Subscribe { started: bool },
    Unsubscribe,
}

/// A caller's subscription together with its tokens, after a list of requests.
pub open spec fn client_after(ops: Seq<ClientOp>) -> (NowPlaying, Tokens)
    decreases ops.len(),
{
    if ops.len() == 0 {
        (NowPlaying::fresh(), Tokens::fresh())
    } else {
        let (client, tokens) = client_after(ops.drop_last());
        match ops.last() {
            ClientOp::Subscribe { started } => {
                let renewed = (if !client.cancelled {
                    tokens.with_cancelled()
                } else {
                    tokens
                }).renewed();
                if started {
                    (client.subscribing().subscribed(), renewed.with_worker())
                } else {
                    (client.subscribing().unread(), renewed)
                }
            },
            ClientOp::Unsubscribe => (client.unsubscribed(), tokens.with_cancelled()),
        }
    }
}

/// Whatever a caller has done, the client knows whether its token is cancelled, and only the
/// worker that was started last can hold the current token.
pub proof fn client_knows_its_token(ops: Seq<ClientOp>)
    ensures
        client_after(ops).1.ordered(),
        client_after(ops).0.cancelled == client_after(ops).1.cancelled.last(),
        forall|i: int|
            0 <= i < client_after(ops).1.workers.len() - 1 ==> #[trigger] client_after(
                ops,
            ).1.workers[i] < client_after(ops).1.cancelled.len() - 1,
    decreases ops.len(),
{
    if ops.len() > 0 {
        client_knows_its_token(ops.drop_last());
        let before = client_after(ops.drop_last()).1;
        let after = client_after(ops).1;
        assert(forall|i: int|
            0 <= i < before.workers.len() ==> after.workers[i] == before.workers[i]);
    }
}

/// At most one worker lives at a time, however often a caller subscribes: every new
/// subscription cancels the one before.
pub proof fn at_most_one_worker_lives(ops: Seq<ClientOp>, i: int, j: int)
    requires
        client_after(ops).1.lives(i),
        client_after(ops).1.lives(j),
    ensures
        i == j,
{
    client_knows_its_token(ops);
}

/// Once a caller has unsubscribed, no worker lives, and there is none left to wait for.
pub proof fn unsubscribing_ends_every_worker(ops: Seq<ClientOp>, i: int)
    requires
        ops.len() > 0,
        ops.last() is Unsubscribe,
    ensures
        !client_after(ops).1.lives(i),
        !client_after(ops).0.worker,
{
    client_knows_its_token(ops);
}

/// A living worker reads the current channel: the one that holds the current token, since every
/// subscription makes a new token and a new channel together.
pub open spec fn channel_has_reader(tokens: Tokens) -> bool {
    exists|i: int| #[trigger]
        tokens.lives(i) && tokens.workers[i] == tokens.cancelled.len() - 1
}

/// The client knows whether a living worker reads its channel, and waits for such a worker when
/// the caller unsubscribes.
pub proof fn client_knows_its_reader(ops: Seq<ClientOp>)
    ensures
        client_after(ops).0.reader == channel_has_reader(client_after(ops).1),
        client_after(ops).0.reader ==> client_after(ops).0.worker,
    decreases ops.len(),
{
    client_knows_its_token(ops);
    if ops.len() > 0 {
        client_knows_its_reader(ops.drop_last());
        client_knows_its_token(ops.drop_last());
        let tokens = client_after(ops).1;
        if ops.last() == (ClientOp::Subscribe { started: true }) {
            assert(tokens.lives(tokens.workers.len() - 1));
        }
    }
}

/// The caller has a channel exactly where it has subscribed at some time.
proof fn lemma_channel(ops: Seq<ClientOp>)
    ensures
        client_after(ops).0.channel <==> exists|i: int|
            0 <= i < ops.len() && (#[trigger] ops[i]) is Subscribe,
    decreases ops.len(),
{
    if ops.len() > 0 {
        let init = ops.drop_last();
        lemma_channel(init);
        if client_after(init).0.channel {
            let i = choose|i: int| 0 <= i < init.len() && (#[trigger] init[i]) is Subscribe;
            assert(ops[i] is Subscribe);
        }
        if exists|i: int| 0 <= i < ops.len() && (#[trigger] ops[i]) is Subscribe {
            let i = choose|i: int| 0 <= i < ops.len() && (#[trigger] ops[i]) is Subscribe;
            if i < init.len() {
                assert(init[i] is Subscribe);
            }
        }
        if ops.last() is Subscribe {
            assert(ops[ops.len() - 1] is Subscribe);
        }
    }
}

/// A caller that has never subscribed is answered every command by a refusal that says so, and no
/// other caller is.
pub proof fn commands_need_a_subscription(
    ops: Seq<ClientOp>,
    command: PlayerCommand,
    res: Result<Command, ClientError>,
)
    requires
        client_after(ops).0.sends(command, res),
    ensures
        res == Err::<Command, ClientError>(ClientError::WorkerNotInitialized) <==> forall|i: int|
            0 <= i < ops.len() ==> (#[trigger] ops[i]) is Unsubscribe,
{
    lemma_channel(ops);
    if forall|i: int| 0 <= i < ops.len() ==> (#[trigger] ops[i]) is Unsubscribe {
        assert forall|i: int| 0 <= i < ops.len() implies !((#[trigger] ops[i]) is Subscribe) by {
            assert(ops[i] is Unsubscribe);
        }
    }
    if !client_after(ops).0.channel {
        assert forall|i: int| 0 <= i < ops.len() implies (#[trigger] ops[i]) is Unsubscribe by {
            assert(!(ops[i] is Subscribe));
        }
    }
}

/// A command of a caller that is subscribed goes into a channel that a living worker reads.
pub proof fn commands_go_through_while_subscribed(
    ops: Seq<ClientOp>,
    command: PlayerCommand,
    res: Result<Command, ClientError>,
)
    requires
        ops.len() > 0,
        ops.last() == (ClientOp::Subscribe { started: true }),
        client_after(ops).0.sends(command, res),
    ensures
        res == Ok::<Command, ClientError>(command_of(command)),
        channel_has_reader(client_after(ops).1),
{
    client_knows_its_reader(ops);
}

/// A caller that has subscribed and then unsubscribed, and not subscribed since, is answered every
/// command by the failure to send it, and there is no worker that the command could reach.
pub proof fn commands_fail_after_unsubscribing(
    ops: Seq<ClientOp>,
    command: PlayerCommand,
    res: Result<Command, ClientError>,
)
    requires
        exists|i: int| 0 <= i < ops.len() && (#[trigger] ops[i]) is Subscribe,
        ops.last() is Unsubscribe,
        client_after(ops).0.sends(command, res),
    ensures
        res matches Err(error) && error is SendFailed && has_prefix(
            error.text(),
            "failed to send command: "@,
        ),
        forall|i: int| !(#[trigger] client_after(ops).1.lives(i)),
{
    lemma_channel(ops);
    client_knows_its_token(ops);
    client_knows_its_reader(ops);
    assert forall|i: int| !(#[trigger] client_after(ops).1.lives(i)) by {
        unsubscribing_ends_every_worker(ops, i);
    }
    let text = res->Err_0.text();
    assert(text.take("failed to send command: "@.len() as int) =~= "failed to send command: "@);
}

/// A worker that has not ended delivers every state that is reported, told field by field as it
/// was reported, and nothing else; a command it forwards unchanged.
pub proof fn report_is_delivered_unchanged(
    worker: NowPlayingWorker,
    state: state::NowPlaying,
    command: Command,
)
    requires
        !worker.ended,
    ensures
        worker.action_on(SubscriptionEvent::Reported(state)) matches SubscriptionAction::Deliver(
            message,
        ) && {
            &&& message@ == state@
            &&& message.album == state.album
            &&& message.artist == state.artist
            &&& message.playlist == state.playlist
            &&& message.playlist_id == state.playlist_id
            &&& message.track_name == state.track_name
            &&& message.shuffle_state == state.shuffle_state
            &&& message.repeat_state == state.repeat_state
            &&& message.is_playing == state.is_playing
            &&& message.can_fast_forward == state.can_fast_forward
            &&& message.can_skip == state.can_skip
            &&& message.can_like == state.can_like
            &&& message.can_change_volume == state.can_change_volume
            &&& message.can_set_output == state.can_set_output
            &&& message.track_duration == state.track_duration
            &&& message.track_progress == state.track_progress
            &&& message.playback_rate == state.playback_rate
            &&& message.volume == state.volume
            &&& message.device == state.device
            &&& message.id == state.id
            &&& message.device_id == state.device_id
            &&& message.url == state.url
            &&& message.thumbnail == state.thumbnail
        },
        worker.action_on(SubscriptionEvent::Commanded(command)) matches SubscriptionAction::Forward(
            passed,
        ) && passed.to == command.to && passed.data == command.data,
        worker.action_on(SubscriptionEvent::Cancelled) is Unsubscribe,
        !worker.after(SubscriptionEvent::Reported(state)).ended,
        !worker.after(SubscriptionEvent::Commanded(command)).ended,
        worker.after(SubscriptionEvent::Cancelled).ended,
{
}

/// Each failure is told to the caller in its own words, followed by the detail.
pub proof fn failures_are_told_apart(detail: String)
    ensures
        ClientError::WorkerNotInitialized.text() == "worker not initialized"@,
        ClientError::SendFailed(detail).text() == "failed to send command: "@ + detail@,
        ClientError::JoinFailed(detail).text() == "failed to join worker: "@ + detail@,
        ClientError::CreateFailed(detail).text() == "failed to create player: "@ + detail@,
        ClientError::SubscribeFailed(detail).text() == "failed to subscribe to player: "@ + detail@,
{
}

/// A client begins with nothing. Subscribing gives it a channel, something that reads it, and a
/// live token, and leaves an earlier worker to be waited for; a worker that starts is noted, and
/// one that fails or has ended leaves the channel unread. Unsubscribing cancels the token and
/// keeps the channel.
pub proof fn client_steps(client: NowPlaying)
    ensures
        ({
            let fresh = NowPlaying::fresh();
            !fresh.channel && !fresh.reader && !fresh.cancelled && !fresh.worker
        }),
        ({
            let next = client.subscribing();
            next.channel && next.reader && !next.cancelled && next.worker == client.worker
        }),
        ({
            let next = client.subscribed();
            &&& next.worker && next.channel == client.channel && next.reader == client.reader
            &&& next.cancelled == client.cancelled
        }),
        ({
            let next = client.unread();
            &&& !next.reader && next.channel == client.channel && next.worker == client.worker
            &&& next.cancelled == client.cancelled
        }),
        ({
            let next = client.unsubscribing();
            &&& next.cancelled && !next.worker && next.channel == client.channel
            &&& next.reader == client.reader
        }),
{
}

/// A command is answered by whether there is a channel and something that reads it: it goes
/// through exactly where both hold, for the device that the caller names and with what is asked.
pub proof fn command_is_sent_as_asked(
    client: NowPlaying,
    request: PlayerCommand,
    res: Result<Command, ClientError>,
)
    requires
        client.sends(request, res),
    ensures
        res is Ok <==> client.channel && client.reader,
        res matches Ok(command) ==> command.to == request.to && {
            &&& request.data is Play <==> command.data is Play
            &&& request.data is Pause <==> command.data is Pause
            &&& request.data is PlayPause <==> command.data is PlayPause
            &&& request.data is NextTrack <==> command.data is NextTrack
            &&& request.data is PreviousTrack <==> command.data is PreviousTrack
            &&& request.data matches PlayerCommandData::SeekTo { position_ms } ==> command.data
                == CommandData::SeekTo(position_ms)
            &&& request.data matches PlayerCommandData::SetVolume { volume } ==> command.data
                == CommandData::SetVolume(volume)
            &&& request.data matches PlayerCommandData::SetShuffle { shuffle } ==> command.data
                == CommandData::SetShuffle(shuffle)
        },
        res matches Err(error) ==> if client.channel {
            error.text() == "failed to send command: SendError { .. }"@
        } else {
            error.text() == "worker not initialized"@
        },
{
    reveal_strlit("failed to send command: SendError { .. }");
    reveal_strlit("failed to send command: ");
    reveal_strlit("SendError { .. }");
    assert("failed to send command: "@ + "SendError { .. }"@
        =~= "failed to send command: SendError { .. }"@);
}

} // verus!
