//! The decisions of the Discord client's main loop: what it sends at start,
//! what it does with each message from Discord and with each command from
//! the IPC clients.
use vstd::prelude::*;

use crate::discord::events::{
    ChannelSubscription, Event, EventData, EventSubscribe, Subscription, SubscriptionCommand,
};
use crate::discord::frames::WriteError;
use crate::discord::payload::{is_nonce, Commands, Payload};
use crate::discord::response::{Commands as ResponseCommands, Response};
use crate::ipc::command::Command;
use crate::{channel_pair, State};

verus! {

/// The opcode of the handshake frame.
pub const OP_HANDSHAKE: u32 = 0;

/// The opcode of every other frame the client sends.
pub const OP_FRAME: u32 = 1;

/// The version of the RPC protocol that the handshake asks for.
pub const RPC_VERSION: u32 = 1;

/// The first message on a connection. The wire form is `{"v": ..., "client_id": ...}`.
#[derive(Debug)]
pub struct Handshake {
    pub v: u32,
    pub client_id: String,
}

/// A message that the client sends to Discord.
#[derive(Debug)]
pub enum Outgoing {
    Handshake(Handshake),
    Command(Payload),
    Subscription(Subscription),
    ChannelSubscription(ChannelSubscription),
}

/// The opcode of the frame that carries a message.
pub open spec fn opcode_of(m: Outgoing) -> u32 {
    match m {
        Outgoing::Handshake(_) => OP_HANDSHAKE,
        _ => OP_FRAME,
    }
}

impl Outgoing {
    /// The opcode of the frame that carries this message.
    pub fn opcode(&self) -> (r: u32)
        ensures
            r == opcode_of(*self),
    {
        match self {
            Outgoing::Handshake(_) => OP_HANDSHAKE,
            _ => OP_FRAME,
        }
    }
}

/// The handshake of a client.
pub fn handshake(client_id: &str) -> (r: Handshake)
    ensures
        r.v == RPC_VERSION,
        r.client_id@ == client_id@,
{
    Handshake { v: RPC_VERSION, client_id: String::from_str(client_id) }
}

/// The kind of a JSON value.
#[derive(Clone, Copy, Debug, PartialEq, Eq, Structural)]
pub enum JsonKind {
    Null,
    Bool,
    Number,
    String,
    Array,
    Object,
}

/// A message from Discord, as far as the loop reads it: the kind of its
/// `nonce` field (`None` where it has none), and the message read as a
/// response and as an event (`None` where it does not parse as one).
pub struct Incoming {
    pub nonce: Option<JsonKind>,
    pub response: Option<Response>,
    pub event: Option<EventData>,
}

/// A message answers a command exactly when its nonce is a string; other
/// messages are events.
pub open spec fn is_response(nonce: Option<JsonKind>) -> bool {
    nonce == Some(JsonKind::String)
}

/// The events that the client follows in the user's voice channel, in the
/// order in which it subscribes to them.
pub open spec fn channel_events() -> Seq<EventSubscribe> {
    seq![
        EventSubscribe::SpeakingStart,
        EventSubscribe::SpeakingStop,
        EventSubscribe::VoiceStateCreate,
        EventSubscribe::VoiceStateUpdate,
        EventSubscribe::VoiceStateDelete,
    ]
}

/// `requests` is one `cmd` request for each of the channel's events, in order,
/// for the channel `channel_id`.
pub open spec fn requests_for(requests: Seq<ChannelSubscription>, cmd: SubscriptionCommand, channel_id: String) -> bool {
    &&& requests.len() == channel_events().len()
    &&& forall|i: int|
        0 <= i < requests.len() ==> {
            &&& (#[trigger] requests[i]).cmd == cmd
            &&& requests[i].evt == channel_events()[i]
            &&& requests[i].channel_id == channel_id
            &&& is_nonce(requests[i].nonce@)
        }
}

/// What the client does when the user's voice channel changes: unsubscribe
/// from the old channel's events, record the new channel, subscribe to the
/// new channel's events. Each step is carried out in turn; when a request
/// cannot be sent, the steps after it are dropped.
pub struct ChannelChange {
    pub unsubscribe: Vec<ChannelSubscription>,
    pub channel_id: Option<String>,
    pub guild_id: Option<String>,
    pub subscribe: Vec<ChannelSubscription>,
}

/// `change` is the channel change from `state` to the channel `channel_id` in
/// the guild `guild_id`: it leaves the channel that `state` records (if both
/// its ids are known), records the new ids, and joins the new channel (if
/// both its ids are known).
pub open spec fn is_channel_change(state: State, channel_id: Option<String>, guild_id: Option<String>, change: ChannelChange) -> bool {
    &&& change.channel_id == channel_id
    &&& change.guild_id == guild_id
    &&& match state.current_channel() {
        Some((old, _)) => requests_for(change.unsubscribe@, SubscriptionCommand::Unsubscribe, old),
        None => change.unsubscribe@.len() == 0,
    }
    &&& match channel_pair(channel_id, guild_id) {
        Some((new, _)) => requests_for(change.subscribe@, SubscriptionCommand::Subscribe, new),
        None => change.subscribe@.len() == 0,
    }
}

/// One `cmd` request for each of the channel's events, for `channel_id`.
fn channel_requests(cmd: SubscriptionCommand, channel_id: &String) -> (r: Vec<ChannelSubscription>)
    ensures
        requests_for(r@, cmd, *channel_id),
{
    let events: Vec<EventSubscribe> = vec![
        EventSubscribe::SpeakingStart,
        EventSubscribe::SpeakingStop,
        EventSubscribe::VoiceStateCreate,
        EventSubscribe::VoiceStateUpdate,
        EventSubscribe::VoiceStateDelete,
    ];
    assert(events@ =~= channel_events());
    let mut out: Vec<ChannelSubscription> = Vec::new();
    let mut i: usize = 0;
    while i < events.len()
        invariant
            events@ == channel_events(),
            i <= events@.len(),
            out@.len() == i,
            forall|j: int|
                0 <= j < i ==> {
                    &&& (#[trigger] out@[j]).cmd == cmd
                    &&& out@[j].evt == channel_events()[j]
                    &&& out@[j].channel_id == *channel_id
                    &&& is_nonce(out@[j].nonce@)
                },
        decreases events@.len() - i,
    {
        let request = match cmd {
            SubscriptionCommand::Subscribe => events[i].subscribe(channel_id),
            SubscriptionCommand::Unsubscribe => events[i].unsubscribe(channel_id),
        };
        out.push(request);
        i = i + 1;
    }
    out
}

/// The channel change from `state` to the channel `new_channel_id` in the
/// guild `new_guild_id`.
pub fn handle_channel_change(state: &State, new_channel_id: Option<String>, new_guild_id: Option<String>) -> (r: ChannelChange)
    ensures
        is_channel_change(*state, new_channel_id, new_guild_id, r),
{
    let old = state.voice_channel();
    let unsubscribe = match &old {
        Some((old_channel_id, _)) => channel_requests(SubscriptionCommand::Unsubscribe, old_channel_id),
        None => Vec::new(),
    };
    let subscribe = match (&new_channel_id, &new_guild_id) {
        (Some(channel_id), Some(_)) => channel_requests(SubscriptionCommand::Subscribe, channel_id),
        _ => Vec::new(),
    };
    ChannelChange { unsubscribe, channel_id: new_channel_id, guild_id: new_guild_id, subscribe }
}

/// What to do next while carrying out a channel change.
pub enum ChangeStep {
    /// Send this request.
    Send(ChannelSubscription),
    /// Record these ids as the user's voice channel.
    Record { channel_id: Option<String>, guild_id: Option<String> },
    /// The change is carried out, or stopped at a request that could not be sent.
    Finish(Result<(), WriteError>),
}

/// A channel change being carried out: the requests still to send for the
/// old channel, the ids still to record, the requests still to send for the
/// new channel, and whether it is over.
pub struct ChannelChangeRun {
    pub unsubscribe: Vec<ChannelSubscription>,
    pub record: Option<(Option<String>, Option<String>)>,
    pub subscribe: Vec<ChannelSubscription>,
    pub finished: bool,
}

/// How many steps at most remain in a channel change.
pub open spec fn change_steps_left(run: ChannelChangeRun) -> nat {
    if run.finished {
        0
    } else {
        run.unsubscribe@.len() + (if run.record is Some { 1nat } else { 0nat }) + run.subscribe@.len() + 1
    }
}

/// The step from `before` to `after`, given the outcome of the last request
/// sent (`None` where the last step sent none): a request that could not be
/// sent ends the change with its error; otherwise the change goes on with the
/// next unsubscription, then the recording of the new ids, then the next
/// subscription, and ends when nothing is left.
pub open spec fn is_change_step(
    before: ChannelChangeRun,
    last_write: Option<Result<(), WriteError>>,
    after: ChannelChangeRun,
    step: ChangeStep,
) -> bool {
    match last_write {
        Some(Err(e)) => step == ChangeStep::Finish(Err(e)) && after.finished,
        _ => if before.unsubscribe@.len() > 0 {
            &&& step == ChangeStep::Send(before.unsubscribe@[0])
            &&& after.unsubscribe@ == before.unsubscribe@.drop_first()
            &&& after.record == before.record
            &&& after.subscribe@ == before.subscribe@
            &&& !after.finished
        } else {
            match before.record {
                Some((channel_id, guild_id)) => {
                    &&& step == (ChangeStep::Record { channel_id, guild_id })
                    &&& after.unsubscribe@ == before.unsubscribe@
                    &&& after.record is None
                    &&& after.subscribe@ == before.subscribe@
                    &&& !after.finished
                },
                None => if before.subscribe@.len() > 0 {
                    &&& step == ChangeStep::Send(before.subscribe@[0])
                    &&& after.unsubscribe@ == before.unsubscribe@
                    &&& after.record is None
                    &&& after.subscribe@ == before.subscribe@.drop_first()
                    &&& !after.finished
                } else {
                    step == ChangeStep::Finish(Ok(())) && after.finished
                },
            }
        },
    }
}

impl ChannelChange {
    /// The change, about to be carried out.
    pub fn start(self) -> (r: ChannelChangeRun)
        ensures
            r.unsubscribe == self.unsubscribe,
            r.record == Some((self.channel_id, self.guild_id)),
            r.subscribe == self.subscribe,
            !r.finished,
    {
        ChannelChangeRun {
            unsubscribe: self.unsubscribe,
            record: Some((self.channel_id, self.guild_id)),
            subscribe: self.subscribe,
            finished: false,
        }
    }
}

impl ChannelChangeRun {
    /// Whether the change is over.
    pub fn is_finished(&self) -> (r: bool)
        ensures
            r == self.finished,
    {
        self.finished
    }

    /// The next step of the change, given the outcome of the last request
    /// sent (`None` where the last step sent none).
    pub fn next(&mut self, last_write: Option<Result<(), WriteError>>) -> (r: ChangeStep)
        requires
            !old(self).finished,
        ensures
            is_change_step(*old(self), last_write, *final(self), r),
            change_steps_left(*final(self)) < change_steps_left(*old(self)),
    {
        if let Some(Err(e)) = last_write {
            self.finished = true;
            return ChangeStep::Finish(Err(e));
        }
        if self.unsubscribe.len() > 0 {
            let request = self.unsubscribe.remove(0);
            return ChangeStep::Send(request);
        }
        match self.record.take() {
            Some((channel_id, guild_id)) => {
                return ChangeStep::Record { channel_id, guild_id };
            },
            None => {},
        }
        if self.subscribe.len() > 0 {
            let request = self.subscribe.remove(0);
            return ChangeStep::Send(request);
        }
        self.finished = true;
        ChangeStep::Finish(Ok(()))
    }
}

/// What the client does with a message from Discord, in order.
pub enum Action {
    /// Carry out a channel change.
    ChangeChannel(ChannelChange),
    /// Record the user's mute and deafen settings.
    SetAudioStatus { mute: bool, deaf: bool },
    /// Pass the event on to the IPC clients.
    Broadcast(EventData),
}

/// The actions that answer `msg` in `state`: a response to a command is
/// acted on only where it reports the selected voice channel, and is never
/// passed on; an event is acted on where it reports new voice settings or a
/// new voice channel, and is then passed on; a message that does not parse
/// as what its nonce says it is gives no action.
pub open spec fn is_message_plan(state: State, msg: Incoming, actions: Seq<Action>) -> bool {
    if is_response(msg.nonce) {
        match msg.response {
            Some(Response { cmd: ResponseCommands::GetSelectedVoiceChannel { channel_id, guild_id } }) => {
                &&& actions.len() == 1
                &&& actions[0] matches Action::ChangeChannel(change)
                &&& is_channel_change(state, channel_id, guild_id, change)
            },
            _ => actions.len() == 0,
        }
    } else {
        match msg.event {
            None => actions.len() == 0,
            Some(event) => match event {
                EventData::VoiceSettingsUpdate { mute, deaf } => actions == seq![
                    Action::SetAudioStatus { mute, deaf },
                    Action::Broadcast(event),
                ],
                EventData::VoiceChannelSelect { channel_id, guild_id } => {
                    &&& actions.len() == 2
                    &&& actions[0] matches Action::ChangeChannel(change)
                    &&& is_channel_change(state, channel_id, guild_id, change)
                    &&& actions[1] == Action::Broadcast(event)
                },
                _ => actions == seq![Action::Broadcast(event)],
            },
        }
    }
}

/// The events that a list of actions passes on, in order.
pub open spec fn broadcast_events(actions: Seq<Action>) -> Seq<EventData>
    decreases actions.len(),
{
    if actions.len() == 0 {
        seq![]
    } else {
        broadcast_events(actions.drop_last()) + match actions.last() {
            Action::Broadcast(e) => seq![e],
            _ => seq![],
        }
    }
}

/// The event that a message is to pass on: its event, where it is not a
/// response to a command and parses as an event.
pub open spec fn passed_on(msg: Incoming) -> Seq<EventData> {
    if !is_response(msg.nonce) && msg.event is Some {
        seq![msg.event->0]
    } else {
        seq![]
    }
}

/// The events that a run of the main loop passes on, plan after plan.
pub open spec fn all_broadcasts(plans: Seq<Seq<Action>>) -> Seq<EventData>
    decreases plans.len(),
{
    if plans.len() == 0 {
        seq![]
    } else {
        all_broadcasts(plans.drop_last()) + broadcast_events(plans.last())
    }
}

/// The events that the messages of a run of the main loop are to pass on, in order.
pub open spec fn all_passed_on(msgs: Seq<Incoming>) -> Seq<EventData>
    decreases msgs.len(),
{
    if msgs.len() == 0 {
        seq![]
    } else {
        all_passed_on(msgs.drop_last()) + passed_on(msgs.last())
    }
}

/// A message's plan passes on exactly the message's event, where it has one
/// and is not a response.
pub proof fn lemma_plan_broadcasts(state: State, msg: Incoming, actions: Seq<Action>)
    requires
        is_message_plan(state, msg, actions),
    ensures
        broadcast_events(actions) == passed_on(msg),
{
    reveal_with_fuel(broadcast_events, 3);
    if actions.len() == 1 {
        assert(actions.drop_last() =~= Seq::<Action>::empty());
    } else if actions.len() == 2 {
        assert(actions.drop_last().drop_last() =~= Seq::<Action>::empty());
        assert(actions.drop_last().last() == actions[0]);
    }
}

/// Over a whole run of the main loop, the events passed on to the IPC
/// clients are, in order, exactly the events of the messages that are not
/// responses and parse as events, whatever the state was at each message.
pub proof fn lemma_broadcasts_in_order(states: Seq<State>, msgs: Seq<Incoming>, plans: Seq<Seq<Action>>)
    requires
        states.len() == msgs.len(),
        plans.len() == msgs.len(),
        forall|i: int| 0 <= i < msgs.len() ==> is_message_plan(states[i], msgs[i], #[trigger] plans[i]),
    ensures
        all_broadcasts(plans) == all_passed_on(msgs),
    decreases msgs.len(),
{
    if msgs.len() > 0 {
        let n = msgs.len() - 1;
        lemma_broadcasts_in_order(states.drop_last(), msgs.drop_last(), plans.drop_last());
        assert(is_message_plan(states[n], msgs[n], plans[n]));
        lemma_plan_broadcasts(states[n], msgs[n], plans[n]);
    }
}

fn clone_opt(s: &Option<String>) -> (r: Option<String>)
    ensures
        r == *s,
{
    match s {
        Some(v) => Some(v.clone()),
        None => None,
    }
}

/// The actions that answer a message from Discord in `state`.
pub fn on_discord_message(state: &State, msg: Incoming) -> (r: Vec<Action>)
    ensures
        is_message_plan(*state, msg, r@),
{
    let ghost m = msg;
    let Incoming { nonce, response, event } = msg;
    let mut actions: Vec<Action> = Vec::new();
    let answers_command = match nonce {
        Some(JsonKind::String) => true,
        _ => false,
    };
    if answers_command {
        match response {
            Some(Response { cmd: ResponseCommands::GetSelectedVoiceChannel { channel_id, guild_id } }) => {
                let change = handle_channel_change(state, channel_id, guild_id);
                actions.push(Action::ChangeChannel(change));
            },
            _ => {},
        }
        return actions;
    }
    match event {
        None => {},
        Some(event) => {
            match &event {
                EventData::VoiceSettingsUpdate { mute, deaf } => {
                    actions.push(Action::SetAudioStatus { mute: *mute, deaf: *deaf });
                },
                EventData::VoiceChannelSelect { channel_id, guild_id } => {
                    let change = handle_channel_change(state, clone_opt(channel_id), clone_opt(guild_id));
                    actions.push(Action::ChangeChannel(change));
                },
                _ => {},
            }
            actions.push(Action::Broadcast(event));
        },
    }
    proof {
        if let Some(e) = m.event {
            if let EventData::VoiceSettingsUpdate { mute, deaf } = e {
                assert(actions@ =~= seq![Action::SetAudioStatus { mute, deaf }, Action::Broadcast(e)]);
            } else if let EventData::VoiceChannelSelect { .. } = e {
            } else {
                assert(actions@ =~= seq![Action::Broadcast(e)]);
            }
        }
    }
    actions
}

/// The voice settings command that answers an IPC command in `state`: flip
/// the setting that the command names and leave the other one as it is.
pub open spec fn command_for(state: State, command: Command) -> Commands {
    match command {
        Command::ToggleMute => Commands::SetVoiceSettings { mute: Some(!state.is_muted), deaf: None },
        Command::ToggleDeafen => Commands::SetVoiceSettings { mute: None, deaf: Some(!state.is_deafened) },
    }
}

/// The command to send to Discord for an IPC command in `state`, under a fresh nonce.
pub fn on_command(state: &State, command: Command) -> (r: Payload)
    ensures
        r.cmd == command_for(*state, command),
        command == Command::ToggleMute ==> r.cmd == (Commands::SetVoiceSettings {
            mute: Some(!state.is_muted),
            deaf: None,
        }),
        command == Command::ToggleDeafen ==> r.cmd == (Commands::SetVoiceSettings {
            mute: None,
            deaf: Some(!state.is_deafened),
        }),
        is_nonce(r.nonce@),
{
    let cmd = match command {
        Command::ToggleMute => {
            let (is_muted, _) = state.audio_status();
            Commands::SetVoiceSettings { mute: Some(!is_muted), deaf: None }
        },
        Command::ToggleDeafen => {
            let (_, is_deafened) = state.audio_status();
            Commands::SetVoiceSettings { mute: None, deaf: Some(!is_deafened) }
        },
    };
    cmd.as_payload()
}

/// The messages that the main loop sends before it starts: subscriptions to
/// voice settings updates and to voice channel selections, then a request for
/// the selected voice channel.
pub fn startup_messages() -> (r: Vec<Outgoing>)
    ensures
        r@.len() == 3,
        r@[0] matches Outgoing::Subscription(s) && s.cmd == SubscriptionCommand::Subscribe
            && s.evt == Event::VoiceSettingsUpdate,
        r@[1] matches Outgoing::Subscription(s) && s.cmd == SubscriptionCommand::Subscribe
            && s.evt == Event::VoiceChannelSelect,
        r@[2] matches Outgoing::Command(p) && p.cmd == Commands::GetSelectedVoiceChannel,
        r@[0] matches Outgoing::Subscription(s) && is_nonce(s.nonce@),
        r@[1] matches Outgoing::Subscription(s) && is_nonce(s.nonce@),
        r@[2] matches Outgoing::Command(p) && is_nonce(p.nonce@),
        forall|i: int| 0 <= i < r@.len() ==> opcode_of(#[trigger] r@[i]) == OP_FRAME,
{
    let mut out: Vec<Outgoing> = Vec::new();
    out.push(Outgoing::Subscription(Event::VoiceSettingsUpdate.subscribe()));
    out.push(Outgoing::Subscription(Event::VoiceChannelSelect.subscribe()));
    out.push(Outgoing::Command(Commands::GetSelectedVoiceChannel.as_payload()));
    out
}

/// Channel changes chain: once a channel change has been carried out, the
/// state records the channel it joined, and the next channel change
/// unsubscribes from exactly the events, in the same channel and order, to
/// which the first one subscribed.
pub proof fn lemma_channel_changes_chain(
    s1: State,
    c1: Option<String>,
    g1: Option<String>,
    first: ChannelChange,
    s2: State,
    c2: Option<String>,
    g2: Option<String>,
    second: ChannelChange,
)
    requires
        is_channel_change(s1, c1, g1, first),
        s2.channel_id == first.channel_id,
        s2.guild_id == first.guild_id,
        is_channel_change(s2, c2, g2, second),
    ensures
        s2.current_channel() == channel_pair(c1, g1),
        second.unsubscribe@.len() == first.subscribe@.len(),
        forall|i: int|
            0 <= i < first.subscribe@.len() ==> {
                &&& (#[trigger] second.unsubscribe@[i]).channel_id == first.subscribe@[i].channel_id
                &&& second.unsubscribe@[i].evt == first.subscribe@[i].evt
                &&& second.unsubscribe@[i].cmd == SubscriptionCommand::Unsubscribe
                &&& first.subscribe@[i].cmd == SubscriptionCommand::Subscribe
            },
{
}

/// Toggling asks Discord for the opposite of the setting that the command
/// names, as the state records it, and leaves the other setting alone: for
/// `ToggleMute` the mute asked for differs from the recorded mute and no
/// deafen is asked for; for `ToggleDeafen` the other way round.
pub proof fn lemma_toggle_flips_named_setting(state: State, command: Command, cmd: Commands)
    requires
        cmd == command_for(state, command),
    ensures
        command == Command::ToggleMute ==> (cmd matches Commands::SetVoiceSettings { mute: Some(m), deaf: None }
            && m != state.is_muted),
        command == Command::ToggleDeafen ==> (cmd matches Commands::SetVoiceSettings { mute: None, deaf: Some(d) }
            && d != state.is_deafened),
{
}

/// Toggling twice comes back: once the setting that a toggle asked for is
/// recorded, the same toggle asks for the setting that was recorded before.
pub proof fn lemma_toggle_twice(first: State, second: State, command: Command)
    requires
        command == Command::ToggleMute ==> command_for(first, command) == (Commands::SetVoiceSettings {
            mute: Some(second.is_muted),
            deaf: None,
        }),
        command == Command::ToggleDeafen ==> command_for(first, command) == (Commands::SetVoiceSettings {
            mute: None,
            deaf: Some(second.is_deafened),
        }),
    ensures
        command == Command::ToggleMute ==> command_for(second, command) == (Commands::SetVoiceSettings {
            mute: Some(first.is_muted),
            deaf: None,
        }),
        command == Command::ToggleDeafen ==> command_for(second, command) == (Commands::SetVoiceSettings {
            mute: None,
            deaf: Some(first.is_deafened),
        }),
{
}

/// A voice settings event is recorded as it came: the first action sets the
/// mute setting to the event's `mute` and the deafen setting to its `deaf`,
/// and the second passes the event on unchanged.
pub proof fn lemma_voice_settings_recorded(state: State, msg: Incoming, actions: Seq<Action>, mute: bool, deaf: bool)
    requires
        is_message_plan(state, msg, actions),
        msg.nonce != Some(JsonKind::String),
        msg.event == Some((EventData::VoiceSettingsUpdate { mute, deaf })),
    ensures
        actions.len() == 2,
        (actions[0] matches Action::SetAudioStatus { mute: m, deaf: d } && m == mute && d == deaf),
        actions[1] matches Action::Broadcast(e) && e == (EventData::VoiceSettingsUpdate { mute, deaf }),
{
}

/// A voice channel selection is followed as it came: the channel change
/// records exactly the selected channel and guild ids, and the event is
/// passed on unchanged.
pub proof fn lemma_channel_select_followed(
    state: State,
    msg: Incoming,
    actions: Seq<Action>,
    channel_id: Option<String>,
    guild_id: Option<String>,
)
    requires
        is_message_plan(state, msg, actions),
        msg.nonce != Some(JsonKind::String),
        msg.event == Some((EventData::VoiceChannelSelect { channel_id, guild_id })),
    ensures
        actions.len() == 2,
        actions[0] matches Action::ChangeChannel(c) && c.channel_id == channel_id && c.guild_id == guild_id,
        actions[1] == Action::Broadcast((EventData::VoiceChannelSelect { channel_id, guild_id })),
{
}

} // verus!
