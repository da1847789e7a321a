//! The decisions of the IPC server: where its socket is, what it tells a new
//! client, and what it does with each line from a client and each event.
use vstd::prelude::*;
use vstd::string::*;

use crate::discord::events::User;
use crate::ipc::command::Command;
use crate::State;

verus! {

/// The socket path where neither `IPC_socket_path` nor `XDG_RUNTIME_DIR` is set.
pub const DEFAULT_SOCKET_PATH: &'static str = "/tmp/discord-bridge";

/// The name of the socket in the runtime directory.
pub const SOCKET_NAME: &'static str = "discord-bridge";

/// The path of the server's socket, given the values of the variables
/// `IPC_socket_path` and `XDG_RUNTIME_DIR` (`None` where unset): the first
/// where it is set, else `discord-bridge` in the runtime directory, else
/// `/tmp/discord-bridge`.
pub open spec fn socket_path_for(ipc_socket_path: Option<String>, xdg_runtime_dir: Option<String>) -> Seq<char> {
    match ipc_socket_path {
        Some(p) => p@,
        None => match xdg_runtime_dir {
            Some(d) => d@ + "/"@ + SOCKET_NAME@,
            None => DEFAULT_SOCKET_PATH@,
        },
    }
}

/// The path of the server's socket.
pub fn socket_path(ipc_socket_path: Option<String>, xdg_runtime_dir: Option<String>) -> (r: String)
    ensures
        r@ == socket_path_for(ipc_socket_path, xdg_runtime_dir),
{
    match ipc_socket_path {
        Some(p) => p,
        None => match xdg_runtime_dir {
            Some(d) => {
                let mut path = d;
                path.append("/");
                path.append(SOCKET_NAME);
                path
            },
            None => String::from_str(DEFAULT_SOCKET_PATH),
        },
    }
}

/// What the server tells a new client: the user and the voice channel.
/// The wire form is `{"evt": "INIT", "data": {"user": ..., "channel_id": ...}}`.
#[derive(Debug)]
pub struct InitMessage {
    pub user: User,
    pub channel_id: Option<String>,
}

/// The message for a new client in `state`.
pub fn init_message(state: &State, user: &User) -> (r: InitMessage)
    ensures
        r.user == *user,
        r.channel_id == state.channel_id,
{
    let channel_id = match &state.channel_id {
        Some(c) => Some(c.clone()),
        None => None,
    };
    InitMessage { user: User { id: user.id.clone(), avatar: user.avatar.clone() }, channel_id }
}

/// Something that happens on a client's connection.
pub enum ClientInput {
    /// The client sent a line; it parses as this command, or not.
    Line(Option<Command>),
    /// The client closed its end.
    Closed,
    /// An event is to be passed on; this is its JSON text.
    Event(Vec<u8>),
    /// The connection fell this many events behind the broadcast.
    Lagged(u64),
    /// The broadcast ended.
    BroadcastClosed,
}

/// What the server does about it.
pub enum ClientOutput {
    /// Hand the command to the Discord client.
    Forward(Command),
    /// Write these bytes to the client.
    Write(Vec<u8>),
    /// Carry on.
    Continue,
    /// End the connection.
    Stop,
}

/// What the server does about `input`: forward commands, skip lines that are
/// not commands, write each event as one line, skip lags, and end the
/// connection when either side closes.
pub open spec fn output_for(input: ClientInput) -> ClientOutput {
    match input {
        ClientInput::Line(Some(c)) => ClientOutput::Forward(c),
        ClientInput::Line(None) => ClientOutput::Continue,
        ClientInput::Closed => ClientOutput::Stop,
        ClientInput::Event(text) => ClientOutput::Write(text),
        ClientInput::Lagged(_) => ClientOutput::Continue,
        ClientInput::BroadcastClosed => ClientOutput::Stop,
    }
}

/// The line that carries a message to a client: its text and a newline.
pub open spec fn line_of(text: Seq<u8>) -> Seq<u8> {
    text.push(10u8)
}

/// `output` is what the server does about `input`: for an event, write
/// its text as one line; otherwise as `output_for` says.
pub open spec fn is_client_output(input: ClientInput, output: ClientOutput) -> bool {
    match input {
        ClientInput::Event(text) => output matches ClientOutput::Write(line) && line@ == line_of(text@),
        _ => output == output_for(input),
    }
}

/// What the server does about something on a client's connection.
pub fn on_client_input(input: ClientInput) -> (r: ClientOutput)
    ensures
        is_client_output(input, r),
        input matches ClientInput::Line(Some(c)) ==> r == ClientOutput::Forward(c),
{
    match input {
        ClientInput::Line(Some(c)) => ClientOutput::Forward(c),
        ClientInput::Line(None) => ClientOutput::Continue,
        ClientInput::Closed => ClientOutput::Stop,
        ClientInput::Event(text) => {
            let mut line = text;
            line.push(10u8);
            ClientOutput::Write(line)
        },
        ClientInput::Lagged(_) => ClientOutput::Continue,
        ClientInput::BroadcastClosed => ClientOutput::Stop,
    }
}

/// The bytes that a run of a client's connection writes, output after output.
pub open spec fn written_bytes(outputs: Seq<ClientOutput>) -> Seq<u8>
    decreases outputs.len(),
{
    if outputs.len() == 0 {
        seq![]
    } else {
        written_bytes(outputs.drop_last()) + match outputs.last() {
            ClientOutput::Write(line) => line@,
            _ => seq![],
        }
    }
}

/// The lines of the events among a run's inputs, in order.
pub open spec fn event_lines(inputs: Seq<ClientInput>) -> Seq<u8>
    decreases inputs.len(),
{
    if inputs.len() == 0 {
        seq![]
    } else {
        event_lines(inputs.drop_last()) + match inputs.last() {
            ClientInput::Event(text) => line_of(text@),
            _ => seq![],
        }
    }
}

/// Over a run of a client's connection, the bytes written to the client are
/// exactly the events' texts, in the order received, each followed by a
/// newline; lines from the client, lags and closings write nothing.
pub proof fn lemma_client_writes_event_lines(inputs: Seq<ClientInput>, outputs: Seq<ClientOutput>)
    requires
        outputs.len() == inputs.len(),
        forall|i: int| 0 <= i < inputs.len() ==> is_client_output(inputs[i], #[trigger] outputs[i]),
    ensures
        written_bytes(outputs) == event_lines(inputs),
    decreases inputs.len(),
{
    if inputs.len() > 0 {
        let n = inputs.len() - 1;
        lemma_client_writes_event_lines(inputs.drop_last(), outputs.drop_last());
        assert(is_client_output(inputs[n], outputs[n]));
    }
}

/// A line that parses as a command is forwarded as exactly that command, and
/// nothing else is forwarded.
pub proof fn lemma_commands_forwarded_as_sent(input: ClientInput, output: ClientOutput)
    requires
        is_client_output(input, output),
    ensures
        input matches ClientInput::Line(Some(c)) ==> (output matches ClientOutput::Forward(d) && d == c),
        output matches ClientOutput::Forward(d) ==> input == ClientInput::Line(Some(d)),
{
}

} // verus!
