use discord_ipc_bridge::discord::events::User;
use discord_ipc_bridge::ipc::server::{init_message, on_client_input, socket_path, ClientInput, ClientOutput};
use discord_ipc_bridge::ipc::Command;
use discord_ipc_bridge::State;

#[test]
fn socket_path_precedence() {
    assert_eq!(socket_path(Some("/x/sock".to_string()), Some("/run/user/1000".to_string())), "/x/sock");
    assert_eq!(socket_path(None, Some("/run/user/1000".to_string())), "/run/user/1000/discord-bridge");
    assert_eq!(socket_path(None, None), "/tmp/discord-bridge");
}

#[test]
fn init_message_carries_user_and_channel() {
    let mut s = State::new();
    s.set_voice_channel(Some("c".to_string()), None);
    let user = User { id: "1".to_string(), avatar: "a".to_string() };
    let m = init_message(&s, &user);
    assert_eq!(m.user.id, "1");
    assert_eq!(m.user.avatar, "a");
    assert_eq!(m.channel_id.as_deref(), Some("c"));
    let m = init_message(&State::new(), &user);
    assert!(m.channel_id.is_none());
}

#[test]
fn client_inputs() {
    assert!(matches!(on_client_input(ClientInput::Line(Some(Command::ToggleMute))), ClientOutput::Forward(Command::ToggleMute)));
    assert!(matches!(on_client_input(ClientInput::Line(None)), ClientOutput::Continue));
    assert!(matches!(on_client_input(ClientInput::Closed), ClientOutput::Stop));
    assert!(matches!(on_client_input(ClientInput::Lagged(3)), ClientOutput::Continue));
    assert!(matches!(on_client_input(ClientInput::BroadcastClosed), ClientOutput::Stop));
    match on_client_input(ClientInput::Event(b"{\"evt\":\"X\"}".to_vec())) {
        ClientOutput::Write(line) => assert_eq!(line, b"{\"evt\":\"X\"}\n".to_vec()),
        _ => panic!("event not written"),
    }
}
