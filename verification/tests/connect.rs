use discord_ipc_bridge::discord::client::Outgoing;
use discord_ipc_bridge::discord::connect::{
    authorization_result, authorize_command, ConnectAction, ConnectEvent, ConnectStage, ConnectionError,
    Connector, AuthorizationError,
};
use discord_ipc_bridge::discord::events::User;
use discord_ipc_bridge::discord::frames::{ReadError, WriteError};
use discord_ipc_bridge::discord::payload::Commands;
use discord_ipc_bridge::discord::response::{Commands as ResponseCommands, Response};
use discord_ipc_bridge::discord::session::{CacheError, OAuthError, Session, Timestamp};

fn session(token: &str) -> Session {
    Session {
        access_token: token.to_string(),
        expires_at: Timestamp { secs: 2_000_000_000, nanos: 0 },
        refresh_token: "r".to_string(),
    }
}

fn user() -> User {
    User { id: "9".to_string(), avatar: "av".to_string() }
}

fn step(c: Connector, e: ConnectEvent) -> (Connector, ConnectAction) {
    assert!(c.expects(&e));
    c.step(e)
}

fn sent_command(a: &ConnectAction) -> &Commands {
    match a {
        ConnectAction::Send(Outgoing::Command(p)) => &p.cmd,
        _ => panic!("expected a command"),
    }
}

fn through_handshake(client_id: &str) -> Connector {
    let c = Connector::new(client_id);
    let (c, a) = step(c, ConnectEvent::Begin);
    assert!(matches!(&a, ConnectAction::Send(Outgoing::Handshake(h)) if h.v == 1 && h.client_id == client_id));
    let (c, a) = step(c, ConnectEvent::Written(Ok(())));
    assert!(matches!(a, ConnectAction::ReadFrame));
    let (c, a) = step(c, ConnectEvent::FrameRead(Ok(Err("not a response".to_string()))));
    assert!(matches!(a, ConnectAction::LoadCache));
    c
}

#[test]
fn connect_with_cached_session() {
    let c = through_handshake("app");
    let (c, a) = step(c, ConnectEvent::CacheLoaded(Ok(session("cached"))));
    assert!(matches!(sent_command(&a), Commands::Authenticate { access_token } if access_token == "cached"));
    let (c, a) = step(c, ConnectEvent::Written(Ok(())));
    assert!(matches!(a, ConnectAction::ReadFrame));
    let resp = Response { cmd: ResponseCommands::Authenticate { user: user() } };
    let (c, a) = step(c, ConnectEvent::FrameRead(Ok(Ok(resp))));
    assert!(matches!(a, ConnectAction::Finish(Ok(u)) if u.id == "9"));
    assert!(matches!(c.stage, ConnectStage::Finished));
}

#[test]
fn connect_with_authorization() {
    let c = through_handshake("app");
    let (c, a) = step(c, ConnectEvent::CacheLoaded(Err(CacheError::Read("missing".to_string()))));
    match sent_command(&a) {
        Commands::Authorize { client_id, scopes } => {
            assert_eq!(client_id, "app");
            assert_eq!(scopes, &vec!["rpc", "identify", "rpc.voice.write", "rpc.voice.read"]);
        }
        _ => panic!("expected the authorization command"),
    }
    let (c, _) = step(c, ConnectEvent::Written(Ok(())));
    let resp = Response { cmd: ResponseCommands::Authorize { code: "code1".to_string() } };
    let (c, a) = step(c, ConnectEvent::FrameRead(Ok(Ok(resp))));
    assert!(matches!(&a, ConnectAction::ExchangeCode(code) if code == "code1"));
    let (c, a) = step(c, ConnectEvent::TokenExchanged(Ok(session("fresh"))));
    assert!(matches!(&a, ConnectAction::StoreCache(s) if s.access_token == "fresh"));
    let (c, a) = step(c, ConnectEvent::CacheStored(Ok(())));
    assert!(matches!(sent_command(&a), Commands::Authenticate { access_token } if access_token == "fresh"));
    let (c, _) = step(c, ConnectEvent::Written(Ok(())));
    let resp = Response { cmd: ResponseCommands::Error { code: 4006, message: "no".to_string() } };
    let (_, a) = step(c, ConnectEvent::FrameRead(Ok(Ok(resp))));
    assert!(matches!(a, ConnectAction::Finish(Err(ConnectionError::GetUser))));
}

#[test]
fn unexpected_authorization_answer_fails() {
    let c = through_handshake("app");
    let (c, _) = step(c, ConnectEvent::CacheLoaded(Err(CacheError::Parse("bad".to_string()))));
    let (c, _) = step(c, ConnectEvent::Written(Ok(())));
    let resp = Response { cmd: ResponseCommands::Error { code: 5000, message: "denied".to_string() } };
    let (_, a) = step(c, ConnectEvent::FrameRead(Ok(Ok(resp))));
    assert!(matches!(
        a,
        ConnectAction::Finish(Err(ConnectionError::Authorize(AuthorizationError::Failed(ResponseCommands::Error { code: 5000, .. }))))
    ));
}

#[test]
fn connect_errors_are_reported() {
    let c = Connector::new("app");
    let (c, _) = step(c, ConnectEvent::Begin);
    let (_, a) = step(c, ConnectEvent::Written(Err(WriteError::Io("broken pipe".to_string()))));
    assert!(matches!(a, ConnectAction::Finish(Err(ConnectionError::Write(WriteError::Io(_))))));

    let c = through_handshake("app");
    let (c, _) = step(c, ConnectEvent::CacheLoaded(Err(CacheError::Read("x".to_string()))));
    let (c, _) = step(c, ConnectEvent::Written(Ok(())));
    let (_, a) = step(c, ConnectEvent::FrameRead(Err(ReadError::Io("eof".to_string()))));
    assert!(matches!(a, ConnectAction::Finish(Err(ConnectionError::Authorize(AuthorizationError::Read(_))))));

    let c = through_handshake("app");
    let (c, _) = step(c, ConnectEvent::CacheLoaded(Err(CacheError::Read("x".to_string()))));
    let (c, _) = step(c, ConnectEvent::Written(Ok(())));
    let resp = Response { cmd: ResponseCommands::Authorize { code: "c".to_string() } };
    let (c, _) = step(c, ConnectEvent::FrameRead(Ok(Ok(resp))));
    let (_, a) = step(c, ConnectEvent::TokenExchanged(Err(OAuthError::TokenExchange("503".to_string()))));
    assert!(matches!(a, ConnectAction::Finish(Err(ConnectionError::Authenticate(OAuthError::TokenExchange(_))))));
}

#[test]
fn finished_connector_expects_nothing() {
    let c = Connector::new("app");
    let (c, _) = step(c, ConnectEvent::Begin);
    let (c, _) = step(c, ConnectEvent::Written(Err(WriteError::Io("x".to_string()))));
    assert!(!c.expects(&ConnectEvent::Begin));
    assert!(!c.expects(&ConnectEvent::Written(Ok(()))));
}

#[test]
fn authorization_result_takes_the_code() {
    let r = authorization_result(Response { cmd: ResponseCommands::Authorize { code: "abc".to_string() } });
    assert!(matches!(r, Ok(code) if code == "abc"));
    assert!(matches!(authorize_command("id"), Commands::Authorize { client_id, .. } if client_id == "id"));
}
