//! Connecting to Discord: the handshake, then a session from the cache or
//! from the user's authorization, then authentication.
//!
//! The connection is a machine: each step takes the outcome of the previous
//! action and says what to do next; the caller carries the actions out.
use vstd::prelude::*;
use vstd::string::*;

use crate::discord::client::{handshake, Handshake, Outgoing, RPC_VERSION};
use crate::discord::events::User;
use crate::discord::frames::{ReadError, WriteError};
use crate::discord::payload::{is_nonce, Commands};
use crate::discord::response::{Commands as ResponseCommands, Response};
use crate::discord::session::{CacheError, OAuthError, Session};

verus! {

/// The scopes that the client asks the user to grant, in order.
pub open spec fn requested_scopes() -> Seq<&'static str> {
    seq!["rpc", "identify", "rpc.voice.write", "rpc.voice.read"]
}

/// Failure to obtain the user's authorization.
#[derive(Debug)]
pub enum AuthorizationError {
    /// The request could not be sent.
    Write(WriteError),
    /// The answer could not be read.
    Read(ReadError),
    /// The answer is not a response; the text is the parser's message.
    Parse(String),
    /// The answer is another response than an authorization.
    Failed(ResponseCommands),
}

/// Failure to connect.
#[derive(Debug)]
pub enum ConnectionError {
    /// The socket could not be opened; the text is the I/O error's message.
    Io(String),
    /// The handshake's answer could not be read; the text is the I/O error's message.
    HandshakeRead(String),
    /// The handshake's answer is not what was expected.
    InvalidHandshake(String),
    /// A frame could not be read.
    Read(ReadError),
    /// A frame could not be written.
    Write(WriteError),
    /// No session could be obtained from the authorization code.
    Authenticate(OAuthError),
    /// The user's authorization could not be obtained.
    Authorize(AuthorizationError),
    /// The session could not be stored in the cache; the text is the I/O error's message.
    CacheWrite(String),
    /// The answer is not a response; the text is the parser's message.
    Parse(String),
    /// The answer to the authentication is not an authentication.
    GetUser,
}

/// The command that asks the user to authorize the client.
pub fn authorize_command(client_id: &str) -> (r: Commands)
    ensures
        r matches Commands::Authorize { client_id: id, scopes } && id@ == client_id@ && scopes@
            == requested_scopes(),
{
    let scopes: Vec<&'static str> = vec!["rpc", "identify", "rpc.voice.write", "rpc.voice.read"];
    assert(scopes@ =~= requested_scopes());
    Commands::Authorize { client_id: String::from_str(client_id), scopes }
}

/// The command that logs in with `access_token`.
pub fn authenticate_command(access_token: String) -> (r: Commands)
    ensures
        r == (Commands::Authenticate { access_token }),
{
    Commands::Authenticate { access_token }
}

/// The authorization code that a response to the authorization command
/// carries, or the failure that it is another response.
pub fn authorization_result(response: Response) -> (r: Result<String, AuthorizationError>)
    ensures
        match response.cmd {
            ResponseCommands::Authorize { code } => r == Ok::<String, AuthorizationError>(code),
            other => r == Err::<String, AuthorizationError>(AuthorizationError::Failed(other)),
        },
{
    match response.cmd {
        ResponseCommands::Authorize { code } => Ok(code),
        other => Err(AuthorizationError::Failed(other)),
    }
}

/// The user that a response to the authentication command names, or
/// `GetUser` where it is another response.
pub fn authentication_result(response: Response) -> (r: Result<User, ConnectionError>)
    ensures
        match response.cmd {
            ResponseCommands::Authenticate { user } => r == Ok::<User, ConnectionError>(user),
            _ => r == Err::<User, ConnectionError>(ConnectionError::GetUser),
        },
{
    match response.cmd {
        ResponseCommands::Authenticate { user } => Ok(user),
        _ => Err(ConnectionError::GetUser),
    }
}

/// Where a connection stands.
pub enum ConnectStage {
    /// Nothing done yet.
    Start,
    /// The handshake is being sent.
    HandshakeSent,
    /// Waiting for Discord's first message, which is not looked at.
    AwaitReady,
    /// Waiting for the session in the cache.
    AwaitCache,
    /// The authorization command is being sent.
    AuthorizeSent,
    /// Waiting for the answer to the authorization command.
    AwaitAuthorization,
    /// Waiting for the token endpoint's session.
    AwaitToken,
    /// Waiting for the new session to be stored; it holds `access_token`.
    AwaitCacheStored { access_token: String },
    /// The authentication command is being sent.
    AuthenticateSent,
    /// Waiting for the answer to the authentication command.
    AwaitAuthentication,
    /// The connection is made or has failed.
    Finished,
}

/// The outcome of the last action.
pub enum ConnectEvent {
    /// The socket is open.
    Begin,
    /// A message was written, or not.
    Written(Result<(), WriteError>),
    /// A frame was read and parsed as a response (`Err` with the parser's
    /// message where it is not one), or could not be read.
    FrameRead(Result<Result<Response, String>, ReadError>),
    /// The cache gave a session, or not.
    CacheLoaded(Result<Session, CacheError>),
    /// The token endpoint gave a session for the authorization code, or not.
    TokenExchanged(Result<Session, OAuthError>),
    /// The session was stored in the cache, or not (with the I/O error's message).
    CacheStored(Result<(), String>),
}

/// What to do next.
pub enum ConnectAction {
    /// Write this message in a frame.
    Send(Outgoing),
    /// Read the next frame.
    ReadFrame,
    /// Load the session from the cache.
    LoadCache,
    /// Exchange this authorization code for a session.
    ExchangeCode(String),
    /// Store this session in the cache.
    StoreCache(Session),
    /// The connection is made, as this user, or has failed.
    Finish(Result<User, ConnectionError>),
}

/// A connection being made for the client `client_id`.
pub struct Connector {
    pub client_id: String,
    pub stage: ConnectStage,
}

/// How many steps at most remain from `stage` until the connection is made
/// or has failed.
pub open spec fn steps_left(stage: ConnectStage) -> nat {
    match stage {
        ConnectStage::Start => 10,
        ConnectStage::HandshakeSent => 9,
        ConnectStage::AwaitReady => 8,
        ConnectStage::AwaitCache => 7,
        ConnectStage::AuthorizeSent => 6,
        ConnectStage::AwaitAuthorization => 5,
        ConnectStage::AwaitToken => 4,
        ConnectStage::AwaitCacheStored { .. } => 3,
        ConnectStage::AuthenticateSent => 2,
        ConnectStage::AwaitAuthentication => 1,
        ConnectStage::Finished => 0,
    }
}

/// Whether `event` is the outcome of the action that `stage` waits on.
pub open spec fn expects(stage: ConnectStage, event: ConnectEvent) -> bool {
    match stage {
        ConnectStage::Start => event is Begin,
        ConnectStage::HandshakeSent => event is Written,
        ConnectStage::AuthorizeSent => event is Written,
        ConnectStage::AuthenticateSent => event is Written,
        ConnectStage::AwaitReady => event is FrameRead,
        ConnectStage::AwaitAuthorization => event is FrameRead,
        ConnectStage::AwaitAuthentication => event is FrameRead,
        ConnectStage::AwaitCache => event is CacheLoaded,
        ConnectStage::AwaitToken => event is TokenExchanged,
        ConnectStage::AwaitCacheStored { .. } => event is CacheStored,
        ConnectStage::Finished => false,
    }
}

/// `action` sends the command `cmd` under a fresh nonce.
pub open spec fn sends_command(action: ConnectAction, cmd: Commands) -> bool {
    action matches ConnectAction::Send(Outgoing::Command(p)) && p.cmd == cmd && is_nonce(p.nonce@)
}

/// `action` sends the authorization command of `client_id`.
pub open spec fn sends_authorize(action: ConnectAction, client_id: Seq<char>) -> bool {
    &&& action matches ConnectAction::Send(Outgoing::Command(p))
    &&& is_nonce(p.nonce@)
    &&& p.cmd matches Commands::Authorize { client_id: id, scopes }
    &&& id@ == client_id
    &&& scopes@ == requested_scopes()
}

/// The step from `stage` on `event` for the client `client_id` leads to
/// `next` with `action`.
pub open spec fn is_step(client_id: Seq<char>, stage: ConnectStage, event: ConnectEvent, next: ConnectStage, action: ConnectAction) -> bool {
    match (stage, event) {
        (ConnectStage::Start, ConnectEvent::Begin) => {
            &&& next is HandshakeSent
            &&& action matches ConnectAction::Send(Outgoing::Handshake(h)) && h.v == RPC_VERSION
                && h.client_id@ == client_id
        },
        (ConnectStage::HandshakeSent, ConnectEvent::Written(w)) => match w {
            Ok(_) => next is AwaitReady && action is ReadFrame,
            Err(e) => next is Finished && action == ConnectAction::Finish(Err(ConnectionError::Write(e))),
        },
        (ConnectStage::AwaitReady, ConnectEvent::FrameRead(f)) => match f {
            Ok(_) => next is AwaitCache && action is LoadCache,
            Err(e) => next is Finished && action == ConnectAction::Finish(Err(ConnectionError::Read(e))),
        },
        (ConnectStage::AwaitCache, ConnectEvent::CacheLoaded(c)) => match c {
            Ok(session) => next is AuthenticateSent && sends_command(
                action,
                Commands::Authenticate { access_token: session.access_token },
            ),
            Err(_) => next is AuthorizeSent && sends_authorize(action, client_id),
        },
        (ConnectStage::AuthorizeSent, ConnectEvent::Written(w)) => match w {
            Ok(_) => next is AwaitAuthorization && action is ReadFrame,
            Err(e) => next is Finished && action == ConnectAction::Finish(
                Err(ConnectionError::Authorize(AuthorizationError::Write(e))),
            ),
        },
        (ConnectStage::AwaitAuthorization, ConnectEvent::FrameRead(f)) => match f {
            Err(e) => next is Finished && action == ConnectAction::Finish(
                Err(ConnectionError::Authorize(AuthorizationError::Read(e))),
            ),
            Ok(Err(p)) => next is Finished && action == ConnectAction::Finish(
                Err(ConnectionError::Authorize(AuthorizationError::Parse(p))),
            ),
            Ok(Ok(response)) => match response.cmd {
                ResponseCommands::Authorize { code } => next is AwaitToken && action
                    == ConnectAction::ExchangeCode(code),
                other => next is Finished && action == ConnectAction::Finish(
                    Err(ConnectionError::Authorize(AuthorizationError::Failed(other))),
                ),
            },
        },
        (ConnectStage::AwaitToken, ConnectEvent::TokenExchanged(t)) => match t {
            Ok(session) => next == (ConnectStage::AwaitCacheStored {
                access_token: session.access_token,
            }) && action == ConnectAction::StoreCache(session),
            Err(e) => next is Finished && action == ConnectAction::Finish(Err(ConnectionError::Authenticate(e))),
        },
        (ConnectStage::AwaitCacheStored { access_token }, ConnectEvent::CacheStored(s)) => match s {
            Ok(_) => next is AuthenticateSent && sends_command(action, Commands::Authenticate { access_token }),
            Err(e) => next is Finished && action == ConnectAction::Finish(Err(ConnectionError::CacheWrite(e))),
        },
        (ConnectStage::AuthenticateSent, ConnectEvent::Written(w)) => match w {
            Ok(_) => next is AwaitAuthentication && action is ReadFrame,
            Err(e) => next is Finished && action == ConnectAction::Finish(Err(ConnectionError::Write(e))),
        },
        (ConnectStage::AwaitAuthentication, ConnectEvent::FrameRead(f)) => match f {
            Err(e) => next is Finished && action == ConnectAction::Finish(Err(ConnectionError::Read(e))),
            Ok(Err(p)) => next is Finished && action == ConnectAction::Finish(Err(ConnectionError::Parse(p))),
            Ok(Ok(response)) => next is Finished && match response.cmd {
                ResponseCommands::Authenticate { user } => action == ConnectAction::Finish(Ok(user)),
                _ => action == ConnectAction::Finish(Err(ConnectionError::GetUser)),
            },
        },
        _ => false,
    }
}

impl Connector {
    /// A connection for the client `client_id`, not started.
    pub fn new(client_id: &str) -> (r: Connector)
        ensures
            r.client_id@ == client_id@,
            r.stage is Start,
    {
        Connector { client_id: String::from_str(client_id), stage: ConnectStage::Start }
    }

    /// Whether `event` is what the connection waits on.
    pub fn expects(&self, event: &ConnectEvent) -> (r: bool)
        ensures
            r == expects(self.stage, *event),
    {
        match (&self.stage, event) {
            (ConnectStage::Start, ConnectEvent::Begin) => true,
            (ConnectStage::HandshakeSent, ConnectEvent::Written(_)) => true,
            (ConnectStage::AuthorizeSent, ConnectEvent::Written(_)) => true,
            (ConnectStage::AuthenticateSent, ConnectEvent::Written(_)) => true,
            (ConnectStage::AwaitReady, ConnectEvent::FrameRead(_)) => true,
            (ConnectStage::AwaitAuthorization, ConnectEvent::FrameRead(_)) => true,
            (ConnectStage::AwaitAuthentication, ConnectEvent::FrameRead(_)) => true,
            (ConnectStage::AwaitCache, ConnectEvent::CacheLoaded(_)) => true,
            (ConnectStage::AwaitToken, ConnectEvent::TokenExchanged(_)) => true,
            (ConnectStage::AwaitCacheStored { .. }, ConnectEvent::CacheStored(_)) => true,
            _ => false,
        }
    }

    /// The next stage and action, given the outcome of the last action.
    pub fn step(self, event: ConnectEvent) -> (r: (Connector, ConnectAction))
        requires
            expects(self.stage, event),
        ensures
            r.0.client_id == self.client_id,
            is_step(self.client_id@, self.stage, event, r.0.stage, r.1),
            steps_left(r.0.stage) < steps_left(self.stage),
            r.0.stage is Finished <==> r.1 is Finish,
    {
        let Connector { client_id, stage } = self;
        let (next, action) = match (stage, event) {
            (ConnectStage::Start, ConnectEvent::Begin) => {
                let h: Handshake = handshake(client_id.as_str());
                (ConnectStage::HandshakeSent, ConnectAction::Send(Outgoing::Handshake(h)))
            },
            (ConnectStage::HandshakeSent, ConnectEvent::Written(w)) => match w {
                Ok(_) => (ConnectStage::AwaitReady, ConnectAction::ReadFrame),
                Err(e) => (ConnectStage::Finished, ConnectAction::Finish(Err(ConnectionError::Write(e)))),
            },
            (ConnectStage::AwaitReady, ConnectEvent::FrameRead(f)) => match f {
                Ok(_) => (ConnectStage::AwaitCache, ConnectAction::LoadCache),
                Err(e) => (ConnectStage::Finished, ConnectAction::Finish(Err(ConnectionError::Read(e)))),
            },
            (ConnectStage::AwaitCache, ConnectEvent::CacheLoaded(c)) => match c {
                Ok(session) => {
                    let p = authenticate_command(session.access_token).as_payload();
                    (ConnectStage::AuthenticateSent, ConnectAction::Send(Outgoing::Command(p)))
                },
                Err(_) => {
                    let p = authorize_command(client_id.as_str()).as_payload();
                    (ConnectStage::AuthorizeSent, ConnectAction::Send(Outgoing::Command(p)))
                },
            },
            (ConnectStage::AuthorizeSent, ConnectEvent::Written(w)) => match w {
                Ok(_) => (ConnectStage::AwaitAuthorization, ConnectAction::ReadFrame),
                Err(e) => (
                    ConnectStage::Finished,
                    ConnectAction::Finish(Err(ConnectionError::Authorize(AuthorizationError::Write(e)))),
                ),
            },
            (ConnectStage::AwaitAuthorization, ConnectEvent::FrameRead(f)) => match f {
                Err(e) => (
                    ConnectStage::Finished,
                    ConnectAction::Finish(Err(ConnectionError::Authorize(AuthorizationError::Read(e)))),
                ),
                Ok(Err(p)) => (
                    ConnectStage::Finished,
                    ConnectAction::Finish(Err(ConnectionError::Authorize(AuthorizationError::Parse(p)))),
                ),
                Ok(Ok(response)) => match authorization_result(response) {
                    Ok(code) => (ConnectStage::AwaitToken, ConnectAction::ExchangeCode(code)),
                    Err(e) => (ConnectStage::Finished, ConnectAction::Finish(Err(ConnectionError::Authorize(e)))),
                },
            },
            (ConnectStage::AwaitToken, ConnectEvent::TokenExchanged(t)) => match t {
                Ok(session) => {
                    let access_token = session.access_token.clone();
                    (ConnectStage::AwaitCacheStored { access_token }, ConnectAction::StoreCache(session))
                },
                Err(e) => (ConnectStage::Finished, ConnectAction::Finish(Err(ConnectionError::Authenticate(e)))),
            },
            (ConnectStage::AwaitCacheStored { access_token }, ConnectEvent::CacheStored(s)) => match s {
                Ok(_) => {
                    let p = authenticate_command(access_token).as_payload();
                    (ConnectStage::AuthenticateSent, ConnectAction::Send(Outgoing::Command(p)))
                },
                Err(e) => (ConnectStage::Finished, ConnectAction::Finish(Err(ConnectionError::CacheWrite(e)))),
            },
            (ConnectStage::AuthenticateSent, ConnectEvent::Written(w)) => match w {
                Ok(_) => (ConnectStage::AwaitAuthentication, ConnectAction::ReadFrame),
                Err(e) => (ConnectStage::Finished, ConnectAction::Finish(Err(ConnectionError::Write(e)))),
            },
            (ConnectStage::AwaitAuthentication, ConnectEvent::FrameRead(f)) => match f {
                Err(e) => (ConnectStage::Finished, ConnectAction::Finish(Err(ConnectionError::Read(e)))),
                Ok(Err(p)) => (ConnectStage::Finished, ConnectAction::Finish(Err(ConnectionError::Parse(p)))),
                Ok(Ok(response)) => (ConnectStage::Finished, ConnectAction::Finish(authentication_result(response))),
            },
            (stage, _) => {
                assert(false);
                (stage, ConnectAction::ReadFrame)
            },
        };
        (Connector { client_id, stage: next }, action)
    }
}

/// An authentication response that names a user ends the connection with
/// that user, every field as Discord sent it.
pub proof fn lemma_authenticated_user(client_id: Seq<char>, user: User, next: ConnectStage, action: ConnectAction)
    requires
        is_step(
            client_id,
            ConnectStage::AwaitAuthentication,
            ConnectEvent::FrameRead(Ok(Ok(Response { cmd: ResponseCommands::Authenticate { user } }))),
            next,
            action,
        ),
    ensures
        next is Finished,
        action matches ConnectAction::Finish(Ok(u)) && u.id == user.id && u.avatar == user.avatar,
{
}

/// A session from the cache is used as it is: the connection logs in with
/// exactly its access token.
pub proof fn lemma_cached_token_used(client_id: Seq<char>, session: Session, next: ConnectStage, action: ConnectAction)
    requires
        is_step(client_id, ConnectStage::AwaitCache, ConnectEvent::CacheLoaded(Ok(session)), next, action),
    ensures
        next is AuthenticateSent,
        action matches ConnectAction::Send(Outgoing::Command(p)) && p.cmd matches Commands::Authenticate {
            access_token,
        } && access_token == session.access_token,
{
}

/// The authorization code that Discord sends is the one exchanged for a token.
pub proof fn lemma_authorization_code_exchanged(client_id: Seq<char>, code: String, next: ConnectStage, action: ConnectAction)
    requires
        is_step(
            client_id,
            ConnectStage::AwaitAuthorization,
            ConnectEvent::FrameRead(Ok(Ok(Response { cmd: ResponseCommands::Authorize { code } }))),
            next,
            action,
        ),
    ensures
        next is AwaitToken,
        action matches ConnectAction::ExchangeCode(c) && c == code,
{
}

} // verus!
