//! Commands that the bridge sends to Discord.
use vstd::prelude::*;

verus! {

/// Whether a character is a lower-case hexadecimal digit.
pub open spec fn is_lower_hex(c: char) -> bool {
    (48 <= (c as u32) && (c as u32) <= 57) || (97 <= (c as u32) && (c as u32) <= 102)
}

/// Whether a position of the text form of a UUID holds a hyphen.
pub open spec fn is_hyphen_position(i: int) -> bool {
    i == 8 || i == 13 || i == 18 || i == 23
}

/// What a nonce looks like: a version-4 UUID in its hyphenated lower-case text
/// form: 36 characters, hyphens at 8, 13, 18 and 23, lower-case hexadecimal
/// digits elsewhere, the version digit `4` at 14, and the variant digit (one
/// of `8`, `9`, `a`, `b`) at 19.
pub open spec fn is_nonce(s: Seq<char>) -> bool {
    &&& s.len() == 36
    &&& forall|i: int|
        0 <= i < 36 ==> if is_hyphen_position(i) {
            s[i] == '-'
        } else {
            is_lower_hex(#[trigger] s[i])
        }
    &&& s[14] == '4'
    &&& (s[19] == '8' || s[19] == '9' || s[19] == 'a' || s[19] == 'b')
}

/// Calls `uuid::Uuid::new_v4` and formats the result with `Display`. The
/// result is random; what holds of every outcome is the text form that the
/// crate's `format_hyphenated` writes with lower-case digits: 36 characters,
/// hyphens at 8, 13, 18 and 23, hexadecimal digits elsewhere, the digit `4`
/// at 14 and one of `8`, `9`, `a`, `b` at 19, as `new_v4` sets the version
/// bits to 4 and the variant bits to `10`. Which UUID comes out is left unsaid.
#[verifier::external_body]
pub(crate) fn fresh_nonce() -> (r: String)
    ensures
        is_nonce(r@),
{
    uuid::Uuid::new_v4().to_string()
}

/// A command to Discord. The wire form is `{"cmd": NAME, "args": {...}}`.
#[derive(Clone, Debug)]
pub enum Commands {
    /// Ask the user to authorize the application for `scopes`.
    Authorize { client_id: String, scopes: Vec<&'static str> },
    /// Log in with an OAuth access token.
    Authenticate { access_token: String },
    /// Change the user's voice settings; a field left `None` is not changed.
    SetVoiceSettings { mute: Option<bool>, deaf: Option<bool> },
    /// Ask which voice channel the user is in.
    GetSelectedVoiceChannel,
}

/// A command together with the nonce that Discord echoes in its response.
#[derive(Clone, Debug)]
pub struct Payload {
    pub cmd: Commands,
    pub nonce: String,
}

impl Payload {
    /// The command under a fresh nonce.
    pub fn new(cmd: Commands) -> (r: Self)
        ensures
            r.cmd == cmd,
            is_nonce(r.nonce@),
    {
        Self { cmd, nonce: fresh_nonce() }
    }
}

impl Commands {
    /// The command under a fresh nonce, ready to send.
    pub fn as_payload(self) -> (r: Payload)
        ensures
            r.cmd == self,
            is_nonce(r.nonce@),
    {
        Payload::new(self)
    }
}

} // verus!
