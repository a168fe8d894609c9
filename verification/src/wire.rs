use vstd::prelude::*;
use vstd::string::StringExecFns;
use base64::Engine;

verus! {

/// The credentials of the local control surface: connection port and
/// secret. Ephemeral — re-read on every connection attempt and never
/// cached across supervisor restarts.
#[derive(Debug, Clone)]
pub struct LockfileData {
    pub port: u16,
    pub password: String,
}

/// What the standard base64 encoding returns for a given character
/// sequence (the encoder reads the characters' UTF-8 bytes).
pub uninterp spec fn base64_of(s: Seq<char>) -> Seq<char>;

/// Relies on base64's `Engine::encode` with the STANDARD engine: the
/// result depends on the input alone, and an empty input encodes to an
/// empty string.
#[verifier::external_body]
fn base64_encode(s: &str) -> (r: String)
    ensures
        r@ == base64_of(s@),
        s@.len() == 0 ==> r@.len() == 0,
{
    base64::engine::general_purpose::STANDARD.encode(s)
}

/// The Basic-auth header value for the control surface: the fixed
/// username "riot", a colon, and the secret, base64-encoded.
pub fn build_auth_header(secret: &str) -> (r: String)
    ensures
        r@ == "Basic "@ + base64_of("riot:"@ + secret@),
{
    let mut joined = String::new();
    joined.append("riot:");
    joined.append(secret);
    let token = base64_encode(joined.as_str());
    let mut out = String::new();
    out.append("Basic ");
    out.append(token.as_str());
    proof {
        assert(Seq::<char>::empty() + "riot:"@ + secret@ =~= "riot:"@ + secret@);
        assert(Seq::<char>::empty() + "Basic "@ + token@ =~= "Basic "@ + token@);
    }
    out
}

/// The subscribe command sent once per connection: the wire form of
/// the JSON array asking for all JSON-API events.
pub fn subscribe_message() -> (r: String)
    ensures
        r@ == "[5,\"OnJsonApiEvent\"]"@,
{
    "[5,\"OnJsonApiEvent\"]".to_owned()
}

} // verus!
