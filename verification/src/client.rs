//! The verified core of the authenticated session client.
//!
//! The surrounding application owns the HTTPS transport; this module
//! derives everything the transport is configured with — the Basic-auth
//! header value and the loopback request URLs — and decides when the
//! client is rebuilt. Credentials are replaced wholesale: a rebuild
//! either installs a complete new set or leaves the previous one
//! untouched, never a mixture.

use vstd::prelude::*;
use vstd::string::StrSliceExecFns;
use vstd::string::StringExecFns;
use vstd::string::StringSliceAdditionalSpecFns;

verus! {

use crate::discovery::Credentials;
use crate::errors::BuildError;

/// The standard base64 encoding (with padding) of `bytes`.
pub uninterp spec fn b64_of(bytes: Seq<u8>) -> Seq<char>;

/// Relies on base64's `STANDARD` engine: the padded standard-alphabet
/// encoding of the input bytes, of length 4·⌈n/3⌉, a function of the
/// bytes alone.
#[verifier::external_body]
fn encode_base64(bytes: &[u8]) -> (r: String)
    ensures
        r@ == b64_of(bytes@),
        r@.len() == 4 * ((bytes@.len() + 2) / 3),
{
    base64::Engine::encode(&base64::engine::general_purpose::STANDARD, bytes)
}

/// The Basic-auth header value carried by every request: the fixed user
/// name and the discovered token, joined and base64-encoded.
pub open spec fn auth_header_of(token: Seq<char>) -> Seq<char> {
    "Basic "@ + b64_of(vstd::utf8::encode_utf8("riot:"@ + token))
}

/// Builds the `Authorization` header value for `token`.
pub fn auth_header_value(token: &str) -> (r: String)
    ensures
        r@ == auth_header_of(token@),
{
    let mut line = String::from_str("riot:");
    line.append(token);
    let encoded = encode_base64(line.as_str().as_bytes());
    let mut out = String::from_str("Basic ");
    out.append(encoded.as_str());
    out
}

/// `p` with every leading slash removed.
pub open spec fn skip_leading_slashes(p: Seq<char>) -> Seq<char>
    decreases p.len(),
{
    if p.len() > 0 && p[0] == '/' {
        skip_leading_slashes(p.subrange(1, p.len() as int))
    } else {
        p
    }
}

/// The URL of endpoint `path` on the loopback API at `port`.
pub open spec fn url_of(port: Seq<char>, path: Seq<char>) -> Seq<char> {
    "https://127.0.0.1:"@ + port + "/"@ + skip_leading_slashes(path)
}

/// Builds the request URL for `path` against the client at `port`.
pub fn build_url(port: &str, path: &str) -> (r: String)
    ensures
        r@ == url_of(port@, path@),
{
    let n = path.unicode_len();
    let mut i: usize = 0;
    proof {
        assert(path@.subrange(0, n as int) =~= path@);
    }
    while i < n && path.get_char(i) == '/'
        invariant
            n == path@.len(),
            0 <= i <= n,
            skip_leading_slashes(path@) == skip_leading_slashes(
                path@.subrange(i as int, n as int),
            ),
        decreases n - i,
    {
        proof {
            let cur = path@.subrange(i as int, n as int);
            assert(cur.subrange(1, cur.len() as int) =~= path@.subrange(i + 1, n as int));
        }
        i += 1;
    }
    let trimmed = path.substring_char(i, n);
    let mut out = String::from_str("https://127.0.0.1:");
    out.append(port);
    out.append("/");
    out.append(trimmed);
    proof {
        assert(out@ =~= url_of(port@, path@));
    }
    out
}

/// What a build attempt does to the held credentials.
pub open spec fn spec_apply_build(
    prev: Option<Credentials>,
    discovered: Result<Credentials, BuildError>,
) -> Option<Credentials> {
    match discovered {
        Ok(c) => Some(c),
        Err(_) => prev,
    }
}

/// Installs the outcome of a build attempt: a successful discovery
/// replaces the held credentials wholesale, a failed one leaves the
/// previous set in place.
pub fn apply_build(prev: Option<Credentials>, discovered: Result<Credentials, BuildError>) -> (r:
    Option<Credentials>)
    ensures
        r == spec_apply_build(prev, discovered),
{
    match discovered {
        Ok(c) => Some(c),
        Err(_) => prev,
    }
}

/// Law: a build attempt never yields a mixture of old and new state.
/// Whatever discovery returned, the held credentials afterwards are
/// either exactly the previous ones or exactly the freshly discovered
/// set — no observer can see a half-built client.
pub proof fn lemma_build_replaces_wholesale(
    prev: Option<Credentials>,
    discovered: Result<Credentials, BuildError>,
)
    ensures
        spec_apply_build(prev, discovered) == prev || (discovered matches Ok(c)
            && spec_apply_build(prev, discovered) == Some(c)),
{
}

/// What one readiness check decides.
#[derive(Clone, Copy, Debug, PartialEq, Eq, Structural)]
pub enum HealthAction {
    /// The client answered the probe; keep it as it is.
    Keep,
    /// The client is unreachable; rebuild it from fresh discovery.
    Rebuild,
}

/// The decision `ensure_ready` takes after one reachability probe.
pub open spec fn spec_ensure_ready(reachable: bool) -> HealthAction {
    if reachable {
        HealthAction::Keep
    } else {
        HealthAction::Rebuild
    }
}

/// Decides, from the outcome of one reachability probe, whether the
/// client is kept or rebuilt. Exactly one probe feeds each decision.
pub fn ensure_ready_action(reachable: bool) -> (r: HealthAction)
    ensures
        r == spec_ensure_ready(reachable),
{
    if reachable {
        HealthAction::Keep
    } else {
        HealthAction::Rebuild
    }
}

/// Law: `ensure_ready` is idempotent while the client stays reachable.
/// Each call probes once and, the probe succeeding, decides `Keep`; so
/// two consecutive calls against a reachable client perform two probes
/// and zero rebuilds, and the held credentials are untouched.
pub proof fn lemma_ensure_ready_idempotent(prev: Option<Credentials>)
    ensures
        spec_ensure_ready(true) == HealthAction::Keep,
        forall|d: Result<Credentials, BuildError>| d is Err ==> spec_apply_build(prev, d) == prev,
{
}

} // verus!
