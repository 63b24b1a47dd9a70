//! Credential discovery from the game client's process command line.
//!
//! The client advertises its loopback port and one-time auth token as
//! command-line flags: `--app-port=<digits>` and
//! `--remoting-auth-token=<word characters and hyphens>`. Given the
//! command line of the running client process (obtained by the
//! surrounding application from the operating system), this module
//! extracts both values: the leftmost occurrence of the flag that is
//! followed by at least one character of the expected class wins, and
//! the captured value is the longest run of such characters.

use vstd::prelude::*;
use vstd::string::StrSliceExecFns;

verus! {

use crate::errors::DiscoveryError;

/// The character classes the two captures accept.
#[derive(Clone, Copy, Debug, PartialEq, Eq, Structural)]
pub enum CharClass {
    /// ASCII decimal digits.
    Digits,
    /// ASCII letters, digits, underscore, and hyphen.
    Word,
}

/// Whether `c` belongs to the class `cls`.
pub open spec fn in_class(cls: CharClass, c: char) -> bool {
    match cls {
        CharClass::Digits => 48 <= c as u32 <= 57,
        CharClass::Word => (48 <= c as u32 <= 57) || (97 <= c as u32 <= 122) || (65 <= c as u32
            <= 90) || c as u32 == 95 || c as u32 == 45,
    }
}

/// The pattern preceding the port capture.
pub open spec fn port_pattern() -> Seq<char> {
    "--app-port="@
}

/// The pattern preceding the token capture.
pub open spec fn token_pattern() -> Seq<char> {
    "--remoting-auth-token="@
}

/// `pat` occurs in `s` starting at index `i`.
pub open spec fn occurs_at(s: Seq<char>, pat: Seq<char>, i: int) -> bool {
    &&& 0 <= i
    &&& i + pat.len() <= s.len()
    &&& forall|k: int| 0 <= k < pat.len() ==> s[i + k] == #[trigger] pat[k]
}

/// `pat` occurs at `i` and is followed by at least one character of `cls`.
pub open spec fn match_at(s: Seq<char>, pat: Seq<char>, cls: CharClass, i: int) -> bool {
    &&& occurs_at(s, pat, i)
    &&& i + pat.len() < s.len()
    &&& in_class(cls, s[i + pat.len()])
}

/// Index of the leftmost match at or after `i`, if any.
pub open spec fn scan_from(s: Seq<char>, pat: Seq<char>, cls: CharClass, i: int) -> Option<int>
    decreases s.len() - i,
    when 0 <= i
{
    if i + pat.len() + 1 > s.len() {
        None
    } else if match_at(s, pat, cls, i) {
        Some(i)
    } else {
        scan_from(s, pat, cls, i + 1)
    }
}

/// End of the run of `cls` characters that starts at `j`.
pub open spec fn run_end(s: Seq<char>, cls: CharClass, j: int) -> int
    decreases s.len() - j,
    when 0 <= j <= s.len()
{
    if j < s.len() && in_class(cls, s[j]) {
        run_end(s, cls, j + 1)
    } else {
        j
    }
}

/// What extraction of one flag value from `s` yields: the maximal run of
/// `cls` characters that follows the leftmost matched occurrence of `pat`,
/// or nothing when no occurrence of `pat` is followed by such a character.
pub open spec fn spec_capture(s: Seq<char>, pat: Seq<char>, cls: CharClass) -> Option<Seq<char>> {
    match scan_from(s, pat, cls, 0) {
        None => None,
        Some(i) => Some(s.subrange(i + pat.len(), run_end(s, cls, i + pat.len()))),
    }
}

proof fn lemma_scan_from_found(s: Seq<char>, pat: Seq<char>, cls: CharClass, i: int, j: int)
    requires
        0 <= i,
        scan_from(s, pat, cls, i) == Some(j),
    ensures
        i <= j,
        match_at(s, pat, cls, j),
    decreases s.len() - i,
{
    if i + pat.len() + 1 > s.len() {
    } else if match_at(s, pat, cls, i) {
    } else {
        lemma_scan_from_found(s, pat, cls, i + 1, j);
    }
}

proof fn lemma_run_end_props(s: Seq<char>, cls: CharClass, j: int)
    requires
        0 <= j <= s.len(),
    ensures
        j <= run_end(s, cls, j) <= s.len(),
        forall|k: int| j <= k < run_end(s, cls, j) ==> in_class(cls, s[k]),
        run_end(s, cls, j) == s.len() || !in_class(cls, s[run_end(s, cls, j)]),
    decreases s.len() - j,
{
    if j < s.len() && in_class(cls, s[j]) {
        lemma_run_end_props(s, cls, j + 1);
    }
}

/// Every captured value is nonempty and consists of `cls` characters only.
pub proof fn lemma_capture_in_class(s: Seq<char>, pat: Seq<char>, cls: CharClass, cap: Seq<char>)
    requires
        spec_capture(s, pat, cls) == Some(cap),
    ensures
        cap.len() >= 1,
        forall|k: int| 0 <= k < cap.len() ==> in_class(cls, cap[k]),
{
    match scan_from(s, pat, cls, 0) {
        None => {
            assert(false);
        },
        Some(i) => {
            lemma_scan_from_found(s, pat, cls, 0, i);
            let start = i + pat.len();
            lemma_run_end_props(s, cls, start);
            assert(run_end(s, cls, start) == run_end(s, cls, start + 1));
        },
    }
}

/// Exact-length character comparison of `pat` against `s` at offset `i`.
fn matches_pattern_at(s: &str, pat: &str, i: usize, n: usize, m: usize) -> (r: bool)
    requires
        n == s@.len(),
        m == pat@.len(),
        i + m <= n,
    ensures
        r == occurs_at(s@, pat@, i as int),
{
    let mut j: usize = 0;
    while j < m
        invariant
            n == s@.len(),
            m == pat@.len(),
            i + m <= n,
            0 <= j <= m,
            forall|k: int| 0 <= k < j ==> s@[i + k] == #[trigger] pat@[k],
        decreases m - j,
    {
        if s.get_char(i + j) != pat.get_char(j) {
            assert(!occurs_at(s@, pat@, i as int));
            return false;
        }
        j += 1;
    }
    true
}

/// Whether `c` belongs to `cls`, executably.
fn char_in_class(cls: CharClass, c: char) -> (r: bool)
    ensures
        r == in_class(cls, c),
{
    let u = c as u32;
    match cls {
        CharClass::Digits => 48 <= u && u <= 57,
        CharClass::Word => (48 <= u && u <= 57) || (97 <= u && u <= 122) || (65 <= u && u <= 90)
            || u == 95 || u == 45,
    }
}

/// Extracts the value of one flag from `s`: the run of `cls` characters
/// after the leftmost matched occurrence of `pat`.
pub fn capture_after(s: &str, pat: &str, cls: CharClass) -> (r: Option<String>)
    ensures
        match r {
            Some(cap) => spec_capture(s@, pat@, cls) == Some(cap@),
            None => spec_capture(s@, pat@, cls) is None,
        },
{
    let n = s.unicode_len();
    let m = pat.unicode_len();
    if m >= n {
        assert(scan_from(s@, pat@, cls, 0) is None);
        return None;
    }
    let mut i: usize = 0;
    while i < n - m
        invariant
            n == s@.len(),
            m == pat@.len(),
            m < n,
            0 <= i <= n - m,
            scan_from(s@, pat@, cls, 0) == scan_from(s@, pat@, cls, i as int),
        decreases n - m - i,
    {
        if matches_pattern_at(s, pat, i, n, m) && char_in_class(cls, s.get_char(i + m)) {
            assert(match_at(s@, pat@, cls, i as int));
            assert(scan_from(s@, pat@, cls, i as int) == Some(i as int));
            let start = i + m;
            let mut e: usize = start;
            while e < n && char_in_class(cls, s.get_char(e))
                invariant
                    n == s@.len(),
                    start <= e <= n,
                    run_end(s@, cls, start as int) == run_end(s@, cls, e as int),
                decreases n - e,
            {
                assert(run_end(s@, cls, e as int) == run_end(s@, cls, e + 1));
                e += 1;
            }
            assert(run_end(s@, cls, e as int) == e);
            let cap = s.substring_char(start, e).to_owned();
            return Some(cap);
        }
        assert(!match_at(s@, pat@, cls, i as int));
        assert(scan_from(s@, pat@, cls, i as int) == scan_from(s@, pat@, cls, i + 1));
        i += 1;
    }
    assert(scan_from(s@, pat@, cls, i as int) is None);
    None
}

/// The per-session credentials of the running game client, rebuilt
/// wholesale on every discovery attempt.
#[derive(Clone, Debug)]
pub struct Credentials {
    /// Decimal loopback port, as extracted from the command line.
    pub port: String,
    /// One-time auth token, as extracted from the command line.
    pub auth_token: String,
}

impl Credentials {
    /// Well-formedness: both values are nonempty and drawn from the
    /// character class their flag admits.
    pub open spec fn wf(&self) -> bool {
        &&& self.port@.len() >= 1
        &&& forall|k: int| 0 <= k < self.port@.len() ==> in_class(CharClass::Digits, self.port@[k])
        &&& self.auth_token@.len() >= 1
        &&& forall|k: int|
            0 <= k < self.auth_token@.len() ==> in_class(CharClass::Word, self.auth_token@[k])
    }
}

/// Extracts credentials from the command line of the game-client process.
///
/// `listing` is the command line of the matching process, or `None` when
/// no such process exists. Both flag values must be present; a command
/// line lacking either signals a client-version mismatch.
pub fn discover_from_listing(listing: Option<&str>) -> (r: Result<Credentials, DiscoveryError>)
    ensures
        match listing {
            None => r == Err::<Credentials, DiscoveryError>(DiscoveryError::ProcessNotFound),
            Some(s) => {
                let p = spec_capture(s@, port_pattern(), CharClass::Digits);
                let t = spec_capture(s@, token_pattern(), CharClass::Word);
                match r {
                    Ok(c) => p == Some(c.port@) && t == Some(c.auth_token@),
                    Err(e) => e == DiscoveryError::PatternNotMatched && (p is None || t is None),
                }
            },
        },
        r matches Ok(c) ==> c.wf(),
{
    match listing {
        None => Err(DiscoveryError::ProcessNotFound),
        Some(s) => {
            proof {
                reveal_strlit("--app-port=");
                reveal_strlit("--remoting-auth-token=");
            }
            let port = capture_after(s, "--app-port=", CharClass::Digits);
            let auth_token = capture_after(s, "--remoting-auth-token=", CharClass::Word);
            match (port, auth_token) {
                (Some(port), Some(auth_token)) => {
                    proof {
                        lemma_capture_in_class(s@, port_pattern(), CharClass::Digits, port@);
                        lemma_capture_in_class(s@, token_pattern(), CharClass::Word, auth_token@);
                    }
                    Ok(Credentials { port, auth_token })
                },
                _ => Err(DiscoveryError::PatternNotMatched),
            }
        },
    }
}

} // verus!
