//! Configuration text checks: trimming, the client-identification
//! string's format, and the cleanup of the configured location names.
//!
//! The upstream service requires a client-identification string that
//! uniquely names the calling application; an empty, too-short or
//! anonymous one is rejected here before any request goes out.

use vstd::prelude::*;
use vstd::string::StrSliceExecFns;
use vstd::utf8::encode_utf8;

verus! {

/// The ASCII whitespace trimmed from configured strings.
pub open spec fn is_ascii_space(c: char) -> bool {
    c == ' ' || c == '\t' || c == '\n' || c == '\r'
}

/// How many whitespace characters the string starts with.
pub open spec fn lead_ws(s: Seq<char>) -> int
    decreases s.len(),
{
    if s.len() == 0 {
        0
    } else if is_ascii_space(s[0]) {
        1 + lead_ws(s.drop_first())
    } else {
        0
    }
}

/// How many whitespace characters the string ends with.
pub open spec fn trail_ws(s: Seq<char>) -> int
    decreases s.len(),
{
    if s.len() == 0 {
        0
    } else if is_ascii_space(s.last()) {
        1 + trail_ws(s.drop_last())
    } else {
        0
    }
}

/// The string without its leading and trailing whitespace.
pub open spec fn spec_trim(s: Seq<char>) -> Seq<char> {
    if lead_ws(s) + trail_ws(s) <= s.len() {
        s.subrange(lead_ws(s), s.len() - trail_ws(s))
    } else {
        Seq::empty()
    }
}

proof fn lemma_lead_ws_from_scan(s: Seq<char>, k: int)
    requires
        0 <= k <= s.len(),
        forall|j: int| 0 <= j < k ==> is_ascii_space(#[trigger] s[j]),
        k < s.len() ==> !is_ascii_space(s[k]),
    ensures
        lead_ws(s) == k,
    decreases s.len(),
{
    if k == 0 {
    } else {
        let rest = s.drop_first();
        assert(forall|j: int| 0 <= j < k - 1 ==> is_ascii_space(#[trigger] rest[j]));
        lemma_lead_ws_from_scan(rest, k - 1);
    }
}

proof fn lemma_trail_ws_from_scan(s: Seq<char>, k: int)
    requires
        0 <= k <= s.len(),
        forall|j: int| s.len() - k <= j < s.len() ==> is_ascii_space(#[trigger] s[j]),
        k < s.len() ==> !is_ascii_space(s[s.len() - k - 1]),
    ensures
        trail_ws(s) == k,
    decreases s.len(),
{
    if k == 0 {
    } else {
        let rest = s.drop_last();
        assert(is_ascii_space(s.last()));
        assert(forall|j: int| rest.len() - (k - 1) <= j < rest.len() ==> is_ascii_space(
            #[trigger] rest[j],
        ));
        lemma_trail_ws_from_scan(rest, k - 1);
    }
}

fn is_space_char(c: char) -> (r: bool)
    ensures
        r == is_ascii_space(c),
{
    c == ' ' || c == '\t' || c == '\n' || c == '\r'
}

/// The string with leading and trailing ASCII whitespace removed.
pub fn trim_str(s: &str) -> (r: String)
    ensures
        r@ == spec_trim(s@),
{
    let n = s.unicode_len();
    let mut b: usize = 0;
    while b < n && is_space_char(s.get_char(b))
        invariant
            n == s@.len(),
            b <= n,
            forall|j: int| 0 <= j < b ==> is_ascii_space(#[trigger] s@[j]),
        decreases n - b,
    {
        b += 1;
    }
    let mut e: usize = n;
    while e > b && is_space_char(s.get_char(e - 1))
        invariant
            n == s@.len(),
            b <= e <= n,
            forall|j: int| e <= j < n ==> is_ascii_space(#[trigger] s@[j]),
        decreases e,
    {
        e -= 1;
    }
    proof {
        if e > b {
            lemma_lead_ws_from_scan(s@, b as int);
            lemma_trail_ws_from_scan(s@, n - e as int);
        } else {
            assert(b == n) by {
                if b < n {
                    assert(is_ascii_space(s@[b as int]));
                }
            }
            lemma_lead_ws_from_scan(s@, n as int);
            lemma_trail_ws_from_scan(s@, n as int);
        }
    }
    let out = s.substring_char(b, e);
    out.to_owned()
}

/// Whether the string holds the character anywhere.
pub fn contains_char(s: &str, c: char) -> (r: bool)
    ensures
        r == s@.contains(c),
{
    let n = s.unicode_len();
    let mut i: usize = 0;
    while i < n
        invariant
            n == s@.len(),
            i <= n,
            forall|j: int| 0 <= j < i ==> s@[j] != c,
        decreases n - i,
    {
        if s.get_char(i) == c {
            return true;
        }
        i += 1;
    }
    false
}

/// Why a client-identification string was rejected.
#[derive(Clone, Copy, Debug, PartialEq, Eq, Structural)]
pub enum UserAgentError {
    /// Nothing but whitespace.
    Empty,
    /// Under ten bytes once trimmed: too short to identify anything.
    TooShort,
    /// No version separator, contact sign or domain dot anywhere.
    MissingIdentity,
}

/// The validation verdict on a client-identification string: trimmed,
/// it must be non-empty, at least ten bytes long, and carry a `/`, `@`
/// or `.` hinting at a version or contact.
pub open spec fn spec_validate_user_agent(ua: Seq<char>) -> Result<(), UserAgentError> {
    let t = spec_trim(ua);
    if t.len() == 0 {
        Err(UserAgentError::Empty)
    } else if encode_utf8(t).len() < 10 {
        Err(UserAgentError::TooShort)
    } else if !t.contains('/') && !t.contains('@') && !t.contains('.') {
        Err(UserAgentError::MissingIdentity)
    } else {
        Ok(())
    }
}

/// Check a client-identification string before it is attached to any
/// upstream request.
pub fn validate_user_agent(user_agent: &str) -> (r: Result<(), UserAgentError>)
    ensures
        r == spec_validate_user_agent(user_agent@),
{
    let trimmed = trim_str(user_agent);
    let t = trimmed.as_str();
    if t.unicode_len() == 0 {
        return Err(UserAgentError::Empty);
    }
    if t.as_bytes().len() < 10 {
        return Err(UserAgentError::TooShort);
    }
    if !contains_char(t, '/') && !contains_char(t, '@') && !contains_char(t, '.') {
        return Err(UserAgentError::MissingIdentity);
    }
    Ok(())
}

/// The configured names each trimmed, with the ones left empty dropped.
pub open spec fn spec_clean(names: Seq<Seq<char>>) -> Seq<Seq<char>>
    decreases names.len(),
{
    if names.len() == 0 {
        Seq::empty()
    } else {
        let prefix = spec_clean(names.drop_last());
        let t = spec_trim(names.last());
        if t.len() == 0 {
            prefix
        } else {
            prefix.push(t)
        }
    }
}

/// Trim every configured location name and drop the ones that were
/// nothing but whitespace.
pub fn clean_locations(locations: &Vec<String>) -> (r: Vec<String>)
    ensures
        r@.map_values(|s: String| s@) == spec_clean(locations@.map_values(|s: String| s@)),
{
    let mut out: Vec<String> = Vec::new();
    let mut i: usize = 0;
    while i < locations.len()
        invariant
            i <= locations@.len(),
            out@.map_values(|s: String| s@) == spec_clean(
                locations@.subrange(0, i as int).map_values(|s: String| s@),
            ),
        decreases locations@.len() - i,
    {
        let t = trim_str(locations[i].as_str());
        proof {
            let prefix = locations@.subrange(0, i as int).map_values(|s: String| s@);
            let next = locations@.subrange(0, i as int + 1).map_values(|s: String| s@);
            assert(locations@.subrange(0, i as int + 1).drop_last() =~= locations@.subrange(
                0,
                i as int,
            ));
            assert(next.drop_last() =~= prefix);
            assert(next.last() == locations@[i as int]@);
        }
        if t.as_str().unicode_len() > 0 {
            out.push(t);
            proof {
                assert(out@.map_values(|s: String| s@) =~= out@.drop_last().map_values(
                    |s: String| s@,
                ).push(out@.last()@));
            }
        }
        i += 1;
    }
    proof {
        assert(locations@.subrange(0, locations@.len() as int) =~= locations@);
    }
    out
}

} // verus!
