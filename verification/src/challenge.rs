//! The challenge-type registry: the finite set of supported domain-control
//! mechanisms, the case-insensitive configuration parser, and the
//! kind-equality matching between a configured challenge and the challenges a
//! server offers.

use vstd::prelude::*;

verus! {

use vstd::string::StringExecFns;

use crate::errors::IssuanceError;
use crate::text::{lower_seq, lemma_lower_idempotent, eq_ignore_ascii_case};

/// A domain-control challenge mechanism, as selected in configuration.
#[derive(Clone, Copy, Debug, PartialEq, Eq, Structural)]
pub enum Challenge {
    Http01,
    Dns01,
    TlsAlpn01,
}

/// The challenge kind denoted by a configuration string, if any: parsing is
/// ASCII-case-insensitive and recognizes exactly the three wire literals.
pub open spec fn parse_challenge_spec(s: Seq<char>) -> Option<Challenge> {
    if lower_seq(s) == "http-01"@ {
        Some(Challenge::Http01)
    } else if lower_seq(s) == "dns-01"@ {
        Some(Challenge::Dns01)
    } else if lower_seq(s) == "tls-alpn-01"@ {
        Some(Challenge::TlsAlpn01)
    } else {
        None
    }
}

/// The exact wire string of a challenge kind (lowercase on output).
pub open spec fn wire_name_spec(c: Challenge) -> Seq<char> {
    match c {
        Challenge::Http01 => "http-01"@,
        Challenge::Dns01 => "dns-01"@,
        Challenge::TlsAlpn01 => "tls-alpn-01"@,
    }
}

impl Challenge {
    /// Parses a configured challenge kind, case-insensitively; every string
    /// outside the three recognized literals is a configuration error that
    /// carries the rejected input.
    pub fn from_str(s: &str) -> (r: Result<Challenge, IssuanceError>)
        ensures
            parse_challenge_spec(s@) matches Some(c) ==> (r matches Ok(rc) && rc == c),
            parse_challenge_spec(s@) is None ==> (r matches Err(e) && e matches
                IssuanceError::UnknownChallenge { input } && input@ == s@),
    {
        if eq_ignore_ascii_case(s, "http-01") {
            Ok(Challenge::Http01)
        } else if eq_ignore_ascii_case(s, "dns-01") {
            Ok(Challenge::Dns01)
        } else if eq_ignore_ascii_case(s, "tls-alpn-01") {
            Ok(Challenge::TlsAlpn01)
        } else {
            Err(IssuanceError::UnknownChallenge { input: s.to_owned() })
        }
    }

    /// The wire string of this challenge kind, exactly as it appears in
    /// server-offered challenges.
    pub fn wire_name(&self) -> (r: &'static str)
        ensures
            r@ == wire_name_spec(*self),
    {
        match self {
            Challenge::Http01 => "http-01",
            Challenge::Dns01 => "dns-01",
            Challenge::TlsAlpn01 => "tls-alpn-01",
        }
    }

    /// Whether a server-offered challenge is acted upon for this configured
    /// kind: kind equality alone, regardless of the offered token or URL.
    pub fn matches(&self, offered: &OfferedChallenge) -> (r: bool)
        ensures
            r == challenge_matches(*self, *offered),
    {
        match (self, offered) {
            (Challenge::Http01, OfferedChallenge::Http01(_)) => true,
            (Challenge::Dns01, OfferedChallenge::Dns01(_)) => true,
            (Challenge::TlsAlpn01, OfferedChallenge::TlsAlpn01(_)) => true,
            _ => false,
        }
    }
}

/// Parsing ignores case: a string and its ASCII-lowered form denote the same
/// challenge kind, or both none.
pub proof fn lemma_parse_case_insensitive(s: Seq<char>)
    ensures
        parse_challenge_spec(s) == parse_challenge_spec(lower_seq(s)),
{
    lemma_lower_idempotent(s);
}

/// Round trip: for each recognized input, the wire name of the parsed kind is
/// exactly the ASCII-lowered input.
pub proof fn lemma_display_parse_round_trip(s: Seq<char>, c: Challenge)
    requires
        parse_challenge_spec(s) == Some(c),
    ensures
        wire_name_spec(c) == lower_seq(s),
{
}

/// Server-issued parameters of one offered challenge: its token and its own
/// identity URL (also the URL the acceptance is posted to).
#[derive(Debug)]
pub struct ChallengeData {
    pub token: String,
    pub url: String,
}

/// One concrete challenge a server offered for an authorization.
#[derive(Debug)]
pub enum OfferedChallenge {
    Http01(ChallengeData),
    Dns01(ChallengeData),
    TlsAlpn01(ChallengeData),
}

/// The kind of an offered challenge, forgetting its parameters.
pub open spec fn offered_kind(o: OfferedChallenge) -> Challenge {
    match o {
        OfferedChallenge::Http01(_) => Challenge::Http01,
        OfferedChallenge::Dns01(_) => Challenge::Dns01,
        OfferedChallenge::TlsAlpn01(_) => Challenge::TlsAlpn01,
    }
}

/// The parameters of an offered challenge, whatever its kind.
pub open spec fn offered_data(o: OfferedChallenge) -> ChallengeData {
    match o {
        OfferedChallenge::Http01(d) => d,
        OfferedChallenge::Dns01(d) => d,
        OfferedChallenge::TlsAlpn01(d) => d,
    }
}

/// A configured kind matches an offered challenge exactly when their kinds
/// agree.
pub open spec fn challenge_matches(c: Challenge, o: OfferedChallenge) -> bool {
    offered_kind(o) == c
}

/// Matching never reads the offered parameters: two offers of the same kind
/// are matched alike by every configured kind, regardless of token or URL.
pub proof fn lemma_matching_is_kind_only(c: Challenge, o1: OfferedChallenge, o2: OfferedChallenge)
    requires
        offered_kind(o1) == offered_kind(o2),
    ensures
        challenge_matches(c, o1) == challenge_matches(c, o2),
{
}

/// The file or record name under which the proof must be published, by the
/// mechanism's fixed naming scheme: the token names the well-known file for
/// HTTP and the certificate for TLS-ALPN; DNS uses its fixed label prefix.
pub open spec fn file_name_spec(o: OfferedChallenge) -> Seq<char> {
    match o {
        OfferedChallenge::Http01(d) => d.token@,
        OfferedChallenge::Dns01(_) => "_acme-challenge"@,
        OfferedChallenge::TlsAlpn01(d) => d.token@,
    }
}

impl OfferedChallenge {
    /// The kind of this offered challenge.
    pub fn kind(&self) -> (r: Challenge)
        ensures
            r == offered_kind(*self),
    {
        match self {
            OfferedChallenge::Http01(_) => Challenge::Http01,
            OfferedChallenge::Dns01(_) => Challenge::Dns01,
            OfferedChallenge::TlsAlpn01(_) => Challenge::TlsAlpn01,
        }
    }

    /// The server-issued token of this challenge.
    pub fn token(&self) -> (r: &String)
        ensures
            r@ == offered_data(*self).token@,
    {
        match self {
            OfferedChallenge::Http01(d) => &d.token,
            OfferedChallenge::Dns01(d) => &d.token,
            OfferedChallenge::TlsAlpn01(d) => &d.token,
        }
    }

    /// The challenge's own URL: the target of the acceptance request.
    pub fn get_url(&self) -> (r: &String)
        ensures
            r@ == offered_data(*self).url@,
    {
        match self {
            OfferedChallenge::Http01(d) => &d.url,
            OfferedChallenge::Dns01(d) => &d.url,
            OfferedChallenge::TlsAlpn01(d) => &d.url,
        }
    }

    /// The file or record name for this challenge's proof.
    pub fn get_file_name(&self) -> (r: String)
        ensures
            r@ == file_name_spec(*self),
    {
        match self {
            OfferedChallenge::Http01(d) => d.token.clone(),
            OfferedChallenge::Dns01(_) => String::from_str("_acme-challenge"),
            OfferedChallenge::TlsAlpn01(d) => d.token.clone(),
        }
    }
}

/// The first offered challenge at or after `from` whose kind is `kind`, if
/// any.
pub open spec fn spec_find_matching(cs: Seq<OfferedChallenge>, kind: Challenge, from: int) -> Option<
    int,
>
    decreases cs.len() - from,
{
    if from < 0 || from >= cs.len() {
        None
    } else if challenge_matches(kind, cs[from]) {
        Some(from)
    } else {
        spec_find_matching(cs, kind, from + 1)
    }
}

/// Scans the offered challenges for the first one of the configured kind,
/// starting at `from`.
pub fn find_matching_challenge(challenges: &Vec<OfferedChallenge>, kind: Challenge, from: usize) -> (r:
    Option<usize>)
    ensures
        match r {
            Some(i) => spec_find_matching(challenges@, kind, from as int) == Some(i as int)
                && from <= i < challenges@.len() && challenge_matches(kind, challenges@[i as int]),
            None => spec_find_matching(challenges@, kind, from as int) is None,
        },
{
    let mut i: usize = from;
    if i > challenges.len() {
        return None;
    }
    while i < challenges.len()
        invariant
            from <= i <= challenges@.len(),
            spec_find_matching(challenges@, kind, from as int) == spec_find_matching(
                challenges@,
                kind,
                i as int,
            ),
        decreases challenges@.len() - i,
    {
        if kind.matches(&challenges[i]) {
            return Some(i);
        }
        i += 1;
    }
    None
}

} // verus!
