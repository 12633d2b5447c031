//! Plain-value models of what the issuance flow reads from the certificate
//! authority's resources: statuses, the challenges of an authorization, and
//! the account identity.  Each status set is an open union — `Other` stands
//! for any status outside the locally known set, so an authority that grows
//! its vocabulary cannot crash the flow.

use vstd::prelude::*;
use vstd::string::StringExecFns;

verus! {

/// Status of an authority-side order.
#[derive(Clone, Copy, PartialEq, Eq, Structural, Debug)]
pub enum OrderStatus {
    Pending,
    Ready,
    Processing,
    Valid,
    Invalid,
    Other,
}

/// Status of an authority-side authorization.
#[derive(Clone, Copy, PartialEq, Eq, Structural, Debug)]
pub enum AuthorizationStatus {
    Pending,
    Valid,
    Invalid,
    Other,
}

/// Status of one challenge under an authorization.
#[derive(Clone, Copy, PartialEq, Eq, Structural, Debug)]
pub enum ChallengeStatus {
    Pending,
    Valid,
    Invalid,
    Other,
}

/// What the flow reads of one challenge: its validation-method tag, its own
/// URL, and its status.
#[derive(Clone, Debug)]
pub struct ChallengeInfo {
    pub challenge_type: String,
    pub url: String,
    pub status: ChallengeStatus,
}

/// What the flow reads of an authorization: its URL, its status, and the
/// challenges it owns.
#[derive(Clone, Debug)]
pub struct AuthorizationInfo {
    pub url: String,
    pub status: AuthorizationStatus,
    pub challenges: Vec<ChallengeInfo>,
}

/// What the flow reads of the authority account: its URL (the key
/// identifier signed requests cite) and its public key as a JSON JWK text.
#[derive(Clone, Debug)]
pub struct AccountInfo {
    pub url: String,
    pub public_key_jwk: String,
}

/// The validation-method tag of the one challenge kind this crate drives.
pub open spec fn spec_dns01_type() -> Seq<char> {
    "dns-01"@
}

pub fn dns01_challenge_type() -> (s: &'static str)
    ensures
        s@ == spec_dns01_type(),
{
    "dns-01"
}

/// Whether a challenge is the DNS-01 kind.
pub open spec fn is_dns01(c: ChallengeInfo) -> bool {
    c.challenge_type@ == spec_dns01_type()
}

/// Index of the first DNS-01 challenge of a list, if any.
pub open spec fn spec_find_dns01(cs: Seq<ChallengeInfo>) -> Option<int>
    decreases cs.len(),
{
    if cs.len() == 0 {
        None
    } else if is_dns01(cs[0]) {
        Some(0)
    } else {
        match spec_find_dns01(cs.drop_first()) {
            None => None,
            Some(i) => Some(i + 1),
        }
    }
}

/// What `spec_find_dns01` returns is the first match, and `None` means no
/// match at all.
pub proof fn lemma_find_dns01_characterization(cs: Seq<ChallengeInfo>)
    ensures
        match spec_find_dns01(cs) {
            Some(i) => 0 <= i < cs.len() && is_dns01(cs[i]) && (forall|j: int|
                0 <= j < i ==> !is_dns01(cs[j])),
            None => forall|j: int| 0 <= j < cs.len() ==> !is_dns01(cs[j]),
        },
    decreases cs.len(),
{
    if cs.len() > 0 && !is_dns01(cs[0]) {
        lemma_find_dns01_characterization(cs.drop_first());
        assert forall|j: int| 0 <= j < cs.len() && j >= 1 implies cs.drop_first()[j - 1] == cs[j] by {}
    }
}

/// Finds the first DNS-01 challenge of a list, as the authority reported
/// the list.
pub fn find_dns01_challenge(cs: &Vec<ChallengeInfo>) -> (r: Option<usize>)
    ensures
        match r {
            Some(i) => spec_find_dns01(cs@) == Some(i as int),
            None => spec_find_dns01(cs@) is None,
        },
{
    proof {
        lemma_find_dns01_characterization(cs@);
    }
    let needle: &str = dns01_challenge_type();
    let mut i: usize = 0;
    while i < cs.len()
        invariant
            0 <= i <= cs@.len(),
            needle@ == spec_dns01_type(),
            forall|j: int| 0 <= j < i ==> !is_dns01(cs@[j]),
        decreases cs@.len() - i,
    {
        if string_eq_str(&cs[i].challenge_type, needle) {
            proof {
                lemma_find_dns01_characterization(cs@);
            }
            return Some(i);
        }
        i = i + 1;
    }
    None
}

/// Compares a `String` against a `&str` by contents.
pub fn string_eq_str(a: &String, b: &str) -> (r: bool)
    ensures
        r == (a@ == b@),
{
    let bs: String = String::from_str(b);
    *a == bs
}

} // verus!
