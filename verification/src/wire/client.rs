//! The provisioning wire client: canonicalizes the service's base URL so
//! endpoint names can be joined onto it, frames the two request bodies,
//! classifies failed exchanges, and owns the bounded nonce-retry policy.
//! The HTTP transport itself lives in the embedding application; every
//! function here is a function of plain values.

use vstd::prelude::*;
use vstd::string::StrSliceExecFns;
use vstd::string::StringExecFns;

use crate::error::{AcmeFailure, LocalcertError, LocalcertResult, Problem, spec_is_bad_nonce_error};
use crate::wire::base64_of;
use crate::wire::domain::{spec_domain_request_json, DomainRequest};
use crate::wire::provision::{spec_provision_request_json, ProvisionRequest};

verus! {

/// Whether the URL parser accepts this text as an absolute URL that can
/// serve as a base, as `Url::parse` and `Url::cannot_be_a_base` decide it.
pub uninterp spec fn parses_as_base_url(s: Seq<char>) -> bool;

/// Relies on `url::Url::parse` (re-exported through
/// `http_client::http_types`): whether the text parses as a URL that can be
/// a base, a function of the text alone.
#[verifier::external_body]
fn check_base_url(s: &str) -> (r: bool)
    ensures
        r == parses_as_base_url(s@),
{
    match http_client::http_types::Url::parse(s) {
        Ok(u) => !u.cannot_be_a_base(),
        Err(_) => false,
    }
}

/// Whether the text ends in the path separator.
pub open spec fn ends_with_sep(s: Seq<char>) -> bool {
    s.len() > 0 && s.last() == '/'
}

/// The canonical form of a base URL: the text itself if it already ends in
/// the path separator, else the text with one separator appended.
pub open spec fn spec_canonical_base(s: Seq<char>) -> Seq<char> {
    if ends_with_sep(s) {
        s
    } else {
        s.push('/')
    }
}

/// The base URL with its trailing separator, if any, removed.
pub open spec fn spec_without_trailing_sep(s: Seq<char>) -> Seq<char> {
    if ends_with_sep(s) {
        s.drop_last()
    } else {
        s
    }
}

/// Index of the first query or fragment delimiter of the text, or its
/// length if there is none.  Everything from that delimiter on is dropped
/// when the text becomes a base: an endpoint name joined onto a base
/// replaces its query and fragment.
pub open spec fn spec_qf_index(s: Seq<char>) -> int
    decreases s.len(),
{
    if s.len() == 0 {
        0
    } else if s[0] == '?' || s[0] == '#' {
        0
    } else {
        1 + spec_qf_index(s.drop_first())
    }
}

/// What `spec_qf_index` returns is the first delimiter, and the length
/// means no delimiter at all.
pub proof fn lemma_qf_index_characterization(s: Seq<char>)
    ensures
        0 <= spec_qf_index(s) <= s.len(),
        spec_qf_index(s) < s.len() ==> (s[spec_qf_index(s)] == '?' || s[spec_qf_index(s)]
            == '#'),
        forall|j: int| 0 <= j < spec_qf_index(s) ==> !(s[j] == '?' || s[j] == '#'),
    decreases s.len(),
{
    if s.len() > 0 && !(s[0] == '?' || s[0] == '#') {
        lemma_qf_index_characterization(s.drop_first());
        assert forall|j: int| 0 <= j < spec_qf_index(s) && j >= 1 implies !(s[j] == '?' || s[j]
            == '#') by {
            assert(s.drop_first()[j - 1] == s[j]);
        }
    }
}

/// The text up to its first query or fragment delimiter: the part that can
/// serve as a base for joining endpoint names.
pub open spec fn spec_trimmed_base(s: Seq<char>) -> Seq<char> {
    s.subrange(0, spec_qf_index(s))
}

/// A base URL this client accepts: one whose trimmed text the URL parser
/// takes as a base.
pub open spec fn spec_valid_base_url(s: Seq<char>) -> bool {
    parses_as_base_url(spec_trimmed_base(s))
}

/// Law: the canonical base always ends in the path separator.
pub proof fn lemma_canonical_base_ends_in_separator(base: Seq<char>)
    ensures
        ends_with_sep(spec_canonical_base(base)),
{
}

/// Law: joining an endpoint name onto the canonical base yields the base
/// stripped of any trailing separator, then exactly one separator, then the
/// name — no separator is doubled at the seam.  Bases that already end in a
/// doubled separator are the one exception and are left out.
pub proof fn lemma_join_single_separator(base: Seq<char>, endpoint: Seq<char>)
    requires
        ends_with_sep(base) ==> !ends_with_sep(base.drop_last()),
    ensures
        spec_canonical_base(base) + endpoint =~= spec_without_trailing_sep(base) + seq!['/']
            + endpoint,
        !ends_with_sep(spec_without_trailing_sep(base)),
{
    if ends_with_sep(base) {
        assert(base =~= base.drop_last() + seq![base.last()]);
    } else {
        assert(base.push('/') =~= base + seq!['/']);
    }
}

/// One HTTP exchange the embedding application must perform: POST `body`
/// to `url`.
pub struct WireCall {
    pub url: String,
    pub body: String,
}

/// The wire client: the canonical base URL every endpoint name is joined
/// onto.
pub struct LocalcertClient {
    pub base_url: String,
}

impl LocalcertClient {
    /// Well-formedness: the stored base ends in the path separator, so
    /// joins cannot run two path segments together.
    pub open spec fn wf(&self) -> bool {
        ends_with_sep(self.base_url@)
    }

    /// Accepts a base URL, canonicalized to end in the path separator.
    /// Any query or fragment is dropped first, as joining an endpoint name
    /// onto the base would replace it anyway.  Rejects, with an
    /// invalid-base-URL error carrying the given text, exactly the texts
    /// whose trimmed form the URL parser refuses as a base.
    pub fn new(base_url: &str) -> (r: LocalcertResult<LocalcertClient>)
        ensures
            r is Ok <==> spec_valid_base_url(base_url@),
            r matches Ok(c) ==> c.base_url@ == spec_canonical_base(spec_trimmed_base(base_url@))
                && c.wf(),
            r matches Err(e) ==> (e matches LocalcertError::InvalidBaseUrl(m) && m@ == base_url@),
    {
        proof {
            lemma_qf_index_characterization(base_url@);
        }
        let n: usize = base_url.unicode_len();
        let mut cut: usize = n;
        let mut i: usize = 0;
        while i < n
            invariant
                0 <= i <= n,
                n == base_url@.len(),
                cut == n || (cut < i && (base_url@[cut as int] == '?' || base_url@[cut as int]
                    == '#')),
                forall|j: int|
                    0 <= j < i && j < cut ==> !(base_url@[j] == '?' || base_url@[j] == '#'),
            decreases n - i,
        {
            if cut == n {
                let c: char = base_url.get_char(i);
                if c == '?' || c == '#' {
                    cut = i;
                }
            }
            i = i + 1;
        }
        proof {
            lemma_qf_index_characterization(base_url@);
            assert(cut as int == spec_qf_index(base_url@));
        }
        let trimmed: &str = base_url.substring_char(0, cut);
        if !check_base_url(trimmed) {
            return Err(LocalcertError::InvalidBaseUrl(base_url.to_owned()));
        }
        let mut base: String = trimmed.to_owned();
        if cut == 0 || trimmed.get_char(cut - 1) != '/' {
            base.append("/");
            proof {
                reveal_strlit("/");
                assert(base@ =~= spec_canonical_base(spec_trimmed_base(base_url@)));
            }
        }
        Ok(LocalcertClient { base_url: base })
    }

    /// The URL of one endpoint: the canonical base with the endpoint name
    /// appended.
    pub fn endpoint_url(&self, endpoint: &str) -> (r: String)
        requires
            self.wf(),
        ensures
            r@ == self.base_url@ + endpoint@,
    {
        let r: String = self.base_url.clone().concat(endpoint);
        r
    }

    /// The exchange that claims the account's domain: the domain endpoint
    /// and the exact JSON body of the request.
    pub fn domain_claim_exchange(&self, request: &DomainRequest) -> (c: WireCall)
        requires
            self.wf(),
        ensures
            c.url@ == self.base_url@ + "domain"@,
            c.body@ == spec_domain_request_json(base64_of(request.signed_account_request@)),
    {
        WireCall { url: self.endpoint_url("domain"), body: request.to_json() }
    }

    /// The exchange that asks for a DNS record to be provisioned: the
    /// provision endpoint and the exact JSON body of the request.
    pub fn provision_exchange(&self, request: &ProvisionRequest) -> (c: WireCall)
        requires
            self.wf(),
        ensures
            c.url@ == self.base_url@ + "provision"@,
            c.body@ == spec_provision_request_json(
                request.account_public_key@,
                base64_of(request.signed_authorization_request@),
            ),
    {
        WireCall { url: self.endpoint_url("provision"), body: request.to_json() }
    }
}

/// Where a signed proof envelope is addressed.
#[derive(Clone, Debug)]
pub enum ProofTarget {
    /// The authority's own account-verification (new-account) endpoint.
    AccountVerification,
    /// The authorization being proven, cited by its URL.
    Authorization(String),
}

/// How a signed proof envelope authenticates its sender.
#[derive(Clone, Copy, PartialEq, Eq, Structural, Debug)]
pub enum ProofAuth {
    /// By the account's public key, embedded as a JWK.
    PublicKeyJwk,
    /// By the account's key identifier, its account URL.
    KeyId,
}

/// The payload carried inside a signed proof envelope.
#[derive(Clone, Copy, PartialEq, Eq, Structural, Debug)]
pub enum ProofPayload {
    /// The account-resource request.  With `only_return_existing` set, the
    /// authority must answer with an existing account and never create one
    /// as a side effect.
    NewAccount { only_return_existing: bool },
    /// No payload at all.
    Empty,
}

/// One instruction for the engine's signing capability: what the envelope
/// is addressed to, how it authenticates, and what it carries.  The engine
/// signs it with the account key; the envelope itself stays opaque here
/// and travels base64-wrapped.
#[derive(Clone, Debug)]
pub struct SigningInstruction {
    pub target: ProofTarget,
    pub auth: ProofAuth,
    pub payload: ProofPayload,
}

impl SigningInstruction {
    /// The account-identity proof of the domain-claim call: addressed to
    /// the authority's account-verification endpoint, authenticated by the
    /// public JWK, and requesting only-return-existing semantics, so that
    /// claiming a domain can never create an account as a side effect.
    pub fn account_proof() -> (r: Self)
        ensures
            r == (SigningInstruction {
                target: ProofTarget::AccountVerification,
                auth: ProofAuth::PublicKeyJwk,
                payload: ProofPayload::NewAccount { only_return_existing: true },
            }),
    {
        SigningInstruction {
            target: ProofTarget::AccountVerification,
            auth: ProofAuth::PublicKeyJwk,
            payload: ProofPayload::NewAccount { only_return_existing: true },
        }
    }

    /// The authorization proof of the provisioning call: addressed to the
    /// authorization's own URL, authenticated by the key identifier, with
    /// an empty payload.
    pub fn authorization_proof(authorization_url: String) -> (r: Self)
        ensures
            r == (SigningInstruction {
                target: ProofTarget::Authorization(authorization_url),
                auth: ProofAuth::KeyId,
                payload: ProofPayload::Empty,
            }),
    {
        SigningInstruction {
            target: ProofTarget::Authorization(authorization_url),
            auth: ProofAuth::KeyId,
            payload: ProofPayload::Empty,
        }
    }
}

/// Whether an HTTP status code reports success.
pub fn is_success_status(status: u16) -> (r: bool)
    ensures
        r == (200 <= status < 300),
{
    200 <= status && status < 300
}

/// Classifies a non-success exchange: a parseable problem document becomes
/// an authority-protocol error carrying it; anything else becomes a
/// transport error carrying the status and an empty body text.
pub fn classify_failure(status: u16, problem: Option<Problem>) -> (e: LocalcertError)
    ensures
        match problem {
            Some(p) => e == LocalcertError::AcmeError(AcmeFailure::Problem(p)),
            None => e matches LocalcertError::HttpError(s, b) && s == status && b@ =~= Seq::<
                char,
            >::empty(),
        },
{
    match problem {
        Some(p) => LocalcertError::AcmeError(AcmeFailure::Problem(p)),
        None => LocalcertError::HttpError(status, String::new()),
    }
}

/// The outcome of the bounded nonce-retry policy, given the first attempt
/// and the attempt that would replace it: only a bad-nonce failure is
/// replaced, and only once.
pub open spec fn spec_nonce_retry_outcome<T>(
    first: Result<T, LocalcertError>,
    second: Result<T, LocalcertError>,
) -> Result<T, LocalcertError> {
    if spec_is_bad_nonce_error(first) {
        second
    } else {
        first
    }
}

/// Law: a single bad-nonce failure is absorbed — the retry's outcome is
/// returned, success or not, so a second bad-nonce failure surfaces
/// unchanged; any other first outcome, success or failure, is returned
/// untouched and no retry is consulted.
pub proof fn lemma_nonce_retry_policy<T>(
    first: Result<T, LocalcertError>,
    second: Result<T, LocalcertError>,
)
    ensures
        spec_is_bad_nonce_error(first) ==> spec_nonce_retry_outcome(first, second) == second,
        !spec_is_bad_nonce_error(first) ==> spec_nonce_retry_outcome(first, second) == first,
{
}

/// Resolves one round of the nonce-retry policy on concrete outcomes.
pub fn resolve_nonce_retry<T>(
    first: LocalcertResult<T>,
    second: LocalcertResult<T>,
) -> (r: LocalcertResult<T>)
    ensures
        r == spec_nonce_retry_outcome(first, second),
{
    if crate::error::is_bad_nonce_error(&first) {
        second
    } else {
        first
    }
}

} // verus!
