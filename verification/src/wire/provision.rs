//! Wire pair of the DNS-01 provisioning endpoint.

use vstd::prelude::*;
use vstd::string::StringExecFns;

use crate::wire::{base64_of, serialize};

verus! {

/// Request of the provisioning endpoint: the account's public key in clear
/// (a raw JSON value, inserted verbatim) and the authorization-proof
/// envelope carried as its serialized bytes.
pub struct ProvisionRequest {
    pub account_public_key: String,
    pub signed_authorization_request: Vec<u8>,
}

/// Result of the provisioning endpoint: the confirmed authorization URL and
/// the URL of the challenge a DNS record was created for.
#[derive(Clone, Debug)]
pub struct ProvisionResult {
    pub authorization_url: String,
    pub provisioned_challenge_url: String,
}

/// The JSON body of a provisioning request, given the public-key JSON text
/// and the base64 text of the signed envelope.
pub open spec fn spec_provision_request_json(jwk: Seq<char>, b64: Seq<char>) -> Seq<char> {
    "{\"accountPublicKey\":"@ + jwk + ",\"signedAuthorizationRequest\":\""@ + b64 + "\"}"@
}

impl ProvisionRequest {
    /// The exact JSON body this request travels as.
    pub fn to_json(&self) -> (s: String)
        ensures
            s@ == spec_provision_request_json(
                self.account_public_key@,
                base64_of(self.signed_authorization_request@),
            ),
    {
        let mut s: String = String::from_str("{\"accountPublicKey\":");
        s.append(self.account_public_key.as_str());
        s.append(",\"signedAuthorizationRequest\":");
        let wrapped: String = serialize(&self.signed_authorization_request);
        s.append(wrapped.as_str());
        s.append("}");
        proof {
            reveal_strlit("{\"accountPublicKey\":");
            reveal_strlit(",\"signedAuthorizationRequest\":");
            reveal_strlit(",\"signedAuthorizationRequest\":\"");
            reveal_strlit("\"");
            reveal_strlit("}");
            reveal_strlit("\"}");
            assert(s@ =~= spec_provision_request_json(
                self.account_public_key@,
                base64_of(self.signed_authorization_request@),
            ));
        }
        s
    }
}

} // verus!
