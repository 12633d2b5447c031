//! Wire pair of the domain-claim endpoint.

use vstd::prelude::*;
use vstd::string::StringExecFns;

use crate::wire::{base64_of, serialize, spec_b64_json_string};

verus! {

/// Request of the domain-claim endpoint: the account-identity proof, an
/// opaque signed envelope carried as its serialized bytes.
pub struct DomainRequest {
    pub signed_account_request: Vec<u8>,
}

/// Result of the domain-claim endpoint: the domain name assigned to the
/// caller's account.
#[derive(Clone, Debug)]
pub struct DomainResult {
    pub localcert_domain: String,
}

/// The JSON body of a domain-claim request, given the base64 text of the
/// signed envelope: one object with the `signedAccountRequest` field.
pub open spec fn spec_domain_request_json(b64: Seq<char>) -> Seq<char> {
    "{\"signedAccountRequest\":\""@ + b64 + "\"}"@
}

impl DomainRequest {
    /// The exact JSON body this request travels as.
    pub fn to_json(&self) -> (s: String)
        ensures
            s@ == spec_domain_request_json(base64_of(self.signed_account_request@)),
    {
        let mut s: String = String::from_str("{\"signedAccountRequest\":");
        let wrapped: String = serialize(&self.signed_account_request);
        s.append(wrapped.as_str());
        s.append("}");
        proof {
            reveal_strlit("{\"signedAccountRequest\":");
            reveal_strlit("{\"signedAccountRequest\":\"");
            reveal_strlit("\"");
            reveal_strlit("}");
            reveal_strlit("\"}");
            assert(s@ =~= spec_domain_request_json(base64_of(self.signed_account_request@)));
        }
        s
    }
}

} // verus!
