use vstd::prelude::*;

use crate::chains::Chains;
use crate::chains::spec_chain_id;
use crate::errors::CliError;

verus! {

/// Whether a character may stand in a URL path segment: not a separator and
/// not a control character.
pub open spec fn spec_path_safe_char(c: char) -> bool {
    &&& c != '/'
    &&& (c as u32) >= 32
    &&& (c as u32) != 127
}

/// Whether every character of a secret representation is safe for a URL
/// path segment.
pub open spec fn spec_path_safe(s: Seq<char>) -> bool {
    forall|i: int| 0 <= i < s.len() ==> spec_path_safe_char(s[i])
}

/// The RPC endpoint URL for a chain and a secret representation: the fixed
/// base, the chain identifier, a separator, and the representation.
pub open spec fn spec_endpoint(chain_id: Seq<char>, secret_repr: Seq<char>) -> Seq<char> {
    "https://api.cloud.developerdao.com/rpc/"@ + chain_id + "/"@ + secret_repr
}

/// Tests whether a secret representation may stand in a URL path segment.
pub fn path_safe_repr(s: &str) -> (b: bool)
    ensures
        b == spec_path_safe(s@),
{
    let len = s.unicode_len();
    let mut i: usize = 0;
    while i < len
        invariant
            i <= len,
            len == s@.len(),
            forall|j: int| 0 <= j < i ==> spec_path_safe_char(s@[j]),
        decreases len - i,
    {
        let c = s.get_char(i);
        let code = c as u32;
        if c == '/' || code < 32 || code == 127 {
            return false;
        }
        i = i + 1;
    }
    true
}

/// Builds the canonical RPC endpoint URL for a chain and a secret
/// representation (raw or redacted).
///
/// Succeeds exactly when the representation holds no `/` and no control
/// character; server-issued secrets need no escaping, so anything else is
/// rejected as `InvalidSecretEncoding` rather than smuggled into a URL.
pub fn build_endpoint(chain: Chains, secret_repr: &str) -> (r: Result<String, CliError>)
    ensures
        r is Ok <==> spec_path_safe(secret_repr@),
        r is Ok ==> r->Ok_0@ == spec_endpoint(spec_chain_id(chain), secret_repr@),
        r is Err ==> r->Err_0 == CliError::InvalidSecretEncoding,
{
    if !path_safe_repr(secret_repr) {
        return Err(CliError::InvalidSecretEncoding);
    }
    let mut out = "https://api.cloud.developerdao.com/rpc/".to_owned();
    out.append(chain.id());
    out.append("/");
    out.append(secret_repr);
    Ok(out)
}

/// For a fixed chain the endpoint is injective in the secret representation:
/// two representations that build the same URL are the same, so distinct
/// secrets never collide on an endpoint.
pub proof fn lemma_endpoint_injective(chain_id: Seq<char>, s1: Seq<char>, s2: Seq<char>)
    requires
        spec_endpoint(chain_id, s1) == spec_endpoint(chain_id, s2),
    ensures
        s1 == s2,
{
    let prefix = "https://api.cloud.developerdao.com/rpc/"@ + chain_id + "/"@;
    assert(spec_endpoint(chain_id, s1) =~= prefix + s1);
    assert(spec_endpoint(chain_id, s2) =~= prefix + s2);
    assert(s1.len() == s2.len());
    assert forall|i: int| 0 <= i < s1.len() implies s1[i] == s2[i] by {
        assert((prefix + s1)[prefix.len() + i] == s1[i]);
        assert((prefix + s2)[prefix.len() + i] == s2[i]);
    }
    assert(s1 =~= s2);
}

} // verus!
