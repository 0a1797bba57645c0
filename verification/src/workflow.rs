use vstd::prelude::*;

use crate::chains::Chains;
use crate::chains::spec_chain_id;
use crate::chains::spec_chain_name;
use crate::endpoint::build_endpoint;
use crate::endpoint::spec_endpoint;
use crate::endpoint::spec_path_safe;
use crate::endpoint::spec_path_safe_char;
use crate::errors::CliError;
use crate::keys::Key;
use crate::keys::RedactedKey;
use crate::keys::redact;
use crate::keys::spec_redact;
use crate::keys::spec_redactable;

verus! {

/// A secret the workflow can take all the way to an endpoint: long enough
/// to redact and safe to embed in a URL path.
pub open spec fn spec_valid_secret(s: Seq<char>) -> bool {
    spec_redactable(s) && spec_path_safe(s)
}

/// The endpoint URL that embeds the raw secret.
pub open spec fn spec_raw_endpoint(chain: Chains, secret: Seq<char>) -> Seq<char> {
    spec_endpoint(spec_chain_id(chain), secret)
}

/// The endpoint URL that embeds the redacted form of the secret.
pub open spec fn spec_redacted_endpoint(chain: Chains, secret: Seq<char>) -> Seq<char> {
    spec_endpoint(spec_chain_id(chain), spec_redact(secret))
}

/// What the workflow does once the account's keys are listed: create the
/// first key, or let the user choose among redacted representations.
#[derive(Debug)]
pub enum KeysOutcome {
    /// The account holds no keys yet; exactly one must be created.
    CreateNeeded,
    /// The account holds keys; the user picks from this list, which shows
    /// every key in redacted form only.
    Choose(Vec<RedactedKey>),
}

/// Where the raw endpoint goes in the terminal reveal step.
#[derive(Debug)]
pub enum RawDestination {
    /// The raw endpoint goes to the clipboard only; it never reaches a
    /// display stream. The default.
    Clipboard(String),
    /// The raw endpoint goes to the display stream and the clipboard is
    /// left untouched. Only under the explicit opt-in flag.
    Display(String),
}

/// The terminal step of the selection workflow: what is displayed and where
/// the raw endpoint goes.
#[derive(Debug)]
pub struct RevealOutput {
    /// The chain the endpoint serves, for the banner line.
    pub chain: Chains,
    /// The endpoint with the secret redacted; always displayed.
    pub redacted_endpoint: String,
    /// The endpoint with the raw secret, routed by the opt-in flag.
    pub destination: RawDestination,
}

/// Redacting a path-safe secret yields a path-safe representation: every
/// character of the redacted form is either a character of the secret or
/// the mask character.
pub proof fn lemma_redacted_path_safe(s: Seq<char>)
    requires
        spec_redactable(s),
        spec_path_safe(s),
    ensures
        spec_path_safe(spec_redact(s)),
{
    assert(spec_path_safe_char('*'));
    assert forall|i: int| 0 <= i < spec_redact(s).len() implies spec_path_safe_char(
        spec_redact(s)[i],
    ) by {
        if i < 5 {
            assert(spec_redact(s)[i] == s[i]);
        } else if i < 22 {
            assert(spec_redact(s)[i] == '*');
        } else {
            assert(spec_redact(s)[i] == s[s.len() - 27 + i]);
        }
    }
}

/// Maps every key of a listing through the redaction engine, in order.
///
/// Succeeds exactly when every key is long enough to redact; the selection
/// surface never sees a raw value.
pub fn redact_all(keys: &Vec<Key>) -> (r: Result<Vec<RedactedKey>, CliError>)
    ensures
        r is Ok <==> (forall|i: int|
            0 <= i < keys@.len() ==> spec_redactable(keys@[i].apikey@)),
        r is Ok ==> r->Ok_0@.len() == keys@.len(),
        r is Ok ==> forall|i: int|
            0 <= i < keys@.len() ==> r->Ok_0@[i].redacted@ == spec_redact(keys@[i].apikey@),
        r is Err ==> r->Err_0 == CliError::InvalidSecretLength,
{
    let mut out: Vec<RedactedKey> = Vec::new();
    let mut i: usize = 0;
    while i < keys.len()
        invariant
            i <= keys@.len(),
            out@.len() == i,
            forall|j: int| 0 <= j < i ==> spec_redactable(keys@[j].apikey@),
            forall|j: int| 0 <= j < i ==> out@[j].redacted@ == spec_redact(keys@[j].apikey@),
        decreases keys@.len() - i,
    {
        match keys[i].as_redacted() {
            Ok(rk) => out.push(rk),
            Err(e) => {
                proof {
                    assert(!spec_redactable(keys@[i as int].apikey@));
                }
                return Err(e);
            },
        }
        i = i + 1;
    }
    Ok(out)
}

/// Decides the next step once the account service has listed the keys:
/// an empty listing asks for creation, a non-empty one becomes a selection
/// list of redacted representations in the listing's order.
pub fn on_keys_listed(keys: &Vec<Key>) -> (r: Result<KeysOutcome, CliError>)
    ensures
        keys@.len() == 0 ==> r == Ok::<KeysOutcome, CliError>(KeysOutcome::CreateNeeded),
        keys@.len() > 0 ==> (r is Ok <==> (forall|i: int|
            0 <= i < keys@.len() ==> spec_redactable(keys@[i].apikey@))),
        keys@.len() > 0 && r is Ok ==> r->Ok_0 is Choose,
        keys@.len() > 0 && r is Ok ==> r->Ok_0->Choose_0@.len() == keys@.len(),
        keys@.len() > 0 && r is Ok ==> forall|i: int|
            0 <= i < keys@.len() ==> r->Ok_0->Choose_0@[i].redacted@ == spec_redact(
                keys@[i].apikey@,
            ),
        r is Err ==> r->Err_0 == CliError::InvalidSecretLength,
{
    if keys.len() == 0 {
        return Ok(KeysOutcome::CreateNeeded);
    }
    match redact_all(keys) {
        Ok(list) => Ok(KeysOutcome::Choose(list)),
        Err(e) => Err(e),
    }
}

/// Computes the terminal reveal step for one key.
///
/// The redacted endpoint is always part of the output for display; the raw
/// endpoint goes to the clipboard by default and to the display stream only
/// under the explicit `reveal_raw` opt-in — never both.
pub fn reveal_endpoint(chain: Chains, key: &Key, reveal_raw: bool) -> (r: Result<
    RevealOutput,
    CliError,
>)
    ensures
        r is Ok <==> spec_valid_secret(key.apikey@),
        r is Ok ==> r->Ok_0.chain == chain,
        r is Ok ==> r->Ok_0.redacted_endpoint@ == spec_redacted_endpoint(chain, key.apikey@),
        r is Ok ==> (r->Ok_0.destination is Clipboard <==> !reveal_raw),
        r is Ok ==> (r->Ok_0.destination is Display <==> reveal_raw),
        r is Ok && !reveal_raw ==> r->Ok_0.destination->Clipboard_0@ == spec_raw_endpoint(
            chain,
            key.apikey@,
        ),
        r is Ok && reveal_raw ==> r->Ok_0.destination->Display_0@ == spec_raw_endpoint(
            chain,
            key.apikey@,
        ),
        !spec_redactable(key.apikey@) ==> r == Err::<RevealOutput, CliError>(
            CliError::InvalidSecretLength,
        ),
        spec_redactable(key.apikey@) && !spec_path_safe(key.apikey@) ==> r == Err::<
            RevealOutput,
            CliError,
        >(CliError::InvalidSecretEncoding),
{
    let redacted = match redact(key.apikey.as_str()) {
        Ok(s) => s,
        Err(e) => {
            return Err(e);
        },
    };
    let raw_endpoint = match build_endpoint(chain, key.apikey.as_str()) {
        Ok(s) => s,
        Err(e) => {
            return Err(e);
        },
    };
    proof {
        lemma_redacted_path_safe(key.apikey@);
    }
    let redacted_endpoint = match build_endpoint(chain, redacted.as_str()) {
        Ok(s) => s,
        Err(e) => {
            return Err(e);
        },
    };
    let destination = if reveal_raw {
        RawDestination::Display(raw_endpoint)
    } else {
        RawDestination::Clipboard(raw_endpoint)
    };
    Ok(RevealOutput { chain, redacted_endpoint, destination })
}

/// Resolves the user's pick from the selection list.
///
/// A cancelled prompt aborts the selection; a chosen index reveals the
/// matching key of the listing, which stays in its fetched order.
pub fn on_key_chosen(chain: Chains, keys: &Vec<Key>, picked: Option<usize>, reveal_raw: bool) -> (r:
    Result<RevealOutput, CliError>)
    requires
        picked matches Some(i) ==> i < keys@.len(),
    ensures
        picked is None ==> r == Err::<RevealOutput, CliError>(CliError::SelectionAborted),
        r is Ok <==> (picked matches Some(i) && spec_valid_secret(keys@[i as int].apikey@)),
        r is Ok ==> (picked matches Some(i) && r->Ok_0.chain == chain
            && r->Ok_0.redacted_endpoint@ == spec_redacted_endpoint(
            chain,
            keys@[i as int].apikey@,
        ) && (r->Ok_0.destination is Clipboard <==> !reveal_raw) && (!reveal_raw
            ==> r->Ok_0.destination->Clipboard_0@ == spec_raw_endpoint(
            chain,
            keys@[i as int].apikey@,
        )) && (reveal_raw ==> r->Ok_0.destination->Display_0@ == spec_raw_endpoint(
            chain,
            keys@[i as int].apikey@,
        ))),
        picked matches Some(i) && !spec_redactable(keys@[i as int].apikey@) ==> r == Err::<
            RevealOutput,
            CliError,
        >(CliError::InvalidSecretLength),
        picked matches Some(i) && spec_redactable(keys@[i as int].apikey@) && !spec_path_safe(
            keys@[i as int].apikey@,
        ) ==> r == Err::<RevealOutput, CliError>(CliError::InvalidSecretEncoding),
{
    match picked {
        None => Err(CliError::SelectionAborted),
        Some(i) => reveal_endpoint(chain, &keys[i], reveal_raw),
    }
}

/// The banner line announcing whose endpoint follows.
pub open spec fn spec_endpoint_banner(chain: Chains) -> Seq<char> {
    "Your RPC Endpoint for "@ + spec_chain_name(chain) + ":"@
}

/// Renders the banner line shown above the redacted endpoint.
pub fn endpoint_banner(chain: Chains) -> (r: String)
    ensures
        r@ == spec_endpoint_banner(chain),
{
    let mut s = "Your RPC Endpoint for ".to_owned();
    s.append(chain.name());
    s.append(":");
    s
}

} // verus!
