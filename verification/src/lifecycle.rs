use vstd::prelude::*;

use crate::cli::SecretManager;
use crate::endpoint::path_safe_repr;
use crate::endpoint::spec_path_safe;
use crate::errors::CliError;
use crate::keys::Key;
use crate::keys::MIN_SECRET_LEN;
use crate::keys::RedactedKey;
use crate::keys::VISIBLE_RUN;
use crate::keys::spec_redact;
use crate::keys::spec_redactable;
use crate::workflow::redact_all;

verus! {

/// The revocation request for one key: the URL the account service deletes
/// it under.
#[derive(Debug)]
pub struct DeleteRequest {
    pub url: String,
}

/// The request handed to a secret sink when a new key is exported: the
/// sink-visible name, the raw secret, and a fixed description.
#[derive(Debug)]
pub struct SecretRequest {
    pub name: String,
    pub secret_string: String,
    pub description: String,
}

/// What to do with a freshly created key: hand it to a secret sink, or copy
/// it to the clipboard. Either way only the redacted form is displayed.
#[derive(Debug)]
pub enum NewKeyPlan {
    /// Store the raw secret in the configured sink.
    Export(SecretRequest),
    /// Copy the raw secret to the clipboard.
    CopyToClipboard(String),
}

/// The URL a key is revoked under.
pub open spec fn spec_delete_url(secret: Seq<char>) -> Seq<char> {
    "https://api.cloud.developerdao.com/api/keys/"@ + secret
}

/// The sink name a new key is exported under: a fixed prefix and the
/// secret's first five characters.
pub open spec fn spec_export_name(secret: Seq<char>) -> Seq<char> {
    "D_D-Cloud-API-Key-"@ + secret.subrange(0, VISIBLE_RUN as int)
}

/// Builds the selection list for deletion.
///
/// Deletion of one of zero keys is refused with `NoKeysFound` before any
/// prompt; otherwise the user chooses from this redacted list.
pub fn delete_candidates(keys: &Vec<Key>) -> (r: Result<Vec<RedactedKey>, CliError>)
    ensures
        keys@.len() == 0 ==> r == Err::<Vec<RedactedKey>, CliError>(CliError::NoKeysFound),
        keys@.len() > 0 ==> (r is Ok <==> (forall|i: int|
            0 <= i < keys@.len() ==> spec_redactable(keys@[i].apikey@))),
        r is Ok ==> r->Ok_0@.len() == keys@.len(),
        r is Ok ==> forall|i: int|
            0 <= i < keys@.len() ==> r->Ok_0@[i].redacted@ == spec_redact(keys@[i].apikey@),
        keys@.len() > 0 && r is Err ==> r->Err_0 == CliError::InvalidSecretLength,
{
    if keys.len() == 0 {
        return Err(CliError::NoKeysFound);
    }
    redact_all(keys)
}

/// Renders the confirmation prompt for deleting one redacted key.
pub fn confirm_message(candidate: &RedactedKey) -> (r: String)
    ensures
        r@ == "Are you sure you want to delete "@ + candidate.redacted@ + "?"@,
{
    let mut s = "Are you sure you want to delete ".to_owned();
    s.append(candidate.redacted.as_str());
    s.append("?");
    s
}

/// Turns the user's confirmation into a revocation request, or into nothing.
///
/// A declined confirmation yields `DeletionAborted` and no request: no
/// revocation ever reaches the account service without an explicit yes.
pub fn decide_deletion(keys: &Vec<Key>, index: usize, confirmed: bool) -> (r: Result<
    DeleteRequest,
    CliError,
>)
    requires
        index < keys@.len(),
    ensures
        !confirmed ==> r == Err::<DeleteRequest, CliError>(CliError::DeletionAborted),
        confirmed ==> (r is Ok <==> spec_path_safe(keys@[index as int].apikey@)),
        confirmed && r is Ok ==> r->Ok_0.url@ == spec_delete_url(keys@[index as int].apikey@),
        confirmed && r is Err ==> r->Err_0 == CliError::InvalidSecretEncoding,
{
    if !confirmed {
        return Err(CliError::DeletionAborted);
    }
    if !path_safe_repr(keys[index].apikey.as_str()) {
        return Err(CliError::InvalidSecretEncoding);
    }
    let mut url = "https://api.cloud.developerdao.com/api/keys/".to_owned();
    url.append(keys[index].apikey.as_str());
    Ok(DeleteRequest { url })
}

/// Renders the report shown after a successful deletion.
pub fn deletion_report(candidate: &RedactedKey) -> (r: String)
    ensures
        r@ == "Successfully deleted api key: "@ + candidate.redacted@,
{
    let mut s = "Successfully deleted api key: ".to_owned();
    s.append(candidate.redacted.as_str());
    s
}

/// Decides what happens to a freshly created key.
///
/// The secret must be redactable before anything else: whatever the
/// destination, only the redacted form is ever displayed. With a sink
/// configured the plan carries the export request; without one the raw
/// secret goes to the clipboard.
pub fn plan_new_key(key: &Key, manager: Option<SecretManager>) -> (r: Result<NewKeyPlan, CliError>)
    ensures
        r is Ok <==> spec_redactable(key.apikey@),
        r is Err ==> r->Err_0 == CliError::InvalidSecretLength,
        r is Ok && manager is Some ==> r->Ok_0 is Export,
        r is Ok && manager is None ==> r->Ok_0 is CopyToClipboard,
        r is Ok && manager is Some ==> r->Ok_0->Export_0.name@ == spec_export_name(key.apikey@),
        r is Ok && manager is Some ==> r->Ok_0->Export_0.secret_string@ == key.apikey@,
        r is Ok && manager is Some ==> r->Ok_0->Export_0.description@
            == "An api key for D_D Cloud made via CLI"@,
        r is Ok && manager is None ==> r->Ok_0->CopyToClipboard_0@ == key.apikey@,
{
    if key.apikey.as_str().unicode_len() < MIN_SECRET_LEN {
        return Err(CliError::InvalidSecretLength);
    }
    match manager {
        Some(SecretManager::Aws) => {
            let prefix = key.apikey.as_str().substring_char(0, VISIBLE_RUN);
            let mut name = "D_D-Cloud-API-Key-".to_owned();
            name.append(prefix);
            Ok(
                NewKeyPlan::Export(
                    SecretRequest {
                        name,
                        secret_string: key.apikey.clone(),
                        description: "An api key for D_D Cloud made via CLI".to_owned(),
                    },
                ),
            )
        },
        None => Ok(NewKeyPlan::CopyToClipboard(key.apikey.clone())),
    }
}

/// Renders the report for a key created and copied to the clipboard: the
/// redacted form is the only part of the key it shows.
pub fn creation_report(redacted: &RedactedKey) -> (r: String)
    ensures
        r@ == "Your new API key:\n"@ + redacted.redacted@
            + "\nSuccessfully created and copied to clipboard!"@,
{
    let mut s = "Your new API key:\n".to_owned();
    s.append(redacted.redacted.as_str());
    s.append("\nSuccessfully created and copied to clipboard!");
    s
}

/// What a sink reported back about a stored secret, as plain values.
pub struct SinkReceipt {
    pub name: Option<String>,
    pub identifier: Option<String>,
}

/// A sink field rendered for display, with a fallback for an absent value.
pub open spec fn spec_or_none(field: Option<String>) -> Seq<char> {
    match field {
        Some(v) => v@,
        None => "None"@,
    }
}

/// Renders the report for a key created and exported to a secret sink: the
/// redacted form plus the sink's metadata, never the raw value.
pub fn export_report(redacted: &RedactedKey, receipt: &SinkReceipt) -> (r: String)
    ensures
        r@ == "Successfully created your new API key:\n"@ + redacted.redacted@
            + "\nSuccessfully added to AWS Secret Manager!\nName: "@ + spec_or_none(receipt.name)
            + "\nARN: "@ + spec_or_none(receipt.identifier),
{
    let mut s = "Successfully created your new API key:\n".to_owned();
    s.append(redacted.redacted.as_str());
    s.append("\nSuccessfully added to AWS Secret Manager!\nName: ");
    match &receipt.name {
        Some(v) => s.append(v.as_str()),
        None => s.append("None"),
    }
    s.append("\nARN: ");
    match &receipt.identifier {
        Some(v) => s.append(v.as_str()),
        None => s.append("None"),
    }
    s
}

} // verus!
