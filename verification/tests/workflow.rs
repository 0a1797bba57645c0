use dd_cloud::chains::Chains;
use dd_cloud::errors::CliError;
use dd_cloud::keys::Key;
use dd_cloud::workflow::KeysOutcome;
use dd_cloud::workflow::RawDestination;
use dd_cloud::workflow::endpoint_banner;
use dd_cloud::workflow::on_key_chosen;
use dd_cloud::workflow::on_keys_listed;
use dd_cloud::workflow::redact_all;
use dd_cloud::workflow::reveal_endpoint;

fn key(s: &str) -> Key {
    Key { apikey: String::from(s) }
}

#[test]
fn empty_listing_asks_for_creation() {
    let keys: Vec<Key> = Vec::new();
    assert!(matches!(on_keys_listed(&keys), Ok(KeysOutcome::CreateNeeded)));
}

#[test]
fn fresh_key_reveals_redacted_display_and_raw_clipboard() {
    // The default path: the redacted endpoint is displayed, the raw one
    // goes only to the clipboard.
    let new_key = key("abcdefghijklmnopqrst");
    let out = reveal_endpoint(Chains::Ethereum, &new_key, false).unwrap();
    assert_eq!(
        out.redacted_endpoint,
        "https://api.cloud.developerdao.com/rpc/eth/abcde*****************pqrst"
    );
    match out.destination {
        RawDestination::Clipboard(raw) => {
            assert_eq!(raw, "https://api.cloud.developerdao.com/rpc/eth/abcdefghijklmnopqrst");
            // The raw key never appears in the displayed endpoint.
            assert!(!out.redacted_endpoint.contains("abcdefghijklmnopqrst"));
        }
        RawDestination::Display(_) => panic!("raw endpoint must not reach the display stream"),
    }
}

#[test]
fn reveal_raw_sends_raw_to_display_and_skips_clipboard() {
    let new_key = key("abcdefghijklmnopqrst");
    let out = reveal_endpoint(Chains::Ethereum, &new_key, true).unwrap();
    match out.destination {
        RawDestination::Display(raw) => {
            assert_eq!(raw, "https://api.cloud.developerdao.com/rpc/eth/abcdefghijklmnopqrst");
        }
        RawDestination::Clipboard(_) => panic!("clipboard must stay untouched under the opt-in"),
    }
}

#[test]
fn non_empty_listing_offers_redacted_choices_in_order() {
    let keys = vec![key("abcdefghijklmnopqrst"), key("zyxwvutsrqponmlkjihg")];
    match on_keys_listed(&keys).unwrap() {
        KeysOutcome::Choose(list) => {
            assert_eq!(list.len(), 2);
            assert_eq!(list[0].redacted, "abcde*****************pqrst");
            assert_eq!(list[1].redacted, "zyxwv*****************kjihg");
        }
        KeysOutcome::CreateNeeded => panic!("keys exist; nothing to create"),
    }
}

#[test]
fn listing_with_short_key_is_rejected() {
    let keys = vec![key("abcdefghijklmnopqrst"), key("short")];
    assert!(matches!(on_keys_listed(&keys), Err(CliError::InvalidSecretLength)));
}

#[test]
fn cancelled_selection_aborts() {
    let keys = vec![key("abcdefghijklmnopqrst")];
    assert!(matches!(
        on_key_chosen(Chains::Base, &keys, None, false),
        Err(CliError::SelectionAborted)
    ));
}

#[test]
fn chosen_key_is_revealed_for_its_chain() {
    let keys = vec![key("abcdefghijklmnopqrst"), key("zyxwvutsrqponmlkjihg")];
    let out = on_key_chosen(Chains::Base, &keys, Some(1), false).unwrap();
    assert_eq!(
        out.redacted_endpoint,
        "https://api.cloud.developerdao.com/rpc/base/zyxwv*****************kjihg"
    );
    match out.destination {
        RawDestination::Clipboard(raw) => {
            assert_eq!(raw, "https://api.cloud.developerdao.com/rpc/base/zyxwvutsrqponmlkjihg");
        }
        RawDestination::Display(_) => panic!("raw endpoint must not reach the display stream"),
    }
}

#[test]
fn unsafe_secret_cannot_be_revealed() {
    let bad = key("abcde/ghijklmnopqrst");
    assert!(matches!(
        reveal_endpoint(Chains::Ethereum, &bad, false),
        Err(CliError::InvalidSecretEncoding)
    ));
}

#[test]
fn redact_all_maps_every_key() {
    let keys = vec![key("abcdefghijklmnopqrst")];
    let list = redact_all(&keys).unwrap();
    assert_eq!(list.len(), 1);
    assert_eq!(list[0].redacted, "abcde*****************pqrst");
}

#[test]
fn banner_names_the_chain() {
    assert_eq!(endpoint_banner(Chains::Ethereum), "Your RPC Endpoint for Ethereum:");
    assert_eq!(
        endpoint_banner(Chains::BinanceSmartChain),
        "Your RPC Endpoint for Binance Smart Chain:"
    );
}
