use dd_cloud::chains::Chains;
use dd_cloud::chains::catalog;
use dd_cloud::endpoint::build_endpoint;
use dd_cloud::endpoint::path_safe_repr;
use dd_cloud::errors::CliError;

#[test]
fn endpoint_concatenates_base_chain_and_secret() {
    let ep = build_endpoint(Chains::Ethereum, "abcdefghijklmnopqrst").unwrap();
    assert_eq!(ep, "https://api.cloud.developerdao.com/rpc/eth/abcdefghijklmnopqrst");
}

#[test]
fn endpoint_uses_each_chain_identifier() {
    let cases = [
        (Chains::Ethereum, "eth"),
        (Chains::Base, "base"),
        (Chains::Arbitrum, "arb-one"),
        (Chains::Polygon, "poly"),
        (Chains::Optimism, "op"),
        (Chains::BinanceSmartChain, "bsc"),
        (Chains::Solana, "solana"),
        (Chains::Sui, "sui"),
    ];
    for (chain, id) in cases {
        assert_eq!(chain.id(), id);
        let ep = build_endpoint(chain, "k-1234567890").unwrap();
        assert_eq!(ep, format!("https://api.cloud.developerdao.com/rpc/{id}/k-1234567890"));
    }
}

#[test]
fn chain_names_render() {
    assert_eq!(Chains::Ethereum.name(), "Ethereum");
    assert_eq!(Chains::BinanceSmartChain.name(), "Binance Smart Chain");
    assert_eq!(Chains::Sui.name(), "Sui");
}

#[test]
fn secret_with_slash_is_rejected() {
    assert_eq!(
        build_endpoint(Chains::Ethereum, "abc/def1234"),
        Err(CliError::InvalidSecretEncoding)
    );
}

#[test]
fn secret_with_control_character_is_rejected() {
    assert_eq!(
        build_endpoint(Chains::Ethereum, "abc\ndef1234"),
        Err(CliError::InvalidSecretEncoding)
    );
    assert_eq!(
        build_endpoint(Chains::Ethereum, "abc\u{7f}def1234"),
        Err(CliError::InvalidSecretEncoding)
    );
}

#[test]
fn path_safety_check_matches_charset() {
    assert!(path_safe_repr("ordinary-secret_1234"));
    assert!(path_safe_repr(""));
    assert!(!path_safe_repr("/"));
    assert!(!path_safe_repr("\t"));
}

#[test]
fn different_secrets_give_different_endpoints() {
    let a = build_endpoint(Chains::Polygon, "aaaaaaaaaa").unwrap();
    let b = build_endpoint(Chains::Polygon, "aaaaaaaaab").unwrap();
    assert_ne!(a, b);
}

#[test]
fn catalog_is_ordered_and_indexed() {
    let all = catalog();
    assert_eq!(all.len(), 8);
    assert_eq!(all[0], Chains::Ethereum);
    assert_eq!(all[7], Chains::Sui);
    for (i, chain) in all.iter().enumerate() {
        assert_eq!(Chains::from_index(i).unwrap(), *chain);
    }
}

#[test]
fn out_of_range_chain_index_is_rejected() {
    assert_eq!(Chains::from_index(8), Err(CliError::InvalidChainIndex));
    assert_eq!(Chains::from_index(usize::MAX), Err(CliError::InvalidChainIndex));
}
