use vstd::prelude::*;

use crate::errors::CliError;

verus! {

/// A blockchain network the RPC service proxies to.
///
/// The catalog of chains is immutable at runtime and ordered; every chain
/// carries a stable machine identifier that becomes a segment of shared
/// endpoint URLs.
#[derive(Debug, Copy, Clone, PartialEq, Eq, Structural)]
pub enum Chains {
    Ethereum,
    Base,
    Arbitrum,
    Polygon,
    Optimism,
    BinanceSmartChain,
    Solana,
    Sui,
}

/// The machine identifier of a chain, used in URL paths.
pub open spec fn spec_chain_id(c: Chains) -> Seq<char> {
    match c {
        Chains::Ethereum => "eth"@,
        Chains::Base => "base"@,
        Chains::Arbitrum => "arb-one"@,
        Chains::Polygon => "poly"@,
        Chains::Optimism => "op"@,
        Chains::BinanceSmartChain => "bsc"@,
        Chains::Solana => "solana"@,
        Chains::Sui => "sui"@,
    }
}

/// The human-readable name of a chain.
pub open spec fn spec_chain_name(c: Chains) -> Seq<char> {
    match c {
        Chains::Ethereum => "Ethereum"@,
        Chains::Base => "Base"@,
        Chains::Arbitrum => "Arbitrum"@,
        Chains::Polygon => "Polygon"@,
        Chains::Optimism => "Optimism"@,
        Chains::BinanceSmartChain => "Binance Smart Chain"@,
        Chains::Solana => "Solana"@,
        Chains::Sui => "Sui"@,
    }
}

/// The fixed, ordered catalog of supported chains.
pub open spec fn spec_catalog() -> Seq<Chains> {
    seq![
        Chains::Ethereum,
        Chains::Base,
        Chains::Arbitrum,
        Chains::Polygon,
        Chains::Optimism,
        Chains::BinanceSmartChain,
        Chains::Solana,
        Chains::Sui,
    ]
}

impl Chains {
    /// The machine identifier of this chain.
    pub fn id(&self) -> (r: &'static str)
        ensures
            r@ == spec_chain_id(*self),
    {
        match self {
            Chains::Ethereum => "eth",
            Chains::Base => "base",
            Chains::Arbitrum => "arb-one",
            Chains::Polygon => "poly",
            Chains::Optimism => "op",
            Chains::BinanceSmartChain => "bsc",
            Chains::Solana => "solana",
            Chains::Sui => "sui",
        }
    }

    /// The human-readable name of this chain.
    pub fn name(&self) -> (r: &'static str)
        ensures
            r@ == spec_chain_name(*self),
    {
        match self {
            Chains::Ethereum => "Ethereum",
            Chains::Base => "Base",
            Chains::Arbitrum => "Arbitrum",
            Chains::Polygon => "Polygon",
            Chains::Optimism => "Optimism",
            Chains::BinanceSmartChain => "Binance Smart Chain",
            Chains::Solana => "Solana",
            Chains::Sui => "Sui",
        }
    }

    /// Looks a chain up by its position in the catalog, validating the bound
    /// rather than trusting the selection surface.
    pub fn from_index(index: usize) -> (r: Result<Chains, CliError>)
        ensures
            index < spec_catalog().len() ==> r == Ok::<Chains, CliError>(
                spec_catalog()[index as int],
            ),
            index >= spec_catalog().len() ==> r == Err::<Chains, CliError>(
                CliError::InvalidChainIndex,
            ),
    {
        match index {
            0 => Ok(Chains::Ethereum),
            1 => Ok(Chains::Base),
            2 => Ok(Chains::Arbitrum),
            3 => Ok(Chains::Polygon),
            4 => Ok(Chains::Optimism),
            5 => Ok(Chains::BinanceSmartChain),
            6 => Ok(Chains::Solana),
            7 => Ok(Chains::Sui),
            _ => Err(CliError::InvalidChainIndex),
        }
    }
}

/// The catalog of supported chains, in its fixed order.
pub fn catalog() -> (r: Vec<Chains>)
    ensures
        r@ == spec_catalog(),
{
    let mut v: Vec<Chains> = Vec::new();
    v.push(Chains::Ethereum);
    v.push(Chains::Base);
    v.push(Chains::Arbitrum);
    v.push(Chains::Polygon);
    v.push(Chains::Optimism);
    v.push(Chains::BinanceSmartChain);
    v.push(Chains::Solana);
    v.push(Chains::Sui);
    proof {
        assert(v@ =~= spec_catalog());
    }
    v
}

/// Chain identifiers are unique: two distinct chains never share a machine
/// identifier, so an endpoint URL names its chain unambiguously.
pub proof fn lemma_chain_ids_unique(c1: Chains, c2: Chains)
    requires
        spec_chain_id(c1) == spec_chain_id(c2),
    ensures
        c1 == c2,
{
    reveal_strlit("eth");
    reveal_strlit("base");
    reveal_strlit("arb-one");
    reveal_strlit("poly");
    reveal_strlit("op");
    reveal_strlit("bsc");
    reveal_strlit("solana");
    reveal_strlit("sui");
    // Distinct identifiers always differ in length or in their first
    // character; naming those terms lets the solver compare each pair.
    assert(spec_chain_id(c1).len() == spec_chain_id(c2).len());
    assert(spec_chain_id(c1)[0] == spec_chain_id(c2)[0]);
    assert("eth"@.len() == 3 && "eth"@[0] == 'e');
    assert("base"@.len() == 4 && "base"@[0] == 'b');
    assert("arb-one"@.len() == 7 && "arb-one"@[0] == 'a');
    assert("poly"@.len() == 4 && "poly"@[0] == 'p');
    assert("op"@.len() == 2 && "op"@[0] == 'o');
    assert("bsc"@.len() == 3 && "bsc"@[0] == 'b');
    assert("solana"@.len() == 6 && "solana"@[0] == 's');
    assert("sui"@.len() == 3 && "sui"@[0] == 's');
}

} // verus!
