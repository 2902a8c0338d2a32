//! The registry of well-known chains.
//!
//! The table of chains (names, numbers, fee model, explorer addresses) is the
//! `Chain` enumeration of `ethers_core`. Nothing in this module is proved: each
//! function below makes one call into that enumeration, and its contract is
//! what the library believes of the call.

use crate::text::{decimal_value, lowercase_of};
use ethers_core::types::Chain as NamedChain;
use vstd::prelude::*;

verus! {

/// The registry's enumeration of well-known chains, carried through as an
/// opaque value.
#[verifier::external_type_specification]
#[verifier::external_body]
pub struct ExNamedChain(ethers_core::types::Chain);

/// The number that the registry gives a well-known chain.
pub uninterp spec fn chain_number(chain: NamedChain) -> u64;

/// The well-known chain that the registry holds under a number, if any.
pub uninterp spec fn chain_of_number(number: u64) -> Option<NamedChain>;

/// The registry's display name of a well-known chain.
pub uninterp spec fn chain_name(chain: NamedChain) -> Seq<char>;

/// The well-known chain that the registry finds under a name or an alias, if
/// any. The lookup is exact: it folds no case.
pub uninterp spec fn chain_of_name(name: Seq<char>) -> Option<NamedChain>;

/// Whether the registry marks a well-known chain as using the legacy fee model.
pub uninterp spec fn chain_is_legacy(chain: NamedChain) -> bool;

/// The explorer addresses that the registry holds for a well-known chain, if
/// any, as the pair that the registry gives.
pub uninterp spec fn chain_explorer_urls(chain: NamedChain) -> Option<(Seq<char>, Seq<char>)>;

/// The number of a well-known chain.
///
/// Calls `u64::from` on the enumeration, which returns the variant's
/// discriminant. Believed: the result is the chain's number, and looking that
/// number up gives the chain back (the discriminants are distinct, and the
/// lookup is derived from them).
#[verifier::external_body]
pub(crate) fn number_of(chain: NamedChain) -> (number: u64)
    ensures
        number == chain_number(chain),
        chain_of_number(number) == Some(chain),
{
    u64::from(chain)
}

/// Looks a number up in the registry.
///
/// Calls `TryFrom<u64>` of the enumeration and drops the error. Believed: the
/// result is the registry's chain for the number, and a chain that is found
/// has that number.
#[verifier::external_body]
pub(crate) fn lookup_number(number: u64) -> (found: Option<NamedChain>)
    ensures
        found == chain_of_number(number),
        found matches Some(chain) ==> chain_number(chain) == number,
{
    NamedChain::try_from(number).ok()
}

/// The display name of a well-known chain.
///
/// Calls `to_string` on the enumeration. Believed: the result is the chain's
/// name; the registry finds the chain under that name; and the name is written
/// in lower case, so that folding leaves it as it is.
#[verifier::external_body]
pub(crate) fn name_of(chain: NamedChain) -> (name: String)
    ensures
        name@ == chain_name(chain),
        chain_of_name(name@) == Some(chain),
        lowercase_of(name@) == name@,
{
    chain.to_string()
}

/// Looks a name up in the registry.
///
/// Calls `FromStr` of the enumeration and drops the error. Believed: the
/// result is the registry's chain for the name, and no chain is found under
/// a decimal numeral (every name and alias begins with a letter).
#[verifier::external_body]
pub(crate) fn lookup_name(name: &str) -> (found: Option<NamedChain>)
    ensures
        found == chain_of_name(name@),
        found is Some ==> decimal_value(name@) is None,
{
    name.parse::<NamedChain>().ok()
}

/// Whether a well-known chain uses the legacy fee model.
///
/// Calls `is_legacy` of the enumeration.
#[verifier::external_body]
pub(crate) fn is_legacy_chain(chain: NamedChain) -> (legacy: bool)
    ensures
        legacy == chain_is_legacy(chain),
{
    chain.is_legacy()
}

/// The explorer addresses of a well-known chain.
///
/// Calls `etherscan_urls` of the enumeration and hands the pair on as it is.
#[verifier::external_body]
pub(crate) fn explorer_urls_of(chain: NamedChain) -> (urls: Option<(&'static str, &'static str)>)
    ensures
        match urls {
            Some((first, second)) => chain_explorer_urls(chain) == Some((first@, second@)),
            None => chain_explorer_urls(chain) is None,
        },
{
    chain.etherscan_urls()
}

/// The registry's main network.
///
/// Returns the enumeration's variant `Mainnet`, whose discriminant is 1.
/// Believed: the result is the chain that the registry holds under 1.
#[verifier::external_body]
pub(crate) fn mainnet() -> (chain: NamedChain)
    ensures
        chain_number(chain) == 1,
        chain_of_number(1) == Some(chain),
{
    NamedChain::Mainnet
}

} // verus!
