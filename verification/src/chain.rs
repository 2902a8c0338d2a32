//! The chain identifier and its conversions.

use crate::registry::{
    chain_explorer_urls, chain_is_legacy, chain_name, chain_number, chain_of_name,
    chain_of_number, explorer_urls_of, is_legacy_chain, lookup_name, lookup_number, mainnet,
    name_of, number_of,
};
use crate::text::{
    decimal_digits, decimal_string, decimal_value, lemma_decimal_round_trip, lowercase_of,
    parse_decimal, to_lowercase,
};
use crate::wide::{as_uint64, low_bits, two_to_64, u256_value, uint64_value, widen};
use alloy_primitives::{U256, U64};
use ethers_core::types::Chain as NamedChain;
use vstd::prelude::*;
use vstd::std_specs::cmp::PartialEqSpecImpl;
use vstd::std_specs::convert::{FromSpecImpl, TryFromSpecImpl};

verus! {

/// Either a well-known chain of the registry or the number of a chain.
///
/// A value is in canonical form when it does not hold, as a bare number, a
/// number that the registry knows: see [`ChainId::is_canonical`]. Every
/// conversion of this module returns canonical values; a value built by hand
/// from the variant `Id` may not be, and every method accepts it all the same.
#[derive(Clone, Copy, Debug, Eq, Hash)]
pub enum ChainId {
    /// A well-known chain.
    Named(NamedChain),
    /// The number of a chain.
    Id(u64),
}

/// Why a conversion failed.
#[derive(Clone, Debug, PartialEq, Eq)]
pub enum ChainError {
    /// The registry holds no well-known chain under this number.
    UnsupportedChain(u64),
    /// The text names no well-known chain and, where a number is accepted in
    /// its place, is no decimal numeral either.
    InvalidChainIdentifier(String),
}

/// A [`ChainError`] with its text as a sequence of characters.
pub enum ChainErrorView {
    UnsupportedChain(u64),
    InvalidChainIdentifier(Seq<char>),
}

impl View for ChainError {
    type V = ChainErrorView;

    open spec fn view(&self) -> ChainErrorView {
        match self {
            ChainError::UnsupportedChain(number) => ChainErrorView::UnsupportedChain(*number),
            ChainError::InvalidChainIdentifier(text) => ChainErrorView::InvalidChainIdentifier(
                text@,
            ),
        }
    }
}

/// The serialized form of a chain identifier: one scalar, a text or a number.
#[derive(Clone, Debug, PartialEq, Eq)]
pub enum Scalar {
    /// A text: the name of a well-known chain.
    Text(String),
    /// A number: the number of a chain.
    Number(u64),
}

/// A [`Scalar`] with its text as a sequence of characters.
pub enum ScalarView {
    Text(Seq<char>),
    Number(u64),
}

impl View for Scalar {
    type V = ScalarView;

    open spec fn view(&self) -> ScalarView {
        match self {
            Scalar::Text(text) => ScalarView::Text(text@),
            Scalar::Number(number) => ScalarView::Number(*number),
        }
    }
}

impl ChainId {
    /// The number of the chain: the registry's number of a well-known chain,
    /// the number itself otherwise.
    pub open spec fn spec_id(self) -> u64 {
        match self {
            ChainId::Named(chain) => chain_number(chain),
            ChainId::Id(number) => number,
        }
    }

    /// The well-known chain that the value stands for, if any: the chain it
    /// holds, or the one that the registry holds under its number.
    pub open spec fn spec_named(self) -> Option<NamedChain> {
        match self {
            ChainId::Named(chain) => Some(chain),
            ChainId::Id(number) => chain_of_number(number),
        }
    }

    /// Canonical form: a bare number is one that the registry does not know.
    pub open spec fn is_canonical(self) -> bool {
        match self {
            ChainId::Named(_) => true,
            ChainId::Id(number) => chain_of_number(number) is None,
        }
    }

    /// The canonical value for a number: the well-known chain that the
    /// registry holds under it, or else the bare number.
    pub open spec fn spec_from_number(number: u64) -> ChainId {
        match chain_of_number(number) {
            Some(chain) => ChainId::Named(chain),
            None => ChainId::Id(number),
        }
    }

    /// The canonical value for the low 64 bits of a wide integer.
    pub open spec fn spec_from_u256(wide: U256) -> ChainId {
        ChainId::spec_from_number((u256_value(wide) % two_to_64()) as u64)
    }

    /// The text of the chain: the registry's name of the well-known chain
    /// that the value stands for, or else the decimal numeral of its number.
    pub open spec fn spec_text(self) -> Seq<char> {
        match self.spec_named() {
            Some(chain) => chain_name(chain),
            None => decimal_digits(self.spec_id() as nat),
        }
    }

    /// The chain that a text denotes: the well-known chain that the registry
    /// finds under the text folded to lower case; failing that, the canonical
    /// value for the number that the text is the decimal numeral of.
    pub open spec fn spec_parse(text: Seq<char>) -> Option<ChainId> {
        match chain_of_name(lowercase_of(text)) {
            Some(chain) => Some(ChainId::Named(chain)),
            None => match decimal_value(text) {
                Some(number) => Some(ChainId::spec_from_number(number)),
                None => None,
            },
        }
    }

    /// The serialized form of the chain: the name of a well-known chain in
    /// lower case, a bare number as it is.
    pub open spec fn spec_encode(self) -> ScalarView {
        match self {
            ChainId::Named(chain) => ScalarView::Text(lowercase_of(chain_name(chain))),
            ChainId::Id(number) => ScalarView::Number(number),
        }
    }

    /// The chain that a serialized form stands for: for a text, the
    /// well-known chain that the registry finds under it folded to lower
    /// case; for a number, the canonical value for it.
    pub open spec fn spec_decode(scalar: ScalarView) -> Option<ChainId> {
        match scalar {
            ScalarView::Text(text) => match chain_of_name(lowercase_of(text)) {
                Some(chain) => Some(ChainId::Named(chain)),
                None => None,
            },
            ScalarView::Number(number) => Some(ChainId::spec_from_number(number)),
        }
    }

    /// The number of the chain. The canonical value for the number of a
    /// canonical value is that value.
    pub fn id(&self) -> (number: u64)
        ensures
            number == self.spec_id(),
            self.is_canonical() ==> ChainId::spec_from_number(number) == *self,
    {
        match self {
            ChainId::Named(chain) => number_of(*chain),
            ChainId::Id(number) => *number,
        }
    }

    /// The well-known chain that the value stands for: the chain it holds, or
    /// the one that the registry holds under its number. Fails with
    /// `UnsupportedChain` exactly when there is none.
    pub fn named(&self) -> (result: Result<NamedChain, ChainError>)
        ensures
            match result {
                Ok(chain) => self.spec_named() == Some(chain),
                Err(error) => self.spec_named() is None && error@
                    == ChainErrorView::UnsupportedChain(self.spec_id()),
            },
    {
        match self {
            ChainId::Named(chain) => Ok(*chain),
            ChainId::Id(number) => match lookup_number(*number) {
                Some(chain) => Ok(chain),
                None => Err(ChainError::UnsupportedChain(*number)),
            },
        }
    }

    /// Whether the chain uses the legacy fee model. A chain that the registry
    /// does not know is taken not to.
    pub fn is_legacy(&self) -> (legacy: bool)
        ensures
            legacy == match self.spec_named() {
                Some(chain) => chain_is_legacy(chain),
                None => false,
            },
    {
        match self.named() {
            Ok(chain) => is_legacy_chain(chain),
            Err(_) => false,
        }
    }

    /// The explorer addresses of the chain, as the pair that the registry
    /// gives. `None` for a chain that the registry does not know, or knows
    /// without such addresses.
    pub fn etherscan_urls(&self) -> (urls: Option<(&'static str, &'static str)>)
        ensures
            match urls {
                Some((first, second)) => self.spec_named() matches Some(chain)
                    && chain_explorer_urls(chain) == Some((first@, second@)),
                None => match self.spec_named() {
                    Some(chain) => chain_explorer_urls(chain) is None,
                    None => true,
                },
            },
    {
        match self.named() {
            Ok(chain) => explorer_urls_of(chain),
            Err(_) => None,
        }
    }
}

impl ChainId {
    /// Writes the chain as text: the name of the well-known chain that the
    /// value stands for, or else the decimal numeral of its number. A bare
    /// number that the registry knows is written by its name all the same.
    ///
    /// The text of a well-known chain reads back as that chain, and the text
    /// of any other canonical value is the numeral of its number: see
    /// [`ChainId::parse`] for how a numeral is read.
    pub fn to_string(&self) -> (text: String)
        ensures
            text@ == self.spec_text(),
            *self is Named ==> ChainId::spec_parse(text@) == Some(*self),
            *self is Id && self.is_canonical() ==> decimal_value(text@) == Some(self.spec_id()),
    {
        match self {
            ChainId::Named(chain) => name_of(*chain),
            ChainId::Id(number) => match lookup_number(*number) {
                Some(chain) => name_of(chain),
                None => decimal_string(*number),
            },
        }
    }

    /// Reads a chain from text. The text is folded to lower case and looked
    /// up in the registry as a name; where no chain is found, the text as it
    /// stands is read as a decimal numeral (an optional plus sign, then
    /// digits) and the number goes the way of every number. Fails with
    /// `InvalidChainIdentifier`, holding the text, exactly when the text is
    /// neither.
    ///
    /// A decimal numeral is always read as its number, and so the text that
    /// [`ChainId::to_string`] writes for a canonical bare number reads back
    /// as that value.
    pub fn parse(text: &str) -> (result: Result<ChainId, ChainError>)
        ensures
            match result {
                Ok(chain) => ChainId::spec_parse(text@) == Some(chain),
                Err(error) => ChainId::spec_parse(text@) is None && error@
                    == ChainErrorView::InvalidChainIdentifier(text@),
            },
            result matches Ok(chain) ==> chain.is_canonical(),
            decimal_value(text@) matches Some(number) ==> result == Ok::<ChainId, ChainError>(
                ChainId::spec_from_number(number),
            ),
            forall|chain: ChainId|
                chain is Id && chain.is_canonical() && text@ == #[trigger] chain.spec_text()
                    ==> result == Ok::<ChainId, ChainError>(chain),
    {
        proof {
            assert forall|chain: ChainId|
                chain is Id && chain.is_canonical() && text@
                    == #[trigger] chain.spec_text() implies decimal_value(text@) == Some(
                chain.spec_id(),
            ) && ChainId::spec_from_number(chain.spec_id()) == chain by {
                lemma_decimal_round_trip(chain.spec_id());
            }
        }
        let folded = to_lowercase(text);
        match lookup_name(folded.as_str()) {
            Some(chain) => Ok(ChainId::Named(chain)),
            None => match parse_decimal(text) {
                Some(number) => Ok(ChainId::from(number)),
                None => Err(ChainError::InvalidChainIdentifier(text.to_owned())),
            },
        }
    }

    /// The serialized form of the chain: the name of a well-known chain in
    /// lower case, a bare number as it is.
    ///
    /// Decoding the serialized form of a canonical value gives the value
    /// back.
    pub fn encode(&self) -> (scalar: Scalar)
        ensures
            scalar@ == self.spec_encode(),
            self.is_canonical() ==> ChainId::spec_decode(scalar@) == Some(*self),
    {
        match self {
            ChainId::Named(chain) => {
                let name = name_of(*chain);
                Scalar::Text(to_lowercase(name.as_str()))
            },
            ChainId::Id(number) => Scalar::Number(*number),
        }
    }

    /// Reads a chain from its serialized form. A text is folded to lower
    /// case and looked up in the registry as a name; a number goes the way
    /// of every number. Fails with `InvalidChainIdentifier`, holding the
    /// text, exactly when the scalar is a text under which the registry finds
    /// no chain: a numeral written as text is not accepted.
    pub fn decode(scalar: Scalar) -> (result: Result<ChainId, ChainError>)
        ensures
            match result {
                Ok(chain) => ChainId::spec_decode(scalar@) == Some(chain) && chain.is_canonical(),
                Err(error) => ChainId::spec_decode(scalar@) is None && match scalar@ {
                    ScalarView::Text(text) => error@ == ChainErrorView::InvalidChainIdentifier(
                        text,
                    ),
                    ScalarView::Number(_) => false,
                },
            },
    {
        match scalar {
            Scalar::Text(text) => {
                let folded = to_lowercase(text.as_str());
                match lookup_name(folded.as_str()) {
                    Some(chain) => Ok(ChainId::Named(chain)),
                    None => Err(ChainError::InvalidChainIdentifier(text)),
                }
            },
            Scalar::Number(number) => Ok(ChainId::from(number)),
        }
    }
}

impl PartialEq for ChainId {
    /// Two values are equal when they are the same variant holding the same
    /// chain or the same number. Two well-known chains are told apart by
    /// their numbers, which the registry keeps distinct.
    fn eq(&self, other: &ChainId) -> (equal: bool) {
        match (self, other) {
            (ChainId::Named(left), ChainId::Named(right)) => number_of(*left) == number_of(*right),
            (ChainId::Id(left), ChainId::Id(right)) => *left == *right,
            _ => false,
        }
    }
}

impl PartialEqSpecImpl for ChainId {
    open spec fn obeys_eq_spec() -> bool {
        true
    }

    open spec fn eq_spec(&self, other: &ChainId) -> bool {
        *self == *other
    }
}

impl From<NamedChain> for ChainId {
    /// The value for a well-known chain.
    fn from(chain: NamedChain) -> (result: ChainId) {
        ChainId::Named(chain)
    }
}

impl FromSpecImpl<NamedChain> for ChainId {
    open spec fn obeys_from_spec() -> bool {
        true
    }

    open spec fn from_spec(chain: NamedChain) -> ChainId {
        ChainId::Named(chain)
    }
}

impl From<u64> for ChainId {
    /// The canonical value for a number: the well-known chain where the
    /// registry knows the number, never the bare number then. Every
    /// conversion from a number goes through here.
    fn from(number: u64) -> (result: ChainId)
        ensures
            match chain_of_number(number) {
                Some(named) => result == ChainId::Named(named),
                None => result == ChainId::Id(number),
            },
            result.is_canonical(),
            result.spec_id() == number,
    {
        match lookup_number(number) {
            Some(chain) => ChainId::Named(chain),
            None => ChainId::Id(number),
        }
    }
}

impl FromSpecImpl<u64> for ChainId {
    open spec fn obeys_from_spec() -> bool {
        true
    }

    open spec fn from_spec(number: u64) -> ChainId {
        ChainId::spec_from_number(number)
    }
}

impl From<ChainId> for u64 {
    /// The number of a chain.
    fn from(chain: ChainId) -> (number: u64) {
        chain.id()
    }
}

impl FromSpecImpl<ChainId> for u64 {
    open spec fn obeys_from_spec() -> bool {
        true
    }

    open spec fn from_spec(chain: ChainId) -> u64 {
        chain.spec_id()
    }
}

impl From<U256> for ChainId {
    /// The canonical value for the low 64 bits of a wide integer: what lies
    /// above them is dropped.
    fn from(wide: U256) -> (result: ChainId)
        ensures
            result.is_canonical(),
            result.spec_id() == u256_value(wide) % two_to_64(),
    {
        ChainId::from(low_bits(wide))
    }
}

impl FromSpecImpl<U256> for ChainId {
    open spec fn obeys_from_spec() -> bool {
        true
    }

    open spec fn from_spec(wide: U256) -> ChainId {
        ChainId::spec_from_u256(wide)
    }
}

impl ChainId {
    /// The number of the chain as a wide integer. Converting it back gives
    /// the canonical value for the chain's number: the chain itself, where it
    /// is canonical.
    pub fn to_u256(&self) -> (wide: U256)
        ensures
            u256_value(wide) == self.spec_id(),
            ChainId::spec_from_u256(wide) == ChainId::spec_from_number(self.spec_id()),
            self.is_canonical() ==> ChainId::spec_from_u256(wide) == *self,
    {
        widen(self.id())
    }

    /// The number of the chain as a 64-bit integer of the arithmetic
    /// library.
    pub fn to_uint64(&self) -> (word: U64)
        ensures
            uint64_value(word) == self.spec_id(),
    {
        as_uint64(self.id())
    }
}

impl TryFrom<ChainId> for NamedChain {
    type Error = ChainError;

    /// The well-known chain that a value stands for: see [`ChainId::named`].
    fn try_from(chain: ChainId) -> (result: Result<NamedChain, ChainError>)
        ensures
            match result {
                Ok(named) => chain.spec_named() == Some(named),
                Err(error) => chain.spec_named() is None && error@
                    == ChainErrorView::UnsupportedChain(chain.spec_id()),
            },
    {
        chain.named()
    }
}

impl TryFromSpecImpl<ChainId> for NamedChain {
    open spec fn obeys_try_from_spec() -> bool {
        true
    }

    open spec fn try_from_spec(chain: ChainId) -> Result<NamedChain, ChainError> {
        match chain.spec_named() {
            Some(named) => Ok(named),
            None => Err(ChainError::UnsupportedChain(chain.spec_id())),
        }
    }
}

impl std::str::FromStr for ChainId {
    type Err = ChainError;

    /// Reads a chain from text: see [`ChainId::parse`].
    fn from_str(text: &str) -> (result: Result<ChainId, ChainError>)
        ensures
            match result {
                Ok(chain) => ChainId::spec_parse(text@) == Some(chain) && chain.is_canonical(),
                Err(error) => ChainId::spec_parse(text@) is None && error@
                    == ChainErrorView::InvalidChainIdentifier(text@),
            },
    {
        ChainId::parse(text)
    }
}

impl Default for ChainId {
    /// The registry's main network.
    fn default() -> (result: ChainId)
        ensures
            result == ChainId::spec_from_number(1),
            result is Named,
            result.spec_id() == 1,
    {
        ChainId::Named(mainnet())
    }
}

} // verus!
