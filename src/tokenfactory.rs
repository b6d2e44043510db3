//! The basket token's issuer: the records it publishes and the interface
//! through which the engine asks it to create, describe, mint and burn.
use vstd::prelude::*;

use crate::instruction::Instruction;

pub mod osmosis;

verus! {

/// An amount of a denomination, the amount written out in decimal.
#[derive(Clone, Debug, PartialEq, Eq)]
pub struct Coin {
    pub denom: String,
    pub amount: String,
}

/// The published metadata of a denomination.
#[derive(Clone, Debug, PartialEq, Eq)]
pub struct DenomMetadata {
    pub description: String,
    pub denom_units: Vec<DenomUnit>,
    pub base: String,
    pub display: String,
    pub name: String,
    pub symbol: String,
    pub uri: String,
    pub uri_hash: String,
}

/// One unit of a denomination: `1 denom = 10^exponent base units`.
#[derive(Clone, Debug, PartialEq, Eq)]
pub struct DenomUnit {
    pub denom: String,
    pub exponent: u32,
    pub aliases: Vec<String>,
}

/// The character of a decimal digit.
pub open spec fn digit_char(d: nat) -> char {
    if d == 0 { '0' }
    else if d == 1 { '1' }
    else if d == 2 { '2' }
    else if d == 3 { '3' }
    else if d == 4 { '4' }
    else if d == 5 { '5' }
    else if d == 6 { '6' }
    else if d == 7 { '7' }
    else if d == 8 { '8' }
    else { '9' }
}

/// The decimal writing of `n`, without sign or leading zeros.
pub open spec fn decimal_digits(n: nat) -> Seq<char>
    decreases n,
{
    if n < 10 {
        seq![digit_char(n)]
    } else {
        decimal_digits(n / 10).push(digit_char(n % 10))
    }
}

/// Relies on the Display of cosmwasm_std::Uint128: the amount in decimal.
#[verifier::external_body]
pub(crate) fn amount_string(amount: u128) -> (r: String)
    ensures
        r@ == decimal_digits(amount as nat),
{
    cosmwasm_std::Uint128::new(amount).to_string()
}

/// The issuer of the basket token on one underlying ledger.
pub trait TFToken {
    /// The owner of the token, usually the engine's own address.
    spec fn spec_owner(&self) -> Seq<char>;

    /// The subdenomination chosen by the owner.
    spec fn spec_subdenom(&self) -> Seq<char>;

    /// The full denomination of the token.
    spec fn spec_denom(&self) -> Seq<char>;

    /// `msgs` registers the denomination.
    spec fn creates(&self, msgs: Seq<Instruction>) -> bool;

    /// `msgs` publishes `metadata` for the denomination.
    spec fn sets_metadata(&self, msgs: Seq<Instruction>, metadata: DenomMetadata) -> bool;

    /// `msgs` mints `amount` of the token to `recipient`.
    spec fn mints(&self, msgs: Seq<Instruction>, amount: u128, recipient: Seq<char>) -> bool;

    /// `msgs` burns `amount` of the token held by `holder`.
    spec fn burns(&self, msgs: Seq<Instruction>, amount: u128, holder: Seq<char>) -> bool;

    /// Address of the owner of the token.
    fn owner(&self) -> (r: String)
        ensures
            r@ == self.spec_owner(),
    ;

    /// Subdenomination of the token.
    fn subdenom(&self) -> (r: String)
        ensures
            r@ == self.spec_subdenom(),
    ;

    /// Full denomination of the token, from its owner and subdenomination.
    fn denom(&self) -> (r: String)
        ensures
            r@ == self.spec_denom(),
    ;

    /// Registers the token's denomination on the ledger.
    fn create(&self) -> (r: Vec<Instruction>)
        ensures
            self.creates(r@),
    ;

    /// Publishes the token's metadata.
    fn set_metadata(&self, metadata: DenomMetadata) -> (r: Vec<Instruction>)
        ensures
            self.sets_metadata(r@, metadata),
    ;

    /// Mints `amount` of the token to `recipient`.
    fn mint(&self, amount: u128, recipient: String) -> (r: Vec<Instruction>)
        ensures
            self.mints(r@, amount, recipient@),
    ;

    /// Burns `amount` of the token held by `holder`.
    fn burn(&self, amount: u128, holder: String) -> (r: Vec<Instruction>)
        ensures
            self.burns(r@, amount, holder@),
    ;
}

} // verus!
