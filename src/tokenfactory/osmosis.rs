//! The issuer on a token-factory ledger of the Osmosis kind, where the owner of
//! a denomination `factory/<owner>/<subdenom>` mints and burns it.
use vstd::prelude::*;
use vstd::string::StringExecFns;

use crate::instruction::Instruction;
use crate::tokenfactory::{amount_string, decimal_digits, Coin, DenomMetadata};

verus! {

/// Registers the denomination `factory/<sender>/<subdenom>`.
#[derive(Clone, Debug, PartialEq, Eq)]
pub struct MsgCreateDenom {
    pub sender: String,
    pub subdenom: String,
}

/// Publishes the metadata of a denomination that `sender` owns.
#[derive(Clone, Debug, PartialEq, Eq)]
pub struct MsgSetDenomMetadata {
    pub sender: String,
    pub metadata: DenomMetadata,
}

/// Mints an amount of a denomination that `sender` owns.
#[derive(Clone, Debug, PartialEq, Eq)]
pub struct MsgMint {
    pub sender: String,
    pub amount: Option<Coin>,
    pub mint_to_address: String,
}

/// Burns an amount of a denomination that `sender` owns.
#[derive(Clone, Debug, PartialEq, Eq)]
pub struct MsgBurn {
    pub sender: String,
    pub amount: Coin,
    pub burn_from_address: String,
}

/// The issuer of the denomination `factory/<owner>/<subdenom>`.
pub struct TFToken {
    pub owner: String,
    pub subdenom: String,
}

/// `factory/<owner>/<subdenom>`.
pub open spec fn factory_denom(owner: Seq<char>, subdenom: Seq<char>) -> Seq<char> {
    "factory/"@ + owner + "/"@ + subdenom
}

/// `coin` is `amount` of `denom`.
pub open spec fn is_coin(coin: Coin, denom: Seq<char>, amount: u128) -> bool {
    coin.denom@ == denom && coin.amount@ == decimal_digits(amount as nat)
}

/// `msgs` is the one message by which `owner` registers `factory/<owner>/<subdenom>`.
pub open spec fn creates_for(owner: Seq<char>, subdenom: Seq<char>, msgs: Seq<Instruction>) -> bool {
    &&& msgs.len() == 1
    &&& msgs[0] is CreateDenom
    &&& msgs[0]->CreateDenom_0.sender@ == owner
    &&& msgs[0]->CreateDenom_0.subdenom@ == subdenom
}

/// `msgs` is the one message by which `owner` publishes `metadata`.
pub open spec fn sets_metadata_for(owner: Seq<char>, msgs: Seq<Instruction>, metadata: DenomMetadata) -> bool {
    &&& msgs.len() == 1
    &&& msgs[0] is SetDenomMetadata
    &&& msgs[0]->SetDenomMetadata_0.sender@ == owner
    &&& msgs[0]->SetDenomMetadata_0.metadata == metadata
}

/// `msgs` is the one message by which `owner` mints `amount` of
/// `factory/<owner>/<subdenom>` to `recipient`.
pub open spec fn mints_for(
    owner: Seq<char>,
    subdenom: Seq<char>,
    msgs: Seq<Instruction>,
    amount: u128,
    recipient: Seq<char>,
) -> bool {
    &&& msgs.len() == 1
    &&& msgs[0] is Mint
    &&& msgs[0]->Mint_0.sender@ == owner
    &&& msgs[0]->Mint_0.amount is Some
    &&& is_coin(msgs[0]->Mint_0.amount->Some_0, factory_denom(owner, subdenom), amount)
    &&& msgs[0]->Mint_0.mint_to_address@ == recipient
}

/// `msgs` is the one message by which `owner` burns `amount` of
/// `factory/<owner>/<subdenom>` held by `holder`.
pub open spec fn burns_for(
    owner: Seq<char>,
    subdenom: Seq<char>,
    msgs: Seq<Instruction>,
    amount: u128,
    holder: Seq<char>,
) -> bool {
    &&& msgs.len() == 1
    &&& msgs[0] is Burn
    &&& msgs[0]->Burn_0.sender@ == owner
    &&& is_coin(msgs[0]->Burn_0.amount, factory_denom(owner, subdenom), amount)
    &&& msgs[0]->Burn_0.burn_from_address@ == holder
}

impl TFToken {
    pub fn new(owner: String, subdenom: String) -> (r: Self)
        ensures
            r.owner == owner,
            r.subdenom == subdenom,
    {
        TFToken { owner, subdenom }
    }

    fn coin(&self, amount: u128) -> (r: Coin)
        ensures
            is_coin(r, factory_denom(self.owner@, self.subdenom@), amount),
    {
        Coin { denom: super::TFToken::denom(self), amount: amount_string(amount) }
    }
}

impl super::TFToken for TFToken {
    open spec fn spec_owner(&self) -> Seq<char> {
        self.owner@
    }

    open spec fn spec_subdenom(&self) -> Seq<char> {
        self.subdenom@
    }

    open spec fn spec_denom(&self) -> Seq<char> {
        factory_denom(self.owner@, self.subdenom@)
    }

    open spec fn creates(&self, msgs: Seq<Instruction>) -> bool {
        creates_for(self.owner@, self.subdenom@, msgs)
    }

    open spec fn sets_metadata(&self, msgs: Seq<Instruction>, metadata: DenomMetadata) -> bool {
        sets_metadata_for(self.owner@, msgs, metadata)
    }

    open spec fn mints(&self, msgs: Seq<Instruction>, amount: u128, recipient: Seq<char>) -> bool {
        mints_for(self.owner@, self.subdenom@, msgs, amount, recipient)
    }

    open spec fn burns(&self, msgs: Seq<Instruction>, amount: u128, holder: Seq<char>) -> bool {
        burns_for(self.owner@, self.subdenom@, msgs, amount, holder)
    }

    fn owner(&self) -> (r: String) {
        self.owner.clone()
    }

    fn subdenom(&self) -> (r: String) {
        self.subdenom.clone()
    }

    fn denom(&self) -> (r: String) {
        let mut d = String::from_str("factory/");
        d.append(self.owner.as_str());
        d.append("/");
        d.append(self.subdenom.as_str());
        d
    }

    fn create(&self) -> (r: Vec<Instruction>) {
        let msg = MsgCreateDenom { sender: self.owner.clone(), subdenom: self.subdenom.clone() };
        vec![Instruction::CreateDenom(msg)]
    }

    fn set_metadata(&self, metadata: DenomMetadata) -> (r: Vec<Instruction>) {
        let msg = MsgSetDenomMetadata { sender: self.owner.clone(), metadata };
        vec![Instruction::SetDenomMetadata(msg)]
    }

    fn mint(&self, amount: u128, recipient: String) -> (r: Vec<Instruction>) {
        let msg = MsgMint {
            sender: self.owner.clone(),
            amount: Some(self.coin(amount)),
            mint_to_address: recipient,
        };
        vec![Instruction::Mint(msg)]
    }

    fn burn(&self, amount: u128, holder: String) -> (r: Vec<Instruction>) {
        let msg = MsgBurn {
            sender: self.owner.clone(),
            amount: self.coin(amount),
            burn_from_address: holder,
        };
        vec![Instruction::Burn(msg)]
    }
}

} // verus!
