use vstd::prelude::*;
use crate::calls::{
    coins_view, Coin, CoinView, CosmosMsg, CosmosMsgView, Payload, PayloadView, SubMsg,
    SubMsgView,
};
use crate::error::{ContractError, ErrorKind};

verus! {

/// An asset: native to the ledger, or issued by a contract.
#[derive(Debug, PartialEq, Eq)]
pub enum Token {
    /// A native asset, by its denomination.
    Denom(String),
    /// A contract-issued asset, by the address of its contract.
    Address(String),
}

pub enum TokenView {
    Denom(Seq<char>),
    Address(Seq<char>),
}

impl View for Token {
    type V = TokenView;

    open spec fn view(&self) -> TokenView {
        match self {
            Token::Denom(d) => TokenView::Denom(d@),
            Token::Address(a) => TokenView::Address(a@),
        }
    }
}

impl Clone for Token {
    fn clone(&self) -> (r: Self)
        ensures
            r == *self,
    {
        match self {
            Token::Denom(d) => Token::Denom(d.clone()),
            Token::Address(a) => Token::Address(a.clone()),
        }
    }
}

/// The denomination of a token: that of a native asset. A contract-issued
/// asset has none.
pub open spec fn spec_get_denom(token: TokenView) -> Result<Seq<char>, ErrorKind> {
    match token {
        TokenView::Denom(d) => Ok(d),
        TokenView::Address(_) => Err(ErrorKind::UnsupportedToken),
    }
}

/// The call that moves `amount` of a token to `recipient`: a bank transfer of
/// a native asset, or a transfer executed on the issuing contract.
pub open spec fn spec_transfer(token: TokenView, recipient: Seq<char>, amount: u128) -> SubMsgView {
    match token {
        TokenView::Denom(d) => SubMsgView {
            reply_id: None,
            msg: CosmosMsgView::BankSend {
                to_address: recipient,
                amount: seq![CoinView { denom: d, amount }],
            },
        },
        TokenView::Address(a) => SubMsgView {
            reply_id: None,
            msg: CosmosMsgView::WasmExecute {
                contract_addr: a,
                msg: PayloadView::Cw20Transfer { recipient, amount },
                funds: Seq::empty(),
            },
        },
    }
}

impl Token {
    /// The denomination of a native token. A contract-issued token has none.
    pub fn get_denom(&self) -> (r: Result<String, ContractError>)
        ensures
            match r {
                Ok(s) => spec_get_denom(self@) == Ok::<Seq<char>, ErrorKind>(s@),
                Err(e) => spec_get_denom(self@) == Err::<Seq<char>, ErrorKind>(e.kind()) && e
                    == ContractError::UnsupportedToken,
            },
    {
        match self {
            Token::Denom(d) => Ok(d.clone()),
            Token::Address(_) => Err(ContractError::UnsupportedToken),
        }
    }

    /// Describes the transfer of `amount` of this token to `recipient`.
    /// Nothing is emitted: the caller hands the description on.
    pub fn transfer(&self, recipient: &str, amount: u128) -> (r: Result<SubMsg, ContractError>)
        ensures
            r matches Ok(m) && m@ == spec_transfer(self@, recipient@, amount),
    {
        match self {
            Token::Denom(d) => {
                let coins = vec![Coin { denom: d.clone(), amount }];
                proof {
                    assert(coins_view(coins@) =~= seq![
                        CoinView { denom: d@, amount },
                    ]);
                }
                Ok(SubMsg {
                    reply_id: None,
                    msg: CosmosMsg::BankSend { to_address: recipient.to_owned(), amount: coins },
                })
            },
            Token::Address(a) => {
                let funds: Vec<Coin> = Vec::new();
                proof {
                    assert(coins_view(funds@) =~= Seq::<CoinView>::empty());
                }
                Ok(SubMsg {
                    reply_id: None,
                    msg: CosmosMsg::WasmExecute {
                        contract_addr: a.clone(),
                        msg: Payload::Cw20Transfer { recipient: recipient.to_owned(), amount },
                        funds,
                    },
                })
            },
        }
    }
}

/// The transfer of a token that has a denomination is a bank transfer of one
/// coin of that denomination; a contract-issued token has no denomination.
pub proof fn lemma_transfer_by_denomination(token: TokenView, recipient: Seq<char>, amount: u128)
    ensures
        match spec_get_denom(token) {
            Ok(d) => spec_transfer(token, recipient, amount).msg == (CosmosMsgView::BankSend {
                to_address: recipient,
                amount: seq![CoinView { denom: d, amount }],
            }),
            Err(e) => e == ErrorKind::UnsupportedToken && token is Address,
        },
        token is Address ==> spec_get_denom(token) is Err,
{
}

/// An amount of one token.
#[derive(Debug, PartialEq, Eq)]
pub struct TokenAmount {
    pub token: Token,
    pub amount: u128,
}

pub struct TokenAmountView {
    pub token: TokenView,
    pub amount: u128,
}

impl View for TokenAmount {
    type V = TokenAmountView;

    open spec fn view(&self) -> TokenAmountView {
        TokenAmountView { token: self.token@, amount: self.amount }
    }
}

impl Clone for TokenAmount {
    fn clone(&self) -> (r: Self)
        ensures
            r == *self,
    {
        TokenAmount { token: self.token.clone(), amount: self.amount }
    }
}

} // verus!
