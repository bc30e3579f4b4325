use vstd::prelude::*;
use crate::error::{ContractError, ErrorKind};
use crate::integrations::astroport::{
    assets_view, infos_view, Asset, AssetInfo, AssetInfoView, AssetView, PairType, PairTypeView,
};
use crate::integrations::dojoswap::{
    dojo_assets_view, dojo_infos_view, DojoswapFactoryExecuteMsg, DojoswapFactoryQueryMsg,
    DojoswapPairExecuteMsg,
};
use crate::state::storage::text_view;

verus! {

/// An amount of a native asset attached to a call.
#[derive(Debug, PartialEq, Eq)]
pub struct Coin {
    pub denom: String,
    pub amount: u128,
}

pub struct CoinView {
    pub denom: Seq<char>,
    pub amount: u128,
}

impl View for Coin {
    type V = CoinView;

    open spec fn view(&self) -> CoinView {
        CoinView { denom: self.denom@, amount: self.amount }
    }
}

pub open spec fn coins_view(s: Seq<Coin>) -> Seq<CoinView> {
    s.map_values(|c: Coin| c@)
}

/// Builds a coin.
pub fn coin(amount: u128, denom: String) -> (c: Coin)
    ensures
        c@ == (CoinView { denom: denom@, amount }),
{
    Coin { denom, amount }
}

/// The bytes of optional parameters, if any.
pub open spec fn bytes_view(b: Option<Vec<u8>>) -> Option<Seq<u8>> {
    match b {
        Some(v) => Some(v@),
        None => None,
    }
}

/// The structured message that a contract call carries.
#[derive(Debug, PartialEq, Eq)]
pub enum Payload {
    /// Asks the Astroport factory for a pair of the given type over two
    /// assets, with the encoded parameters that a custom type may need.
    AstroportCreatePair {
        pair_type: PairType,
        asset_infos: Vec<AssetInfo>,
        init_params: Option<Vec<u8>>,
    },
    /// Asks an Astroport pair to take liquidity. The slippage tolerance is
    /// in units of 10^-18.
    AstroportProvideLiquidity {
        assets: Vec<Asset>,
        slippage_tolerance: Option<u128>,
        auto_stake: Option<bool>,
        receiver: Option<String>,
        min_lp_to_receive: Option<u128>,
    },
    /// A message to the Dojoswap factory.
    DojoswapFactory(DojoswapFactoryExecuteMsg),
    /// A message to a Dojoswap pair.
    DojoswapPair(DojoswapPairExecuteMsg),
    /// Asks a token contract to move `amount` to `recipient`.
    Cw20Transfer { recipient: String, amount: u128 },
}

/// A request to take liquidity: the assets, who receives the liquidity
/// tokens, whether they are staked at once, and the bounds on slippage and on
/// the tokens received, where there are any.
pub struct LiquidityView {
    pub assets: Seq<AssetView>,
    pub slippage_tolerance: Option<u128>,
    pub auto_stake: Option<bool>,
    pub receiver: Option<Seq<char>>,
    pub min_lp_to_receive: Option<u128>,
}

pub enum PayloadView {
    AstroportCreatePair {
        pair_type: PairTypeView,
        asset_infos: Seq<AssetInfoView>,
        init_params: Option<Seq<u8>>,
    },
    AstroportProvideLiquidity(LiquidityView),
    DojoswapCreatePair { assets: Seq<AssetView> },
    DojoswapProvideLiquidity(LiquidityView),
    Cw20Transfer { recipient: Seq<char>, amount: u128 },
}

impl View for Payload {
    type V = PayloadView;

    open spec fn view(&self) -> PayloadView {
        match self {
            Payload::AstroportCreatePair { pair_type, asset_infos, init_params } =>
                PayloadView::AstroportCreatePair {
                    pair_type: pair_type@,
                    asset_infos: infos_view(asset_infos@),
                    init_params: bytes_view(*init_params),
                },
            Payload::AstroportProvideLiquidity {
                assets,
                slippage_tolerance,
                auto_stake,
                receiver,
                min_lp_to_receive,
            } => PayloadView::AstroportProvideLiquidity(
                LiquidityView {
                    assets: assets_view(assets@),
                    slippage_tolerance: *slippage_tolerance,
                    auto_stake: *auto_stake,
                    receiver: text_view(*receiver),
                    min_lp_to_receive: *min_lp_to_receive,
                },
            ),
            Payload::DojoswapFactory(DojoswapFactoryExecuteMsg::CreatePair { assets }) =>
                PayloadView::DojoswapCreatePair { assets: dojo_assets_view(assets@) },
            Payload::DojoswapPair(
                DojoswapPairExecuteMsg::ProvideLiquidity {
                    assets,
                    slippage_tolerance,
                    auto_stake,
                    receiver,
                    min_lp_to_receive,
                },
            ) => PayloadView::DojoswapProvideLiquidity(
                LiquidityView {
                    assets: dojo_assets_view(assets@),
                    slippage_tolerance: *slippage_tolerance,
                    auto_stake: *auto_stake,
                    receiver: text_view(*receiver),
                    min_lp_to_receive: *min_lp_to_receive,
                },
            ),
            Payload::Cw20Transfer { recipient, amount } => PayloadView::Cw20Transfer {
                recipient: recipient@,
                amount: *amount,
            },
        }
    }
}

/// One external call.
#[derive(Debug, PartialEq, Eq)]
pub enum CosmosMsg {
    /// Moves native assets to an address.
    BankSend { to_address: String, amount: Vec<Coin> },
    /// Executes a message on a contract, with funds attached.
    WasmExecute { contract_addr: String, msg: Payload, funds: Vec<Coin> },
}

pub enum CosmosMsgView {
    BankSend { to_address: Seq<char>, amount: Seq<CoinView> },
    WasmExecute { contract_addr: Seq<char>, msg: PayloadView, funds: Seq<CoinView> },
}

impl View for CosmosMsg {
    type V = CosmosMsgView;

    open spec fn view(&self) -> CosmosMsgView {
        match self {
            CosmosMsg::BankSend { to_address, amount } => CosmosMsgView::BankSend {
                to_address: to_address@,
                amount: coins_view(amount@),
            },
            CosmosMsg::WasmExecute { contract_addr, msg, funds } => CosmosMsgView::WasmExecute {
                contract_addr: contract_addr@,
                msg: msg@,
                funds: coins_view(funds@),
            },
        }
    }
}

/// An external call, tagged with a correlation id where a reply to its
/// success is wanted.
#[derive(Debug, PartialEq, Eq)]
pub struct SubMsg {
    pub reply_id: Option<u64>,
    pub msg: CosmosMsg,
}

pub struct SubMsgView {
    pub reply_id: Option<u64>,
    pub msg: CosmosMsgView,
}

impl View for SubMsg {
    type V = SubMsgView;

    open spec fn view(&self) -> SubMsgView {
        SubMsgView { reply_id: self.reply_id, msg: self.msg@ }
    }
}

impl SubMsg {
    /// A call to which no reply is wanted.
    pub fn new(msg: CosmosMsg) -> (m: SubMsg)
        ensures
            m@ == (SubMsgView { reply_id: None, msg: msg@ }),
    {
        SubMsg { reply_id: None, msg }
    }

    /// A call whose success is to be answered under `id`.
    pub fn reply_on_success(msg: CosmosMsg, id: u64) -> (m: SubMsg)
        ensures
            m@ == (SubMsgView { reply_id: Some(id), msg: msg@ }),
    {
        SubMsg { reply_id: Some(id), msg }
    }
}

/// What a factory is asked when a pair is looked up.
#[derive(Debug, PartialEq, Eq)]
pub enum FactoryQueryMsg {
    /// The Astroport pair of these assets.
    AstroportPair { asset_infos: Vec<AssetInfo> },
    /// A query to the Dojoswap factory.
    Dojoswap(DojoswapFactoryQueryMsg),
}

pub enum FactoryQueryMsgView {
    AstroportPair { asset_infos: Seq<AssetInfoView> },
    DojoswapPair { asset_infos: Seq<AssetInfoView> },
}

impl View for FactoryQueryMsg {
    type V = FactoryQueryMsgView;

    open spec fn view(&self) -> FactoryQueryMsgView {
        match self {
            FactoryQueryMsg::AstroportPair { asset_infos } => FactoryQueryMsgView::AstroportPair {
                asset_infos: infos_view(asset_infos@),
            },
            FactoryQueryMsg::Dojoswap(DojoswapFactoryQueryMsg::Pair { asset_infos }) =>
                FactoryQueryMsgView::DojoswapPair { asset_infos: dojo_infos_view(asset_infos@) },
        }
    }
}

/// A read-only question to a factory contract: which pair holds these assets.
#[derive(Debug, PartialEq, Eq)]
pub struct PairQuery {
    pub factory_addr: String,
    pub msg: FactoryQueryMsg,
}

pub struct PairQueryView {
    pub factory_addr: Seq<char>,
    pub msg: FactoryQueryMsgView,
}

impl View for PairQuery {
    type V = PairQueryView;

    open spec fn view(&self) -> PairQueryView {
        PairQueryView { factory_addr: self.factory_addr@, msg: self.msg@ }
    }
}

/// A key and a value that a response reports of what was done.
#[derive(Debug, PartialEq, Eq)]
pub struct Attribute {
    pub key: String,
    pub value: String,
}

pub struct AttributeView {
    pub key: Seq<char>,
    pub value: Seq<char>,
}

impl View for Attribute {
    type V = AttributeView;

    open spec fn view(&self) -> AttributeView {
        AttributeView { key: self.key@, value: self.value@ }
    }
}

/// What one request answers: the attributes it reports, and the calls it
/// emits, in the order in which they are to run.
#[derive(Debug, PartialEq, Eq)]
pub struct Response {
    pub attributes: Vec<Attribute>,
    pub messages: Vec<SubMsg>,
}

pub struct ResponseView {
    pub attributes: Seq<AttributeView>,
    pub messages: Seq<SubMsgView>,
}

impl ResponseView {
    /// The response that reports and emits nothing.
    pub open spec fn empty() -> ResponseView {
        ResponseView { attributes: Seq::empty(), messages: Seq::empty() }
    }

    /// This response with one more attribute.
    pub open spec fn attribute(self, key: Seq<char>, value: Seq<char>) -> ResponseView {
        ResponseView { attributes: self.attributes.push(AttributeView { key, value }), ..self }
    }

    /// This response with one more call.
    pub open spec fn push(self, m: SubMsgView) -> ResponseView {
        ResponseView { messages: self.messages.push(m), ..self }
    }
}

impl View for Response {
    type V = ResponseView;

    open spec fn view(&self) -> ResponseView {
        ResponseView {
            attributes: self.attributes@.map_values(|a: Attribute| a@),
            messages: self.messages@.map_values(|m: SubMsg| m@),
        }
    }
}

impl Response {
    /// A response that reports and emits nothing.
    pub fn new() -> (r: Response)
        ensures
            r@ == ResponseView::empty(),
    {
        let r = Response { attributes: Vec::new(), messages: Vec::new() };
        proof {
            assert(r@.attributes =~= Seq::<AttributeView>::empty());
            assert(r@.messages =~= Seq::<SubMsgView>::empty());
        }
        r
    }

    /// Appends one attribute.
    pub fn add_attribute(self, key: &str, value: &str) -> (r: Response)
        ensures
            r@ == self@.attribute(key@, value@),
    {
        let mut attributes = self.attributes;
        attributes.push(Attribute { key: key.to_owned(), value: value.to_owned() });
        let r = Response { attributes, messages: self.messages };
        proof {
            assert(r@.attributes =~= self@.attribute(key@, value@).attributes);
        }
        r
    }

    /// Appends one call.
    pub fn add_submessage(self, m: SubMsg) -> (r: Response)
        ensures
            r@ == self@.push(m@),
    {
        let mut messages = self.messages;
        messages.push(m);
        let r = Response { attributes: self.attributes, messages };
        proof {
            assert(r@.messages =~= self@.push(m@).messages);
        }
        r
    }
}

/// The result of a step that emits one call, by its view.
pub open spec fn msg_result_view(r: Result<SubMsg, ContractError>) -> Result<SubMsgView, ErrorKind> {
    match r {
        Ok(m) => Ok(m@),
        Err(e) => Err(e.kind()),
    }
}

/// The result of a step that emits a response, by its view.
pub open spec fn response_result_view(r: Result<Response, ContractError>) -> Result<
    ResponseView,
    ErrorKind,
> {
    match r {
        Ok(m) => Ok(m@),
        Err(e) => Err(e.kind()),
    }
}

} // verus!
