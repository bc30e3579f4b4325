use vstd::prelude::*;
use crate::calls::{
    coins_view, response_result_view, Coin, CoinView, PairQuery, PairQueryView, Response,
    ResponseView,
};
use crate::error::{ContractError, ErrorKind};
use crate::plays::init_astroport_pair::{
    astroport_pair_query, on_astroport_create_pair_reply, spec_astroport_pair_query,
    spec_on_astroport_create_pair_reply,
};
use crate::plays::init_dojoswap_pair::{
    dojoswap_pair_query, on_dojoswap_create_pair_reply, spec_dojoswap_pair_query,
    spec_on_dojoswap_create_pair_reply,
};
use crate::state::storage::{Store, StoreView};
use crate::integrations::astroport::{assets_view, Asset, AssetInfoView, AssetView};
use crate::integrations::dojoswap::{dojo_infos_view, DojoswapAssetInfo};
use crate::tokens::{TokenAmount, TokenAmountView};

verus! {

/// The contract's adjustable settings. There are none yet.
#[derive(Clone, Copy, Debug, PartialEq, Eq, Structural)]
pub struct Config {}

/// What a migration is created with. Written once, at creation.
#[derive(Debug, PartialEq, Eq)]
pub struct MigrationConfig {
    pub manager: String,
    pub created_by: String,
    /// The creation time, in nanoseconds since the epoch.
    pub created_at: u64,
    pub play: String,
    pub base: TokenAmount,
    pub quote: TokenAmount,
    pub vl: u128,
}

pub struct MigrationConfigView {
    pub manager: Seq<char>,
    pub created_by: Seq<char>,
    pub created_at: u64,
    pub play: Seq<char>,
    pub base: TokenAmountView,
    pub quote: TokenAmountView,
    pub vl: u128,
}

impl View for MigrationConfig {
    type V = MigrationConfigView;

    open spec fn view(&self) -> MigrationConfigView {
        MigrationConfigView {
            manager: self.manager@,
            created_by: self.created_by@,
            created_at: self.created_at,
            play: self.play@,
            base: self.base@,
            quote: self.quote@,
            vl: self.vl,
        }
    }
}

/// What the reply to an Astroport pair creation needs: the assets and the
/// funds of the liquidity that follows.
#[derive(Debug, PartialEq, Eq)]
pub struct AstroportCreatePairState {
    pub assets: Vec<Asset>,
    pub funds: Vec<Coin>,
}

/// What the reply to a Dojoswap pair creation needs: the two assets of the
/// pair.
#[derive(Debug, PartialEq, Eq)]
pub struct DojoswapCreatePairState {
    pub asset_infos: Vec<DojoswapAssetInfo>,
}

/// The continuation of a call in flight, by the exchange that was called.
#[derive(Debug, PartialEq, Eq)]
pub enum ReplyHandler {
    AstroportCreatePair(AstroportCreatePairState),
    DojoswapCreatePair(DojoswapCreatePairState),
}

pub enum ReplyHandlerView {
    AstroportCreatePair { assets: Seq<AssetView>, funds: Seq<CoinView> },
    DojoswapCreatePair { asset_infos: Seq<AssetInfoView> },
}

impl View for ReplyHandler {
    type V = ReplyHandlerView;

    open spec fn view(&self) -> ReplyHandlerView {
        match self {
            ReplyHandler::AstroportCreatePair(s) => ReplyHandlerView::AstroportCreatePair {
                assets: assets_view(s.assets@),
                funds: coins_view(s.funds@),
            },
            ReplyHandler::DojoswapCreatePair(s) => ReplyHandlerView::DojoswapCreatePair {
                asset_infos: dojo_infos_view(s.asset_infos@),
            },
        }
    }
}

/// Why a continuation cannot name its pair.
pub const TOO_FEW_ASSETS: &'static str = "pair creation state holds fewer than two assets";

/// How an external call ended: with success, or with the callee's error text.
#[derive(Debug, PartialEq, Eq)]
pub enum SubMsgResult {
    Success,
    Failure(String),
}

/// The reply to the call that was tagged with `id`.
#[derive(Debug, PartialEq, Eq)]
pub struct Reply {
    pub id: u64,
    pub result: SubMsgResult,
}

/// The error text of a reply, where the call failed.
pub open spec fn failure_of(reply: Reply) -> Option<Seq<char>> {
    match reply.result {
        SubMsgResult::Success => None,
        SubMsgResult::Failure(text) => Some(text@),
    }
}

/// Whether `e` carries exactly the failure text of `reply`.
pub open spec fn carries_failure(e: ContractError, reply: Reply) -> bool {
    e matches ContractError::Std { msg } && failure_of(reply) == Some(msg@)
}

/// What a continuation asks its exchange after a reply.
pub open spec fn spec_pair_query(h: ReplyHandlerView, failure: Option<Seq<char>>) -> Result<
    PairQueryView,
    ErrorKind,
> {
    match h {
        ReplyHandlerView::AstroportCreatePair { assets, .. } => spec_astroport_pair_query(
            failure,
            assets,
        ),
        ReplyHandlerView::DojoswapCreatePair { asset_infos } => spec_dojoswap_pair_query(
            failure,
            asset_infos,
        ),
    }
}

/// What a continuation does with a reply and the pair address that its
/// exchange reported.
pub open spec fn spec_handle(
    h: ReplyHandlerView,
    s: StoreView,
    contract_addr: Seq<char>,
    reply_id: u64,
    failure: Option<Seq<char>>,
    pair_contract_addr: Seq<char>,
) -> (Result<ResponseView, ErrorKind>, StoreView) {
    match h {
        ReplyHandlerView::AstroportCreatePair { assets, funds } =>
            spec_on_astroport_create_pair_reply(
                s,
                contract_addr,
                reply_id,
                failure,
                assets,
                funds,
                pair_contract_addr,
            ),
        ReplyHandlerView::DojoswapCreatePair { asset_infos } =>
            spec_on_dojoswap_create_pair_reply(
                s,
                contract_addr,
                reply_id,
                failure,
                asset_infos,
                pair_contract_addr,
            ),
    }
}

impl ReplyHandler {
    /// Decides what to ask the exchange after `reply`.
    pub fn pair_query(&self, reply: &Reply) -> (r: Result<PairQuery, ContractError>)
        ensures
            match r {
                Ok(q) => spec_pair_query(self@, failure_of(*reply)) == Ok::<
                    PairQueryView,
                    ErrorKind,
                >(q@),
                Err(e) => spec_pair_query(self@, failure_of(*reply)) == Err::<
                    PairQueryView,
                    ErrorKind,
                >(e.kind()),
            },
            r matches Err(e) ==> failure_of(*reply) is Some ==> carries_failure(e, *reply),
            r matches Err(ContractError::ValidationError { reason }) ==> reason@
                == TOO_FEW_ASSETS@,
    {
        match self {
            ReplyHandler::AstroportCreatePair(state) => astroport_pair_query(reply, state),
            ReplyHandler::DojoswapCreatePair(state) => dojoswap_pair_query(reply, state),
        }
    }

    /// Finishes the call in flight with the play that started it.
    /// `contract_addr` is this contract's own address, and
    /// `pair_contract_addr` the pair address that the exchange reported.
    pub fn handle(
        self,
        store: &mut Store,
        contract_addr: String,
        reply: &Reply,
        pair_contract_addr: String,
    ) -> (r: Result<Response, ContractError>)
        ensures
            (response_result_view(r), final(store)@) == spec_handle(
                self@,
                old(store)@,
                contract_addr@,
                reply.id,
                failure_of(*reply),
                pair_contract_addr@,
            ),
            r matches Err(e) ==> failure_of(*reply) is Some ==> carries_failure(e, *reply),
            r matches Err(ContractError::ValidationError { reason }) ==> reason@
                == TOO_FEW_ASSETS@,
            old(store).wf() ==> final(store).wf(),
    {
        match self {
            ReplyHandler::AstroportCreatePair(state) => on_astroport_create_pair_reply(
                store,
                contract_addr,
                reply,
                state,
                pair_contract_addr,
            ),
            ReplyHandler::DojoswapCreatePair(state) => on_dojoswap_create_pair_reply(
                store,
                contract_addr,
                reply,
                state,
                pair_contract_addr,
            ),
        }
    }
}

} // verus!
