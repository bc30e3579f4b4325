use vstd::prelude::*;
use crate::calls::{
    coin, coins_view, response_result_view, Coin, CoinView, CosmosMsg, CosmosMsgView,
    FactoryQueryMsg, FactoryQueryMsgView, LiquidityView, PairQuery, PairQueryView, Payload,
    PayloadView, Response, ResponseView, SubMsg, SubMsgView,
};
use crate::error::{ContractError, ErrorKind};
use crate::integrations::astroport::{AssetInfoView, AssetView};
use crate::integrations::dojoswap::{
    dojo_assets_view, dojo_infos_view, DojoswapAsset, DojoswapAssetInfo,
    DojoswapFactoryExecuteMsg, DojoswapFactoryQueryMsg, DojoswapPairExecuteMsg,
    DOJOSWAP_PAIR_FACTORY_ADDR,
};
use crate::msg::{InstantiateMsg, InstantiateMsgView};
use crate::plays::utils::{prepare_pair_token_amounts, spec_pair_amounts, PLATFORM_FEE_PCT};
use crate::state::models::{
    carries_failure, failure_of, DojoswapCreatePairState, Reply, ReplyHandler, ReplyHandlerView,
    SubMsgResult, TOO_FEW_ASSETS,
};
use crate::state::storage::{spec_next_id, Store, StoreView};
use crate::tokens::{spec_transfer, Token, TokenView};

verus! {

/// Why a contract-issued token stops this play.
pub const CW20_NOT_SUPPORTED: &'static str =
    "cw20 tokens not supported for dojoswap pool initialization";

/// The call that asks the factory for a pair of two native assets, quote
/// first, with both amounts attached as funds, to be answered under `id`.
pub open spec fn spec_dojoswap_create_pair_msg(
    quote_denom: Seq<char>,
    quote_amount: u128,
    base_denom: Seq<char>,
    base_amount: u128,
    id: u64,
) -> SubMsgView {
    SubMsgView {
        reply_id: Some(id),
        msg: CosmosMsgView::WasmExecute {
            contract_addr: DOJOSWAP_PAIR_FACTORY_ADDR@,
            msg: PayloadView::DojoswapCreatePair {
                assets: seq![
                    AssetView {
                        info: AssetInfoView::NativeToken { denom: quote_denom },
                        amount: quote_amount,
                    },
                    AssetView {
                        info: AssetInfoView::NativeToken { denom: base_denom },
                        amount: base_amount,
                    },
                ],
            },
            funds: seq![
                CoinView { denom: quote_denom, amount: quote_amount },
                CoinView { denom: base_denom, amount: base_amount },
            ],
        },
    }
}

/// The continuation of a pair creation: the two assets, quote first.
pub open spec fn spec_dojoswap_continuation(
    quote_denom: Seq<char>,
    base_denom: Seq<char>,
) -> ReplyHandlerView {
    ReplyHandlerView::DojoswapCreatePair {
        asset_infos: seq![
            AssetInfoView::NativeToken { denom: quote_denom },
            AssetInfoView::NativeToken { denom: base_denom },
        ],
    }
}

/// What `init_dojoswap_pair` returns and leaves in the store. The amounts
/// come first and their failure is the play's. A contract-issued token on
/// either side is not supported. An exhausted counter fails with the store
/// untouched; a continuation already pending under the new id fails after
/// the id was issued. Otherwise the id is issued, the continuation is pending
/// under it, and the response gains the transfer of the fee and then the
/// call that creates the pair.
pub open spec fn spec_init_dojoswap_pair(
    s: StoreView,
    resp: ResponseView,
    msg: InstantiateMsgView,
) -> (Result<ResponseView, ErrorKind>, StoreView) {
    match spec_pair_amounts(msg.quote.amount, msg.base.amount, msg.vl, PLATFORM_FEE_PCT) {
        Err(e) => (Err(e), s),
        Ok(p) => match (msg.quote.token, msg.base.token) {
            (TokenView::Denom(qd), TokenView::Denom(bd)) => match spec_next_id(
                s.reply_id_counter,
            ) {
                Err(e) => (Err(e), s),
                Ok(id) => if s.reply_handlers.contains_key(id) {
                    (
                        Err(ErrorKind::DuplicateCorrelationId),
                        StoreView { reply_id_counter: id, ..s },
                    )
                } else {
                    (
                        Ok(
                            resp.push(
                                spec_transfer(msg.quote.token, msg.fee_recipient, p.fee),
                            ).push(spec_dojoswap_create_pair_msg(qd, p.quote, bd, p.base, id)),
                        ),
                        StoreView {
                            reply_id_counter: id,
                            reply_handlers: s.reply_handlers.insert(
                                id,
                                spec_dojoswap_continuation(qd, bd),
                            ),
                            ..s
                        },
                    )
                },
            },
            _ => (Err(ErrorKind::NotImplemented), s),
        },
    }
}

/// The denomination of a token that this play can handle.
fn native_denom(token: &Token) -> (r: Result<String, ContractError>)
    ensures
        match token@ {
            TokenView::Denom(d) => r matches Ok(s) && s@ == d,
            TokenView::Address(_) => r matches Err(ContractError::NotImplemented { reason })
                && reason@ == CW20_NOT_SUPPORTED@,
        },
{
    match token {
        Token::Denom(denom) => Ok(denom.clone()),
        Token::Address(_) => Err(
            ContractError::NotImplemented { reason: CW20_NOT_SUPPORTED.to_owned() },
        ),
    }
}

/// Starts the migration into a Dojoswap pair: computes the amounts,
/// registers the continuation, and appends to `resp` the transfer of the fee
/// and the call that creates the pair.
pub fn init_dojoswap_pair(store: &mut Store, resp: Response, msg: &InstantiateMsg) -> (r: Result<
    Response,
    ContractError,
>)
    ensures
        (response_result_view(r), final(store)@) == spec_init_dojoswap_pair(
            old(store)@,
            resp@,
            msg@,
        ),
        r matches Err(ContractError::NotImplemented { reason }) ==> reason@ == CW20_NOT_SUPPORTED@,
        r matches Err(ContractError::DuplicateCorrelationId { id }) ==> id == old(
            store,
        ).reply_id_counter + 1,
        old(store).wf() ==> final(store).wf() && !(r matches Err(
            ContractError::DuplicateCorrelationId { .. },
        )),
{
    let p = prepare_pair_token_amounts(msg.quote.amount, msg.base.amount, msg.vl)?;

    let quote_denom = native_denom(&msg.quote.token)?;
    let base_denom = native_denom(&msg.base.token)?;
    let funds = vec![coin(p.quote, quote_denom.clone()), coin(p.base, base_denom.clone())];

    let infos = vec![
        DojoswapAssetInfo::NativeToken { denom: quote_denom.clone() },
        DojoswapAssetInfo::NativeToken { denom: base_denom.clone() },
    ];
    let assets = [
        DojoswapAsset {
            amount: p.quote,
            info: DojoswapAssetInfo::NativeToken { denom: quote_denom },
        },
        DojoswapAsset { amount: p.base, info: DojoswapAssetInfo::NativeToken { denom: base_denom } },
    ];

    let reply_id = store.next_id()?;
    let handler = ReplyHandler::DojoswapCreatePair(DojoswapCreatePairState { asset_infos: infos });
    proof {
        assert(dojo_infos_view(infos@) =~= spec_dojoswap_continuation(
            quote_denom@,
            base_denom@,
        )->asset_infos);
    }
    store.register(reply_id, handler)?;

    let fee = msg.quote.token.transfer(msg.fee_recipient.as_str(), p.fee)?;
    let create = SubMsg::reply_on_success(
        CosmosMsg::WasmExecute {
            contract_addr: DOJOSWAP_PAIR_FACTORY_ADDR.to_owned(),
            msg: Payload::DojoswapFactory(DojoswapFactoryExecuteMsg::CreatePair { assets }),
            funds,
        },
        reply_id,
    );
    proof {
        let expected = spec_dojoswap_create_pair_msg(
            quote_denom@,
            p.quote,
            base_denom@,
            p.base,
            reply_id,
        );
        assert(coins_view(funds@) =~= expected.msg->funds);
        assert(dojo_assets_view(assets@) =~= seq![
            AssetView {
                info: AssetInfoView::NativeToken { denom: quote_denom@ },
                amount: p.quote,
            },
            AssetView { info: AssetInfoView::NativeToken { denom: base_denom@ }, amount: p.base },
        ]);
    }
    Ok(resp.add_submessage(fee).add_submessage(create))
}

/// The question that follows a reply: a failed creation ends here with the
/// exchange's own words; a continuation without two assets is malformed;
/// otherwise the factory is asked for the pair of the first two assets.
pub open spec fn spec_dojoswap_pair_query(
    failure: Option<Seq<char>>,
    asset_infos: Seq<AssetInfoView>,
) -> Result<PairQueryView, ErrorKind> {
    if failure is Some {
        Err(ErrorKind::Exchange)
    } else if asset_infos.len() < 2 {
        Err(ErrorKind::Validation)
    } else {
        Ok(
            PairQueryView {
                factory_addr: DOJOSWAP_PAIR_FACTORY_ADDR@,
                msg: FactoryQueryMsgView::DojoswapPair {
                    asset_infos: seq![asset_infos[0], asset_infos[1]],
                },
            },
        )
    }
}

/// Decides what to ask the factory after the reply to a pair creation.
pub fn dojoswap_pair_query(reply: &Reply, state: &DojoswapCreatePairState) -> (r: Result<
    PairQuery,
    ContractError,
>)
    ensures
        match r {
            Ok(q) => spec_dojoswap_pair_query(
                failure_of(*reply),
                dojo_infos_view(state.asset_infos@),
            ) == Ok::<PairQueryView, ErrorKind>(q@),
            Err(e) => spec_dojoswap_pair_query(
                failure_of(*reply),
                dojo_infos_view(state.asset_infos@),
            ) == Err::<PairQueryView, ErrorKind>(e.kind()),
        },
        r matches Err(e) ==> failure_of(*reply) is Some ==> carries_failure(e, *reply),
        r matches Err(ContractError::ValidationError { reason }) ==> reason@ == TOO_FEW_ASSETS@,
{
    match &reply.result {
        SubMsgResult::Failure(text) => Err(ContractError::Std { msg: text.clone() }),
        SubMsgResult::Success => {
            if state.asset_infos.len() < 2 {
                return Err(
                    ContractError::ValidationError {
                        reason: TOO_FEW_ASSETS.to_owned(),
                    },
                );
            }
            let asset_infos = [state.asset_infos[0].clone(), state.asset_infos[1].clone()];
            proof {
                assert(dojo_infos_view(asset_infos@) =~= seq![
                    dojo_infos_view(state.asset_infos@)[0],
                    dojo_infos_view(state.asset_infos@)[1],
                ]);
            }
            Ok(
                PairQuery {
                    factory_addr: DOJOSWAP_PAIR_FACTORY_ADDR.to_owned(),
                    msg: FactoryQueryMsg::Dojoswap(DojoswapFactoryQueryMsg::Pair { asset_infos }),
                },
            )
        },
    }
}

/// The call that follows the creation of a pair: it goes to the pair, names
/// `contract_addr` as the receiver of the liquidity tokens, stakes nothing
/// and sets no slippage bound and no minimum output. The pair took its funds
/// with the call that created it, so this call names the two assets of the
/// continuation and commits no further amounts and no funds.
pub open spec fn spec_dojoswap_provide_liquidity(
    contract_addr: Seq<char>,
    pair_contract_addr: Seq<char>,
    asset_infos: Seq<AssetInfoView>,
) -> SubMsgView {
    SubMsgView {
        reply_id: None,
        msg: CosmosMsgView::WasmExecute {
            contract_addr: pair_contract_addr,
            msg: PayloadView::DojoswapProvideLiquidity(
                LiquidityView {
                    assets: seq![
                        AssetView { info: asset_infos[0], amount: 0 },
                        AssetView { info: asset_infos[1], amount: 0 },
                    ],
                    slippage_tolerance: None,
                    auto_stake: Some(false),
                    receiver: Some(contract_addr),
                    min_lp_to_receive: None,
                },
            ),
            funds: Seq::empty(),
        },
    }
}

/// What the reply to a pair creation leads to, given the pair address that
/// the factory reported: a failed creation fails and changes nothing, and so
/// does a continuation without two assets; otherwise the address is kept,
/// the continuation of the reply is no longer pending, and the one call that
/// provides liquidity to the pair is emitted.
pub open spec fn spec_on_dojoswap_create_pair_reply(
    s: StoreView,
    contract_addr: Seq<char>,
    reply_id: u64,
    failure: Option<Seq<char>>,
    asset_infos: Seq<AssetInfoView>,
    pair_contract_addr: Seq<char>,
) -> (Result<ResponseView, ErrorKind>, StoreView) {
    if failure is Some {
        (Err(ErrorKind::Exchange), s)
    } else if asset_infos.len() < 2 {
        (Err(ErrorKind::Validation), s)
    } else {
        (
            Ok(
                ResponseView::empty().push(
                    spec_dojoswap_provide_liquidity(contract_addr, pair_contract_addr, asset_infos),
                ),
            ),
            StoreView {
                dojoswap_pair_addr: Some(pair_contract_addr),
                reply_handlers: s.reply_handlers.remove(reply_id),
                ..s
            },
        )
    }
}

/// Finishes a Dojoswap pair creation once the factory has reported the
/// pair's address. `contract_addr` is this contract's own address.
pub fn on_dojoswap_create_pair_reply(
    store: &mut Store,
    contract_addr: String,
    reply: &Reply,
    state: DojoswapCreatePairState,
    pair_contract_addr: String,
) -> (r: Result<Response, ContractError>)
    ensures
        (response_result_view(r), final(store)@) == spec_on_dojoswap_create_pair_reply(
            old(store)@,
            contract_addr@,
            reply.id,
            failure_of(*reply),
            dojo_infos_view(state.asset_infos@),
            pair_contract_addr@,
        ),
        r matches Err(e) ==> failure_of(*reply) is Some ==> carries_failure(e, *reply),
        r matches Err(ContractError::ValidationError { reason }) ==> reason@ == TOO_FEW_ASSETS@,
        old(store).wf() ==> final(store).wf(),
{
    broadcast use vstd::std_specs::hash::group_hash_axioms;

    match &reply.result {
        SubMsgResult::Failure(text) => Err(ContractError::Std { msg: text.clone() }),
        SubMsgResult::Success => {
            if state.asset_infos.len() < 2 {
                return Err(ContractError::ValidationError { reason: TOO_FEW_ASSETS.to_owned() });
            }
            let assets = [
                DojoswapAsset { info: state.asset_infos[0].clone(), amount: 0 },
                DojoswapAsset { info: state.asset_infos[1].clone(), amount: 0 },
            ];
            let funds: Vec<Coin> = Vec::new();
            let m = SubMsg::new(
                CosmosMsg::WasmExecute {
                    contract_addr: pair_contract_addr.clone(),
                    msg: Payload::DojoswapPair(
                        DojoswapPairExecuteMsg::ProvideLiquidity {
                            assets,
                            slippage_tolerance: None,
                            auto_stake: Some(false),
                            receiver: Some(contract_addr),
                            min_lp_to_receive: None,
                        },
                    ),
                    funds,
                },
            );
            proof {
                assert(coins_view(funds@) =~= Seq::<CoinView>::empty());
                assert(dojo_assets_view(assets@) =~= seq![
                    AssetView { info: dojo_infos_view(state.asset_infos@)[0], amount: 0 },
                    AssetView { info: dojo_infos_view(state.asset_infos@)[1], amount: 0 },
                ]);
            }
            store.dojoswap_pair_addr = Some(pair_contract_addr);
            store.reply_handlers.remove(&reply.id);
            proof {
                assert(store@.reply_handlers =~= old(store)@.reply_handlers.remove(reply.id));
            }
            Ok(Response::new().add_submessage(m))
        },
    }
}

} // verus!
