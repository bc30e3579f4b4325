use vstd::prelude::*;
use crate::calls::{
    coin, coins_view, msg_result_view, response_result_view, Coin, CoinView, CosmosMsg,
    CosmosMsgView, FactoryQueryMsg, FactoryQueryMsgView, LiquidityView, PairQuery, PairQueryView,
    Payload, PayloadView, Response, ResponseView, SubMsg, SubMsgView,
};
use crate::error::{ContractError, ErrorKind};
use crate::integrations::astroport::{
    assets_view, infos_view, Asset, AssetInfo, AssetInfoView, AssetView, PairType, PairTypeView,
    STARGAZE_ASTROPORT_FACTORY_ADDR,
};
use crate::math::{
    agrees, lemma_ratio_bounded, mul_ratio_u128, spec_mul_ratio, spec_sub_u128, sub_u128,
};
use crate::msg::{InstantiateMsg, InstantiateMsgView};
use crate::plays::utils::{
    prepare_pair_token_amounts, sorted_pair, spec_pair_amounts, spec_sorted_pair, PairAmounts,
    PLATFORM_FEE_PCT,
};
use crate::state::models::{
    carries_failure, failure_of, AstroportCreatePairState, Reply, ReplyHandler, ReplyHandlerView,
    SubMsgResult, TOO_FEW_ASSETS,
};
use crate::state::storage::{spec_next_id, Store, StoreView};
use crate::tokens::{spec_transfer, TokenAmount, TokenAmountView, TokenView};

verus! {

/// What Astroport charges, in the quote token, for creating a pair's
/// liquidity token.
pub const LP_TOKEN_CREATION_FEE: u128 = 100_000_000;

/// The pair amounts for Astroport: the creation fee comes off the quote
/// amount, and the base amount shrinks in the same ratio.
pub open spec fn spec_astroport_amounts(q0: u128, b0: u128, v0: u128) -> Result<
    PairAmounts,
    ErrorKind,
> {
    match spec_pair_amounts(q0, b0, v0, PLATFORM_FEE_PCT) {
        Err(e) => Err(e),
        Ok(p) => match spec_sub_u128(p.quote, LP_TOKEN_CREATION_FEE) {
            Err(e) => Err(e),
            Ok(quote) => match spec_mul_ratio(p.base, quote, p.quote) {
                Err(e) => Err(e),
                Ok(base) => Ok(PairAmounts { fee: p.fee, base, quote }),
            },
        },
    }
}

/// The continuation of a pair creation: the two assets, base first, and the
/// same amounts as funds.
pub open spec fn spec_astroport_continuation(
    base_denom: Seq<char>,
    base_amount: u128,
    quote_denom: Seq<char>,
    quote_amount: u128,
) -> ReplyHandlerView {
    ReplyHandlerView::AstroportCreatePair {
        assets: seq![
            AssetView {
                info: AssetInfoView::NativeToken { denom: base_denom },
                amount: base_amount,
            },
            AssetView {
                info: AssetInfoView::NativeToken { denom: quote_denom },
                amount: quote_amount,
            },
        ],
        funds: seq![
            CoinView { denom: base_denom, amount: base_amount },
            CoinView { denom: quote_denom, amount: quote_amount },
        ],
    }
}

/// The call that asks the factory for a constant-product pair of two native
/// assets, in ascending order of their denominations and with no initial
/// parameters, with the creation fee attached in the quote token, to be
/// answered under `id`.
pub open spec fn spec_create_pair_msg(
    base_denom: Seq<char>,
    quote_denom: Seq<char>,
    lp_fee: u128,
    id: u64,
) -> SubMsgView {
    let sorted = spec_sorted_pair(base_denom, quote_denom);
    SubMsgView {
        reply_id: Some(id),
        msg: CosmosMsgView::WasmExecute {
            contract_addr: STARGAZE_ASTROPORT_FACTORY_ADDR@,
            msg: PayloadView::AstroportCreatePair {
                pair_type: PairTypeView::Xyk,
                init_params: None,
                asset_infos: seq![
                    AssetInfoView::NativeToken { denom: sorted.0 },
                    AssetInfoView::NativeToken { denom: sorted.1 },
                ],
            },
            funds: seq![CoinView { denom: quote_denom, amount: lp_fee }],
        },
    }
}

/// What `create_pair` returns and leaves in the store. A token without a
/// denomination, or an exhausted counter, fails with the store untouched. A
/// continuation already pending under the new id fails after the id was
/// issued. Otherwise the id is issued, the continuation is pending under it,
/// and the call carries it.
pub open spec fn spec_create_pair(
    s: StoreView,
    base: TokenAmountView,
    quote: TokenAmountView,
    lp_fee: u128,
) -> (Result<SubMsgView, ErrorKind>, StoreView) {
    match (base.token, quote.token) {
        (TokenView::Denom(bd), TokenView::Denom(qd)) => match spec_next_id(s.reply_id_counter) {
            Err(e) => (Err(e), s),
            Ok(id) => if s.reply_handlers.contains_key(id) {
                (
                    Err(ErrorKind::DuplicateCorrelationId),
                    StoreView { reply_id_counter: id, ..s },
                )
            } else {
                (
                    Ok(spec_create_pair_msg(bd, qd, lp_fee, id)),
                    StoreView {
                        reply_id_counter: id,
                        reply_handlers: s.reply_handlers.insert(
                            id,
                            spec_astroport_continuation(bd, base.amount, qd, quote.amount),
                        ),
                        ..s
                    },
                )
            },
        },
        _ => (Err(ErrorKind::UnsupportedToken), s),
    }
}

/// Registers the continuation of a pair creation under a fresh id and
/// describes the call to the factory that creates the pair.
pub fn create_pair(store: &mut Store, base: TokenAmount, quote: TokenAmount, lp_fee: u128) -> (r:
    Result<SubMsg, ContractError>)
    ensures
        (msg_result_view(r), final(store)@) == spec_create_pair(
            old(store)@,
            base@,
            quote@,
            lp_fee,
        ),
        r matches Err(ContractError::DuplicateCorrelationId { id }) ==> id == old(
            store,
        ).reply_id_counter + 1,
        old(store).wf() ==> final(store).wf() && !(r matches Err(
            ContractError::DuplicateCorrelationId { .. },
        )),
{
    let base_denom = base.token.get_denom()?;
    let quote_denom = quote.token.get_denom()?;
    let (first, second) = sorted_pair(base_denom.clone(), quote_denom.clone());
    let asset_infos = vec![
        AssetInfo::NativeToken { denom: first },
        AssetInfo::NativeToken { denom: second },
    ];

    let reply_id = store.next_id()?;

    let assets = vec![
        Asset { amount: base.amount, info: AssetInfo::NativeToken { denom: base_denom.clone() } },
        Asset { amount: quote.amount, info: AssetInfo::NativeToken { denom: quote_denom.clone() } },
    ];
    let funds = vec![
        coin(base.amount, base_denom),
        coin(quote.amount, quote_denom.clone()),
    ];
    let handler = ReplyHandler::AstroportCreatePair(AstroportCreatePairState { assets, funds });
    proof {
        let expected = spec_astroport_continuation(
            base_denom@,
            base.amount,
            quote_denom@,
            quote.amount,
        );
        assert(assets_view(assets@) =~= expected->assets);
        assert(coins_view(funds@) =~= expected->funds);
    }
    store.register(reply_id, handler)?;

    let lp_funds = vec![coin(lp_fee, quote_denom)];
    let m = SubMsg::reply_on_success(
        CosmosMsg::WasmExecute {
            funds: lp_funds,
            contract_addr: STARGAZE_ASTROPORT_FACTORY_ADDR.to_owned(),
            msg: Payload::AstroportCreatePair {
                pair_type: PairType::Xyk,
                asset_infos,
                init_params: None,
            },
        },
        reply_id,
    );
    proof {
        assert(coins_view(lp_funds@) =~= seq![CoinView { denom: quote_denom@, amount: lp_fee }]);
        assert(infos_view(asset_infos@) =~= seq![
            AssetInfoView::NativeToken { denom: first@ },
            AssetInfoView::NativeToken { denom: second@ },
        ]);
    }
    Ok(m)
}

/// What `init_astroport_pair` returns and leaves in the store: the failure of
/// the amounts or of the pair creation, or the response with the transfer of
/// the fee to its recipient and then the call that creates the pair.
pub open spec fn spec_init_astroport_pair(
    s: StoreView,
    resp: ResponseView,
    msg: InstantiateMsgView,
) -> (Result<ResponseView, ErrorKind>, StoreView) {
    match spec_astroport_amounts(msg.quote.amount, msg.base.amount, msg.vl) {
        Err(e) => (Err(e), s),
        Ok(p) => {
            let created = spec_create_pair(
                s,
                TokenAmountView { token: msg.base.token, amount: p.base },
                TokenAmountView { token: msg.quote.token, amount: p.quote },
                LP_TOKEN_CREATION_FEE,
            );
            match created.0 {
                Err(e) => (Err(e), created.1),
                Ok(create) => (
                    Ok(
                        resp.push(spec_transfer(msg.quote.token, msg.fee_recipient, p.fee)).push(
                            create,
                        ),
                    ),
                    created.1,
                ),
            }
        },
    }
}

/// The fee and the pair amounts for Astroport.
pub fn astroport_pair_amounts(q0: u128, b0: u128, v0: u128) -> (r: Result<
    PairAmounts,
    ContractError,
>)
    ensures
        agrees(r, spec_astroport_amounts(q0, b0, v0)),
        r matches Ok(p) ==> p.fee <= q0 && p.base <= b0 && p.quote + LP_TOKEN_CREATION_FEE + p.fee
            == b0,
{
    let p = prepare_pair_token_amounts(q0, b0, v0)?;
    let quote = sub_u128(p.quote, LP_TOKEN_CREATION_FEE)?;
    let base = mul_ratio_u128(p.base, quote, p.quote)?;
    proof {
        lemma_ratio_bounded(p.base, quote, p.quote);
    }
    Ok(PairAmounts { fee: p.fee, base, quote })
}

/// Starts the migration into an Astroport pair: computes the amounts,
/// registers the continuation, and appends to `resp` the transfer of the fee
/// and the call that creates the pair.
pub fn init_astroport_pair(store: &mut Store, resp: Response, msg: &InstantiateMsg) -> (r: Result<
    Response,
    ContractError,
>)
    ensures
        (response_result_view(r), final(store)@) == spec_init_astroport_pair(
            old(store)@,
            resp@,
            msg@,
        ),
        r matches Err(ContractError::DuplicateCorrelationId { id }) ==> id == old(
            store,
        ).reply_id_counter + 1,
        old(store).wf() ==> final(store).wf() && !(r matches Err(
            ContractError::DuplicateCorrelationId { .. },
        )),
{
    let p = astroport_pair_amounts(msg.quote.amount, msg.base.amount, msg.vl)?;
    let create = create_pair(
        store,
        TokenAmount { token: msg.base.token.clone(), amount: p.base },
        TokenAmount { token: msg.quote.token.clone(), amount: p.quote },
        LP_TOKEN_CREATION_FEE,
    )?;
    let fee = msg.quote.token.transfer(msg.fee_recipient.as_str(), p.fee)?;
    Ok(resp.add_submessage(fee).add_submessage(create))
}

/// The call that hands the assets to the pair: liquidity goes to
/// `vault_contract_addr`, nothing is staked, and whatever ratio the pair
/// assigns is accepted: no slippage bound and no minimum output are set.
pub open spec fn spec_provide_liquidity(
    vault_contract_addr: Seq<char>,
    pair_addr: Seq<char>,
    assets: Seq<AssetView>,
    funds: Seq<CoinView>,
) -> SubMsgView {
    SubMsgView {
        reply_id: None,
        msg: CosmosMsgView::WasmExecute {
            contract_addr: pair_addr,
            msg: PayloadView::AstroportProvideLiquidity(
                LiquidityView {
                    assets,
                    slippage_tolerance: None,
                    auto_stake: Some(false),
                    receiver: Some(vault_contract_addr),
                    min_lp_to_receive: None,
                },
            ),
            funds,
        },
    }
}

/// Describes the call that provides liquidity to a pair.
pub fn provide_liquidity_to_astroport_pair(
    vault_contract_addr: String,
    pair_addr: String,
    assets: Vec<Asset>,
    funds: Vec<Coin>,
) -> (r: Result<SubMsg, ContractError>)
    ensures
        r matches Ok(m) && m@ == spec_provide_liquidity(
            vault_contract_addr@,
            pair_addr@,
            assets_view(assets@),
            coins_view(funds@),
        ),
{
    Ok(
        SubMsg::new(
            CosmosMsg::WasmExecute {
                funds,
                contract_addr: pair_addr,
                msg: Payload::AstroportProvideLiquidity {
                    assets,
                    slippage_tolerance: None,
                    auto_stake: Some(false),
                    receiver: Some(vault_contract_addr),
                    min_lp_to_receive: None,
                },
            },
        ),
    )
}

/// The question that follows a reply: a failed creation ends here with the
/// exchange's own words; a continuation without two assets is malformed;
/// otherwise the factory is asked for the pair of the first two assets.
pub open spec fn spec_astroport_pair_query(
    failure: Option<Seq<char>>,
    assets: Seq<AssetView>,
) -> Result<PairQueryView, ErrorKind> {
    if failure is Some {
        Err(ErrorKind::Exchange)
    } else if assets.len() < 2 {
        Err(ErrorKind::Validation)
    } else {
        Ok(
            PairQueryView {
                factory_addr: STARGAZE_ASTROPORT_FACTORY_ADDR@,
                msg: FactoryQueryMsgView::AstroportPair {
                    asset_infos: seq![assets[0].info, assets[1].info],
                },
            },
        )
    }
}

/// Decides what to ask the factory after the reply to a pair creation.
pub fn astroport_pair_query(reply: &Reply, state: &AstroportCreatePairState) -> (r: Result<
    PairQuery,
    ContractError,
>)
    ensures
        match r {
            Ok(q) => spec_astroport_pair_query(failure_of(*reply), assets_view(state.assets@))
                == Ok::<PairQueryView, ErrorKind>(q@),
            Err(e) => spec_astroport_pair_query(failure_of(*reply), assets_view(state.assets@))
                == Err::<PairQueryView, ErrorKind>(e.kind()),
        },
        r matches Err(e) ==> failure_of(*reply) is Some ==> carries_failure(e, *reply),
        r matches Err(ContractError::ValidationError { reason }) ==> reason@ == TOO_FEW_ASSETS@,
{
    match &reply.result {
        SubMsgResult::Failure(text) => Err(ContractError::Std { msg: text.clone() }),
        SubMsgResult::Success => {
            if state.assets.len() < 2 {
                return Err(
                    ContractError::ValidationError {
                        reason: TOO_FEW_ASSETS.to_owned(),
                    },
                );
            }
            let asset_infos = vec![state.assets[0].info.clone(), state.assets[1].info.clone()];
            proof {
                assert(infos_view(asset_infos@) =~= seq![
                    assets_view(state.assets@)[0].info,
                    assets_view(state.assets@)[1].info,
                ]);
            }
            Ok(
                PairQuery {
                    factory_addr: STARGAZE_ASTROPORT_FACTORY_ADDR.to_owned(),
                    msg: FactoryQueryMsg::AstroportPair { asset_infos },
                },
            )
        },
    }
}

/// What the reply to a pair creation leads to, given the pair address that
/// the factory reported: a failed creation fails and changes nothing;
/// otherwise the address is kept, the continuation of the reply is no longer
/// pending, and liquidity is provided to the pair.
pub open spec fn spec_on_astroport_create_pair_reply(
    s: StoreView,
    contract_addr: Seq<char>,
    reply_id: u64,
    failure: Option<Seq<char>>,
    assets: Seq<AssetView>,
    funds: Seq<CoinView>,
    pair_contract_addr: Seq<char>,
) -> (Result<ResponseView, ErrorKind>, StoreView) {
    if failure is Some {
        (Err(ErrorKind::Exchange), s)
    } else {
        (
            Ok(
                ResponseView::empty().push(
                    spec_provide_liquidity(contract_addr, pair_contract_addr, assets, funds),
                ),
            ),
            StoreView {
                astroport_pair_addr: Some(pair_contract_addr),
                reply_handlers: s.reply_handlers.remove(reply_id),
                ..s
            },
        )
    }
}

/// Finishes an Astroport pair creation once the factory has reported the
/// pair's address.
pub fn on_astroport_create_pair_reply(
    store: &mut Store,
    contract_addr: String,
    reply: &Reply,
    state: AstroportCreatePairState,
    pair_contract_addr: String,
) -> (r: Result<Response, ContractError>)
    ensures
        (response_result_view(r), final(store)@) == spec_on_astroport_create_pair_reply(
            old(store)@,
            contract_addr@,
            reply.id,
            failure_of(*reply),
            assets_view(state.assets@),
            coins_view(state.funds@),
            pair_contract_addr@,
        ),
        r matches Err(e) ==> carries_failure(e, *reply),
        old(store).wf() ==> final(store).wf(),
{
    broadcast use vstd::std_specs::hash::group_hash_axioms;

    match &reply.result {
        SubMsgResult::Failure(text) => Err(ContractError::Std { msg: text.clone() }),
        SubMsgResult::Success => {
            store.astroport_pair_addr = Some(pair_contract_addr.clone());
            store.reply_handlers.remove(&reply.id);
            proof {
                assert(store@.reply_handlers =~= old(store)@.reply_handlers.remove(reply.id));
            }
            let m = provide_liquidity_to_astroport_pair(
                contract_addr,
                pair_contract_addr,
                state.assets,
                state.funds,
            )?;
            Ok(Response::new().add_submessage(m))
        },
    }
}

} // verus!
