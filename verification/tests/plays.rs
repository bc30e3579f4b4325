use pair_migrator::calls::{
    Attribute, Coin, CosmosMsg, FactoryQueryMsg, PairQuery, Payload, Response, SubMsg,
};
use pair_migrator::error::ContractError;
use pair_migrator::integrations::astroport::{
    Asset, AssetInfo, PairType, STARGAZE_ASTROPORT_FACTORY_ADDR,
};
use pair_migrator::integrations::dojoswap::{
    DojoswapAsset, DojoswapAssetInfo, DojoswapFactoryExecuteMsg, DojoswapFactoryQueryMsg,
    DojoswapPairExecuteMsg, DojoswapPairInfo, DOJOSWAP_PAIR_FACTORY_ADDR,
};
use pair_migrator::msg::{
    ConfigResponse, ExecuteMsg, InstantiateMsg, MigrateMsg, QueryMsg, PLAY_INIT_ASTROPORT_PAIR,
    PLAY_INIT_DOJOSWAP_PAIR,
};
use pair_migrator::plays::init_astroport_pair::{
    astroport_pair_query, create_pair, init_astroport_pair, on_astroport_create_pair_reply,
    provide_liquidity_to_astroport_pair,
};
use pair_migrator::plays::init_dojoswap_pair::{
    dojoswap_pair_query, init_dojoswap_pair, on_dojoswap_create_pair_reply,
};
use pair_migrator::state::models::{
    AstroportCreatePairState, Config, DojoswapCreatePairState, MigrationConfig, Reply,
    ReplyHandler, SubMsgResult, TOO_FEW_ASSETS,
};
use pair_migrator::state::storage::Store;
use pair_migrator::state::{init, resolve_reply};
use pair_migrator::tokens::{Token, TokenAmount};

const T: u128 = 1_000_000_000_000;

fn native(denom: &str, amount: u128) -> TokenAmount {
    TokenAmount { token: Token::Denom(denom.to_string()), amount }
}

fn request(play: &str, quote: TokenAmount, base: TokenAmount, vl: u128) -> InstantiateMsg {
    InstantiateMsg {
        vl,
        quote,
        base,
        manager: "manager1".to_string(),
        fee_recipient: "fees1".to_string(),
        play: play.to_string(),
    }
}

fn native_info(denom: &str) -> AssetInfo {
    AssetInfo::NativeToken { denom: denom.to_string() }
}

fn coin(denom: &str, amount: u128) -> Coin {
    Coin { denom: denom.to_string(), amount }
}

fn astroport_state() -> AstroportCreatePairState {
    AstroportCreatePairState {
        assets: vec![
            Asset { info: native_info("uzzz"), amount: 494_950_000_000 },
            Asset { info: native_info("uaaa"), amount: 989_900_000_000 },
        ],
        funds: vec![coin("uzzz", 494_950_000_000), coin("uaaa", 989_900_000_000)],
    }
}

#[test]
fn astroport_play_with_native_tokens() {
    let mut store = Store::new();
    let msg = request(PLAY_INIT_ASTROPORT_PAIR, native("uaaa", T), native("uzzz", T), T);
    let resp = init(&mut store, "creator1", 1_700_000_000_000_000_000, &msg).unwrap();

    assert_eq!(
        resp.attributes,
        vec![Attribute { key: "action".to_string(), value: "instantiate".to_string() }]
    );
    assert_eq!(resp.messages.len(), 2);
    assert_eq!(
        resp.messages[0],
        SubMsg {
            reply_id: None,
            msg: CosmosMsg::BankSend {
                to_address: "fees1".to_string(),
                amount: vec![coin("uaaa", 10_000_000_000)],
            },
        }
    );
    assert_eq!(
        resp.messages[1],
        SubMsg {
            reply_id: Some(1),
            msg: CosmosMsg::WasmExecute {
                contract_addr: STARGAZE_ASTROPORT_FACTORY_ADDR.to_string(),
                msg: Payload::AstroportCreatePair {
                    pair_type: PairType::Xyk,
                    asset_infos: vec![native_info("uaaa"), native_info("uzzz")],
                    init_params: None,
                },
                funds: vec![coin("uaaa", 100_000_000)],
            },
        }
    );
    assert_eq!(store.reply_id_counter, 1);
    assert_eq!(store.reply_handlers.len(), 1);
    assert_eq!(
        store.reply_handlers.get(&1),
        Some(&ReplyHandler::AstroportCreatePair(astroport_state()))
    );
    assert_eq!(store.config, Some(Config {}));
    assert_eq!(
        store.migration,
        Some(MigrationConfig {
            manager: "manager1".to_string(),
            created_by: "creator1".to_string(),
            created_at: 1_700_000_000_000_000_000,
            play: "init_astroport_pair".to_string(),
            base: native("uzzz", T),
            quote: native("uaaa", T),
            vl: T,
        })
    );

    // the reply to the creation
    let reply = Reply { id: 1, result: SubMsgResult::Success };
    let (handler, query) = resolve_reply(&mut store, &reply).unwrap();
    assert!(store.reply_handlers.is_empty());
    assert_eq!(
        query,
        PairQuery {
            factory_addr: STARGAZE_ASTROPORT_FACTORY_ADDR.to_string(),
            msg: FactoryQueryMsg::AstroportPair {
                asset_infos: vec![native_info("uzzz"), native_info("uaaa")],
            },
        }
    );
    let resp = handler
        .handle(&mut store, "vault1".to_string(), &reply, "pair1".to_string())
        .unwrap();
    assert_eq!(store.astroport_pair_addr, Some("pair1".to_string()));
    assert_eq!(store.dojoswap_pair_addr, None);
    assert!(resp.attributes.is_empty());
    assert_eq!(
        resp.messages,
        vec![SubMsg {
            reply_id: None,
            msg: CosmosMsg::WasmExecute {
                contract_addr: "pair1".to_string(),
                msg: Payload::AstroportProvideLiquidity {
                    assets: astroport_state().assets,
                    slippage_tolerance: None,
                    auto_stake: Some(false),
                    receiver: Some("vault1".to_string()),
                    min_lp_to_receive: None,
                },
                funds: astroport_state().funds,
            },
        }]
    );

    // a replayed reply finds nothing
    assert_eq!(
        resolve_reply(&mut store, &reply),
        Err(ContractError::UnknownCorrelationId { id: 1 })
    );
}

#[test]
fn astroport_play_keeps_sorted_denominations() {
    let mut store = Store::new();
    let m = create_pair(&mut store, native("uaaa", 5), native("uzzz", 6), 7).unwrap();
    assert_eq!(
        m,
        SubMsg {
            reply_id: Some(1),
            msg: CosmosMsg::WasmExecute {
                contract_addr: STARGAZE_ASTROPORT_FACTORY_ADDR.to_string(),
                msg: Payload::AstroportCreatePair {
                    pair_type: PairType::Xyk,
                    asset_infos: vec![native_info("uaaa"), native_info("uzzz")],
                    init_params: None,
                },
                funds: vec![coin("uzzz", 7)],
            },
        }
    );
    assert_eq!(
        store.reply_handlers.get(&1),
        Some(&ReplyHandler::AstroportCreatePair(AstroportCreatePairState {
            assets: vec![
                Asset { info: native_info("uaaa"), amount: 5 },
                Asset { info: native_info("uzzz"), amount: 6 },
            ],
            funds: vec![coin("uaaa", 5), coin("uzzz", 6)],
        }))
    );
}

#[test]
fn astroport_play_rejects_contract_tokens() {
    let mut store = Store::new();
    let contract = TokenAmount { token: Token::Address("c1".to_string()), amount: 5 };
    assert_eq!(
        create_pair(&mut store, contract, native("uzzz", 6), 7),
        Err(ContractError::UnsupportedToken)
    );
    let contract = TokenAmount { token: Token::Address("c1".to_string()), amount: 5 };
    assert_eq!(
        create_pair(&mut store, native("uzzz", 6), contract, 7),
        Err(ContractError::UnsupportedToken)
    );
    assert_eq!(store.reply_id_counter, 0);
    assert!(store.reply_handlers.is_empty());
}

#[test]
fn create_pair_with_exhausted_counter() {
    let mut store = Store::new();
    store.reply_id_counter = u64::MAX;
    assert_eq!(
        create_pair(&mut store, native("a", 1), native("b", 1), 1),
        Err(ContractError::ArithmeticOverflow)
    );
    assert!(store.reply_handlers.is_empty());
}

#[test]
fn create_pair_with_taken_id() {
    let mut store = Store::new();
    store.reply_handlers.insert(
        1,
        ReplyHandler::DojoswapCreatePair(DojoswapCreatePairState { asset_infos: vec![] }),
    );
    assert_eq!(
        create_pair(&mut store, native("a", 1), native("b", 1), 1),
        Err(ContractError::DuplicateCorrelationId { id: 1 })
    );
    assert_eq!(store.reply_id_counter, 1);
    assert_eq!(store.reply_handlers.len(), 1);
}

#[test]
fn astroport_play_below_creation_fee() {
    let mut store = Store::new();
    let msg = request(
        PLAY_INIT_ASTROPORT_PAIR,
        native("uaaa", 1_000_000),
        native("uzzz", 1_000_000),
        1_000_000,
    );
    let r = init_astroport_pair(&mut store, Response::new(), &msg);
    assert_eq!(r, Err(ContractError::ArithmeticUnderflow));
    assert_eq!(store.reply_id_counter, 0);
    assert!(store.reply_handlers.is_empty());
}

#[test]
fn astroport_play_appends_to_the_response() {
    let mut store = Store::new();
    let msg = request(PLAY_INIT_ASTROPORT_PAIR, native("uaaa", T), native("uzzz", T), T);
    let first = SubMsg::new(CosmosMsg::BankSend { to_address: "x".to_string(), amount: vec![] });
    let resp = init_astroport_pair(&mut store, Response::new().add_submessage(first), &msg)
        .unwrap();
    assert_eq!(resp.messages.len(), 3);
    assert_eq!(
        resp.messages[0],
        SubMsg::new(CosmosMsg::BankSend { to_address: "x".to_string(), amount: vec![] })
    );
    assert_eq!(resp.messages[2].reply_id, Some(1));
}

#[test]
fn dojoswap_play_with_contract_quote_token() {
    let mut store = Store::new();
    let quote = TokenAmount { token: Token::Address("cw20contract".to_string()), amount: T };
    let msg = request(PLAY_INIT_DOJOSWAP_PAIR, quote, native("inj", T), T);
    let r = init(&mut store, "creator1", 5, &msg);
    assert_eq!(
        r,
        Err(ContractError::NotImplemented {
            reason: "cw20 tokens not supported for dojoswap pool initialization".to_string(),
        })
    );
    assert_eq!(store.reply_id_counter, 0);
    assert!(store.reply_handlers.is_empty());
}

#[test]
fn dojoswap_play_with_contract_base_token() {
    let mut store = Store::new();
    let base = TokenAmount { token: Token::Address("cw20contract".to_string()), amount: T };
    let msg = request(PLAY_INIT_DOJOSWAP_PAIR, native("inj", T), base, T);
    let r = init_dojoswap_pair(&mut store, Response::new(), &msg);
    assert!(matches!(r, Err(ContractError::NotImplemented { .. })));
    assert!(store.reply_handlers.is_empty());
}

#[test]
fn dojoswap_play_with_native_tokens() {
    let mut store = Store::new();
    let msg = request(
        PLAY_INIT_DOJOSWAP_PAIR,
        native("inj", 1_000_000),
        native("upamp", 1_000_000),
        1_000_000,
    );
    let resp = init(&mut store, "creator1", 5, &msg).unwrap();
    assert_eq!(
        resp.attributes,
        vec![Attribute { key: "action".to_string(), value: "instantiate".to_string() }]
    );
    let quote_info = DojoswapAssetInfo::NativeToken { denom: "inj".to_string() };
    let base_info = DojoswapAssetInfo::NativeToken { denom: "upamp".to_string() };
    assert_eq!(
        resp.messages,
        vec![
            SubMsg {
                reply_id: None,
                msg: CosmosMsg::BankSend {
                    to_address: "fees1".to_string(),
                    amount: vec![coin("inj", 10_000)],
                },
            },
            SubMsg {
                reply_id: Some(1),
                msg: CosmosMsg::WasmExecute {
                    contract_addr: DOJOSWAP_PAIR_FACTORY_ADDR.to_string(),
                    msg: Payload::DojoswapFactory(DojoswapFactoryExecuteMsg::CreatePair {
                        assets: [
                            DojoswapAsset { info: quote_info.clone(), amount: 990_000 },
                            DojoswapAsset { info: base_info.clone(), amount: 495_000 },
                        ],
                    }),
                    funds: vec![coin("inj", 990_000), coin("upamp", 495_000)],
                },
            },
        ]
    );
    assert_eq!(store.reply_id_counter, 1);
    assert_eq!(
        store.reply_handlers.get(&1),
        Some(&ReplyHandler::DojoswapCreatePair(DojoswapCreatePairState {
            asset_infos: vec![quote_info.clone(), base_info.clone()],
        }))
    );
    let quote_again = quote_info.clone();
    let base_again = base_info.clone();

    let reply = Reply { id: 1, result: SubMsgResult::Success };
    let (handler, query) = resolve_reply(&mut store, &reply).unwrap();
    assert_eq!(
        query,
        PairQuery {
            factory_addr: "inj1pc2vxcmnyzawnwkf03n2ggvt997avtuwagqngk".to_string(),
            msg: FactoryQueryMsg::Dojoswap(DojoswapFactoryQueryMsg::Pair {
                asset_infos: [quote_info, base_info],
            }),
        }
    );
    let resp = handler
        .handle(&mut store, "vault1".to_string(), &reply, "dojopair1".to_string())
        .unwrap();
    assert!(resp.attributes.is_empty());
    assert_eq!(
        resp.messages,
        vec![SubMsg {
            reply_id: None,
            msg: CosmosMsg::WasmExecute {
                contract_addr: "dojopair1".to_string(),
                msg: Payload::DojoswapPair(DojoswapPairExecuteMsg::ProvideLiquidity {
                    assets: [
                        DojoswapAsset { info: quote_again, amount: 0 },
                        DojoswapAsset { info: base_again, amount: 0 },
                    ],
                    slippage_tolerance: None,
                    auto_stake: Some(false),
                    receiver: Some("vault1".to_string()),
                    min_lp_to_receive: None,
                }),
                funds: vec![],
            },
        }]
    );
    assert_eq!(store.dojoswap_pair_addr, Some("dojopair1".to_string()));
    assert_eq!(store.astroport_pair_addr, None);
    assert!(store.reply_handlers.is_empty());
}

#[test]
fn unrecognized_play() {
    let mut store = Store::new();
    let msg = request("init_unknown_pair", native("uaaa", T), native("uzzz", T), T);
    let r = init(&mut store, "creator1", 77, &msg);
    assert_eq!(
        r,
        Err(ContractError::ValidationError {
            reason: "unrecognized play: init_unknown_pair".to_string(),
        })
    );
    assert_eq!(store.config, Some(Config {}));
    let written = store.migration.unwrap();
    assert_eq!(written.play, "init_unknown_pair");
    assert_eq!(written.manager, "manager1");
    assert_eq!(written.created_by, "creator1");
    assert_eq!(written.created_at, 77);
    assert_eq!(written.vl, T);
    assert_eq!(store.reply_id_counter, 0);
    assert!(store.reply_handlers.is_empty());
    assert_eq!(store.astroport_pair_addr, None);
    assert_eq!(store.dojoswap_pair_addr, None);
}

#[test]
fn failed_creation_is_reported_verbatim() {
    let mut store = Store::new();
    store.register(4, ReplyHandler::AstroportCreatePair(astroport_state())).unwrap();
    let reply = Reply { id: 4, result: SubMsgResult::Failure("pair exists".to_string()) };
    assert_eq!(
        resolve_reply(&mut store, &reply),
        Err(ContractError::Std { msg: "pair exists".to_string() })
    );
    // the continuation is gone all the same
    assert!(store.reply_handlers.is_empty());

    assert_eq!(
        astroport_pair_query(&reply, &astroport_state()),
        Err(ContractError::Std { msg: "pair exists".to_string() })
    );
    let r = on_astroport_create_pair_reply(
        &mut store,
        "vault1".to_string(),
        &reply,
        astroport_state(),
        "pair1".to_string(),
    );
    assert_eq!(r, Err(ContractError::Std { msg: "pair exists".to_string() }));
    assert_eq!(store.astroport_pair_addr, None);

    let state = DojoswapCreatePairState { asset_infos: vec![] };
    assert_eq!(
        dojoswap_pair_query(&reply, &state),
        Err(ContractError::Std { msg: "pair exists".to_string() })
    );
    let r = on_dojoswap_create_pair_reply(
        &mut store,
        "vault1".to_string(),
        &reply,
        state,
        "pair1".to_string(),
    );
    assert_eq!(r, Err(ContractError::Std { msg: "pair exists".to_string() }));
    assert_eq!(store.dojoswap_pair_addr, None);
}

#[test]
fn reply_for_unknown_id() {
    let mut store = Store::new();
    store.register(4, ReplyHandler::AstroportCreatePair(astroport_state())).unwrap();
    let reply = Reply { id: 5, result: SubMsgResult::Success };
    assert_eq!(
        resolve_reply(&mut store, &reply),
        Err(ContractError::UnknownCorrelationId { id: 5 })
    );
    assert_eq!(store.reply_handlers.len(), 1);
}

#[test]
fn continuation_with_too_few_assets() {
    let reply = Reply { id: 1, result: SubMsgResult::Success };
    let short = AstroportCreatePairState { assets: vec![], funds: vec![] };
    assert_eq!(
        astroport_pair_query(&reply, &short),
        Err(ContractError::ValidationError {
            reason: "pair creation state holds fewer than two assets".to_string(),
        })
    );
    let short = DojoswapCreatePairState {
        asset_infos: vec![DojoswapAssetInfo::NativeToken { denom: "a".to_string() }],
    };
    assert_eq!(
        dojoswap_pair_query(&reply, &short),
        Err(ContractError::ValidationError { reason: TOO_FEW_ASSETS.to_string() })
    );
}

#[test]
fn dojoswap_reply_provides_liquidity_to_the_pair() {
    let mut store = Store::new();
    let a = DojoswapAssetInfo::NativeToken { denom: "inj".to_string() };
    let b = DojoswapAssetInfo::Token { contract_addr: "c1".to_string() };
    let state = DojoswapCreatePairState { asset_infos: vec![a.clone(), b.clone()] };
    store.register(3, ReplyHandler::DojoswapCreatePair(DojoswapCreatePairState {
        asset_infos: vec![a.clone(), b.clone()],
    }))
    .unwrap();
    let reply = Reply { id: 3, result: SubMsgResult::Success };
    let resp = on_dojoswap_create_pair_reply(
        &mut store,
        "self1".to_string(),
        &reply,
        state,
        "pairP".to_string(),
    )
    .unwrap();
    assert_eq!(resp.messages.len(), 1);
    assert_eq!(
        resp.messages[0],
        SubMsg {
            reply_id: None,
            msg: CosmosMsg::WasmExecute {
                contract_addr: "pairP".to_string(),
                msg: Payload::DojoswapPair(DojoswapPairExecuteMsg::ProvideLiquidity {
                    assets: [
                        DojoswapAsset { info: a, amount: 0 },
                        DojoswapAsset { info: b, amount: 0 },
                    ],
                    slippage_tolerance: None,
                    auto_stake: Some(false),
                    receiver: Some("self1".to_string()),
                    min_lp_to_receive: None,
                }),
                funds: vec![],
            },
        }
    );
    assert_eq!(store.dojoswap_pair_addr, Some("pairP".to_string()));
    assert!(store.reply_handlers.is_empty());
}

#[test]
fn dojoswap_reply_with_too_few_assets() {
    let mut store = Store::new();
    let reply = Reply { id: 3, result: SubMsgResult::Success };
    let short = DojoswapCreatePairState {
        asset_infos: vec![DojoswapAssetInfo::NativeToken { denom: "a".to_string() }],
    };
    let r = on_dojoswap_create_pair_reply(
        &mut store,
        "self1".to_string(),
        &reply,
        short,
        "pairP".to_string(),
    );
    assert_eq!(r, Err(ContractError::ValidationError { reason: TOO_FEW_ASSETS.to_string() }));
    assert_eq!(store.dojoswap_pair_addr, None);
}

#[test]
fn reply_handler_removes_its_continuation() {
    let mut store = Store::new();
    store.register(4, ReplyHandler::AstroportCreatePair(astroport_state())).unwrap();
    store.register(5, ReplyHandler::AstroportCreatePair(astroport_state())).unwrap();
    let reply = Reply { id: 4, result: SubMsgResult::Success };
    let r = on_astroport_create_pair_reply(
        &mut store,
        "vault1".to_string(),
        &reply,
        astroport_state(),
        "pair1".to_string(),
    );
    assert!(r.is_ok());
    assert!(!store.reply_handlers.contains_key(&4));
    assert!(store.reply_handlers.contains_key(&5));
}

#[test]
fn provide_liquidity_call() {
    let m = provide_liquidity_to_astroport_pair(
        "vault1".to_string(),
        "pair1".to_string(),
        vec![Asset { info: native_info("a"), amount: 1 }],
        vec![coin("a", 1)],
    )
    .unwrap();
    assert_eq!(
        m,
        SubMsg {
            reply_id: None,
            msg: CosmosMsg::WasmExecute {
                contract_addr: "pair1".to_string(),
                msg: Payload::AstroportProvideLiquidity {
                    assets: vec![Asset { info: native_info("a"), amount: 1 }],
                    slippage_tolerance: None,
                    auto_stake: Some(false),
                    receiver: Some("vault1".to_string()),
                    min_lp_to_receive: None,
                },
                funds: vec![coin("a", 1)],
            },
        }
    );
}

#[test]
fn plain_messages() {
    assert_eq!(ExecuteMsg::SetConfig(Config {}), ExecuteMsg::SetConfig(Config {}));
    assert_eq!(QueryMsg::Config {}, QueryMsg::Config {});
    assert_eq!(MigrateMsg {}, MigrateMsg {});
    assert_eq!(ConfigResponse(Config {}).0, Config {});
    let info = DojoswapPairInfo {
        asset_infos: [
            DojoswapAssetInfo::NativeToken { denom: "a".to_string() },
            DojoswapAssetInfo::Token { contract_addr: "c".to_string() },
        ],
        contract_addr: "pair".to_string(),
        liquidity_token: "lp".to_string(),
        asset_decimals: [6, 18],
    };
    assert_eq!(info.contract_addr, "pair");
    assert_eq!(info.asset_decimals, [6, 18]);
}
