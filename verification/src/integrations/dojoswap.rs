use vstd::prelude::*;
use crate::integrations::astroport::{AssetInfoView, AssetView};

verus! {

/// The address of the Dojoswap pair factory.
pub const DOJOSWAP_PAIR_FACTORY_ADDR: &'static str = "inj1pc2vxcmnyzawnwkf03n2ggvt997avtuwagqngk";

#[derive(Debug, PartialEq, Eq)]
pub enum DojoswapAssetInfo {
    Token { contract_addr: String },
    NativeToken { denom: String },
}

impl View for DojoswapAssetInfo {
    type V = AssetInfoView;

    open spec fn view(&self) -> AssetInfoView {
        match self {
            DojoswapAssetInfo::Token { contract_addr } => AssetInfoView::Token {
                contract_addr: contract_addr@,
            },
            DojoswapAssetInfo::NativeToken { denom } => AssetInfoView::NativeToken {
                denom: denom@,
            },
        }
    }
}

impl Clone for DojoswapAssetInfo {
    fn clone(&self) -> (r: Self)
        ensures
            r == *self,
    {
        match self {
            DojoswapAssetInfo::Token { contract_addr } => DojoswapAssetInfo::Token {
                contract_addr: contract_addr.clone(),
            },
            DojoswapAssetInfo::NativeToken { denom } => DojoswapAssetInfo::NativeToken {
                denom: denom.clone(),
            },
        }
    }
}

#[derive(Debug, PartialEq, Eq)]
pub struct DojoswapAsset {
    pub info: DojoswapAssetInfo,
    pub amount: u128,
}

impl View for DojoswapAsset {
    type V = AssetView;

    open spec fn view(&self) -> AssetView {
        AssetView { info: self.info@, amount: self.amount }
    }
}

pub open spec fn dojo_infos_view(s: Seq<DojoswapAssetInfo>) -> Seq<AssetInfoView> {
    s.map_values(|a: DojoswapAssetInfo| a@)
}

pub open spec fn dojo_assets_view(s: Seq<DojoswapAsset>) -> Seq<AssetView> {
    s.map_values(|a: DojoswapAsset| a@)
}

/// What the factory is asked to execute.
#[derive(Debug, PartialEq, Eq)]
pub enum DojoswapFactoryExecuteMsg {
    CreatePair { assets: [DojoswapAsset; 2] },
}

/// What a pair is asked to execute. The slippage tolerance is in units of
/// 10^-18.
#[derive(Debug, PartialEq, Eq)]
pub enum DojoswapPairExecuteMsg {
    ProvideLiquidity {
        assets: [DojoswapAsset; 2],
        slippage_tolerance: Option<u128>,
        auto_stake: Option<bool>,
        receiver: Option<String>,
        min_lp_to_receive: Option<u128>,
    },
}

/// What the factory is asked to look up.
#[derive(Debug, PartialEq, Eq)]
pub enum DojoswapFactoryQueryMsg {
    Pair { asset_infos: [DojoswapAssetInfo; 2] },
}

/// The factory's answer to a pair lookup.
#[derive(Debug, PartialEq, Eq)]
pub struct DojoswapPairInfo {
    pub asset_infos: [DojoswapAssetInfo; 2],
    pub contract_addr: String,
    pub liquidity_token: String,
    pub asset_decimals: [u8; 2],
}

} // verus!
