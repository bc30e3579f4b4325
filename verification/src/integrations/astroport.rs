use vstd::prelude::*;

verus! {

/// The address that calls to the Astroport pair factory go to. It names no
/// live deployment: a deployment writes its factory's address here.
pub const STARGAZE_ASTROPORT_FACTORY_ADDR: &'static str =
    "stars1astroportfactory0000000000000000000000000000000000000000";

/// The kind of a pair.
#[derive(Debug, PartialEq, Eq)]
pub enum PairType {
    /// A constant-product pair.
    Xyk,
    /// A pair for assets of like value.
    Stable,
    /// A pair of a kind that the factory knows by name.
    Custom(String),
}

pub enum PairTypeView {
    Xyk,
    Stable,
    Custom(Seq<char>),
}

impl View for PairType {
    type V = PairTypeView;

    open spec fn view(&self) -> PairTypeView {
        match self {
            PairType::Xyk => PairTypeView::Xyk,
            PairType::Stable => PairTypeView::Stable,
            PairType::Custom(name) => PairTypeView::Custom(name@),
        }
    }
}

/// What a pool asset is: issued by a contract, or native to the ledger.
#[derive(Debug, PartialEq, Eq)]
pub enum AssetInfo {
    Token { contract_addr: String },
    NativeToken { denom: String },
}

pub enum AssetInfoView {
    Token { contract_addr: Seq<char> },
    NativeToken { denom: Seq<char> },
}

impl View for AssetInfo {
    type V = AssetInfoView;

    open spec fn view(&self) -> AssetInfoView {
        match self {
            AssetInfo::Token { contract_addr } => AssetInfoView::Token {
                contract_addr: contract_addr@,
            },
            AssetInfo::NativeToken { denom } => AssetInfoView::NativeToken { denom: denom@ },
        }
    }
}

impl Clone for AssetInfo {
    fn clone(&self) -> (r: Self)
        ensures
            r == *self,
    {
        match self {
            AssetInfo::Token { contract_addr } => AssetInfo::Token {
                contract_addr: contract_addr.clone(),
            },
            AssetInfo::NativeToken { denom } => AssetInfo::NativeToken { denom: denom.clone() },
        }
    }
}

/// An amount of one pool asset.
#[derive(Debug, PartialEq, Eq)]
pub struct Asset {
    pub info: AssetInfo,
    pub amount: u128,
}

pub struct AssetView {
    pub info: AssetInfoView,
    pub amount: u128,
}

impl View for Asset {
    type V = AssetView;

    open spec fn view(&self) -> AssetView {
        AssetView { info: self.info@, amount: self.amount }
    }
}

pub open spec fn infos_view(s: Seq<AssetInfo>) -> Seq<AssetInfoView> {
    s.map_values(|a: AssetInfo| a@)
}

pub open spec fn assets_view(s: Seq<Asset>) -> Seq<AssetView> {
    s.map_values(|a: Asset| a@)
}

} // verus!
