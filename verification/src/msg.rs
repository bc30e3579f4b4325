use vstd::prelude::*;
use crate::state::models::Config;
use crate::tokens::{TokenAmount, TokenAmountView};

verus! {

/// The play that migrates into an Astroport pair.
pub const PLAY_INIT_ASTROPORT_PAIR: &'static str = "init_astroport_pair";

/// The play that migrates into a Dojoswap pair.
pub const PLAY_INIT_DOJOSWAP_PAIR: &'static str = "init_dojoswap_pair";

/// The request that creates a migration. Every field is required.
#[derive(Debug, PartialEq, Eq)]
pub struct InstantiateMsg {
    /// The initial virtual liquidity.
    pub vl: u128,
    pub quote: TokenAmount,
    pub base: TokenAmount,
    pub manager: String,
    pub fee_recipient: String,
    pub play: String,
}

pub struct InstantiateMsgView {
    pub vl: u128,
    pub quote: TokenAmountView,
    pub base: TokenAmountView,
    pub manager: Seq<char>,
    pub fee_recipient: Seq<char>,
    pub play: Seq<char>,
}

impl View for InstantiateMsg {
    type V = InstantiateMsgView;

    open spec fn view(&self) -> InstantiateMsgView {
        InstantiateMsgView {
            vl: self.vl,
            quote: self.quote@,
            base: self.base@,
            manager: self.manager@,
            fee_recipient: self.fee_recipient@,
            play: self.play@,
        }
    }
}

#[derive(Clone, Copy, Debug, PartialEq, Eq, Structural)]
pub enum ExecuteMsg {
    SetConfig(Config),
}

#[derive(Clone, Copy, Debug, PartialEq, Eq, Structural)]
pub enum QueryMsg {
    Config {  },
}

#[derive(Clone, Copy, Debug, PartialEq, Eq, Structural)]
pub struct MigrateMsg {}

#[derive(Clone, Copy, Debug, PartialEq, Eq, Structural)]
pub struct ConfigResponse(pub Config);

} // verus!
