pub mod astroport;
pub mod dojoswap;
