//! Migration of a bonding-curve pool into an exchange pair: fee and amount
//! arithmetic, the reply-correlation registry, and the per-exchange plays that
//! build the outbound calls and interpret their replies.

pub mod calls;
pub mod error;
pub mod integrations;
pub mod math;
pub mod msg;
pub mod plays;
pub mod state;
pub mod tokens;
