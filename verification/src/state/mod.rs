pub mod models;
pub mod storage;

use vstd::prelude::*;
use crate::calls::{response_result_view, PairQuery, PairQueryView, Response, ResponseView};
use crate::error::{ContractError, ErrorKind};
use crate::msg::{
    InstantiateMsg, InstantiateMsgView, PLAY_INIT_ASTROPORT_PAIR, PLAY_INIT_DOJOSWAP_PAIR,
};
use crate::plays::init_astroport_pair::{init_astroport_pair, spec_init_astroport_pair};
use crate::plays::init_dojoswap_pair::{
    init_dojoswap_pair, spec_init_dojoswap_pair, CW20_NOT_SUPPORTED,
};
use crate::state::models::{
    carries_failure, failure_of, spec_pair_query, Config, MigrationConfig, MigrationConfigView,
    Reply, ReplyHandler, TOO_FEW_ASSETS,
};
use crate::state::storage::{Store, StoreView};

verus! {

/// The key of the attribute that names what a request did.
pub const ATTR_ACTION: &'static str = "action";

/// What the creation of a migration reports as its action.
pub const ACTION_INSTANTIATE: &'static str = "instantiate";

/// How the reason of an unrecognized play begins.
pub const UNRECOGNIZED_PLAY: &'static str = "unrecognized play: ";

/// The store once the fields of a new migration are written: the settings,
/// the request's fields with its sender and time, and a counter at zero.
pub open spec fn spec_persist_config(
    s: StoreView,
    sender: Seq<char>,
    block_time: u64,
    msg: InstantiateMsgView,
) -> StoreView {
    StoreView {
        config: Some(Config {  }),
        migration: Some(
            MigrationConfigView {
                manager: msg.manager,
                created_by: sender,
                created_at: block_time,
                play: msg.play,
                base: msg.base,
                quote: msg.quote,
                vl: msg.vl,
            },
        ),
        reply_id_counter: 0,
        ..s
    }
}

/// The response that the creation of a migration starts from: it reports
/// the action and emits nothing yet.
pub open spec fn spec_instantiate_response() -> ResponseView {
    ResponseView::empty().attribute(ATTR_ACTION@, ACTION_INSTANTIATE@)
}

/// What `init` returns and leaves in the store: the fields of the migration
/// are written first, then the play that the request names takes over and
/// adds its calls to the response that reports the action. A play that is
/// not known fails with those fields written and nothing else.
pub open spec fn spec_init(
    s: StoreView,
    sender: Seq<char>,
    block_time: u64,
    msg: InstantiateMsgView,
) -> (Result<ResponseView, ErrorKind>, StoreView) {
    let written = spec_persist_config(s, sender, block_time, msg);
    if msg.play == PLAY_INIT_ASTROPORT_PAIR@ {
        spec_init_astroport_pair(written, spec_instantiate_response(), msg)
    } else if msg.play == PLAY_INIT_DOJOSWAP_PAIR@ {
        spec_init_dojoswap_pair(written, spec_instantiate_response(), msg)
    } else {
        (Err(ErrorKind::Validation), written)
    }
}

/// Creates the migration: writes its fields, sets the counter to zero and
/// hands over to the play named in the request. `sender` is who sent the
/// request and `block_time` when, in nanoseconds.
pub fn init(store: &mut Store, sender: &str, block_time: u64, msg: &InstantiateMsg) -> (r: Result<
    Response,
    ContractError,
>)
    ensures
        (response_result_view(r), final(store)@) == spec_init(
            old(store)@,
            sender@,
            block_time,
            msg@,
        ),
        r matches Err(ContractError::ValidationError { reason }) ==> reason@ == UNRECOGNIZED_PLAY@
            + msg.play@,
        r matches Err(ContractError::NotImplemented { reason }) ==> reason@ == CW20_NOT_SUPPORTED@,
        r matches Err(ContractError::DuplicateCorrelationId { id }) ==> id == 1,
        old(store)@.reply_handlers =~= Map::empty() ==> final(store).wf() && !(r matches Err(
            ContractError::DuplicateCorrelationId { .. },
        )),
{
    store.config = Some(Config {  });
    store.migration = Some(
        MigrationConfig {
            manager: msg.manager.clone(),
            created_by: sender.to_owned(),
            created_at: block_time,
            play: msg.play.clone(),
            base: msg.base.clone(),
            quote: msg.quote.clone(),
            vl: msg.vl,
        },
    );
    store.reply_id_counter = 0;
    proof {
        assert(store@ == spec_persist_config(old(store)@, sender@, block_time, msg@));
    }

    let resp = Response::new().add_attribute(ATTR_ACTION, ACTION_INSTANTIATE);
    let astroport: String = PLAY_INIT_ASTROPORT_PAIR.to_owned();
    let dojoswap: String = PLAY_INIT_DOJOSWAP_PAIR.to_owned();
    if msg.play == astroport {
        init_astroport_pair(store, resp, msg)
    } else if msg.play == dojoswap {
        init_dojoswap_pair(store, resp, msg)
    } else {
        Err(
            ContractError::ValidationError {
                reason: UNRECOGNIZED_PLAY.to_owned().concat(msg.play.as_str()),
            },
        )
    }
}

/// Takes up a reply: its continuation leaves the store, whatever the reply
/// says, and decides what to ask the exchange next. A reply under an id with
/// nothing pending fails and changes nothing. A reply that reports a failure
/// fails with the exchange's own words.
pub fn resolve_reply(store: &mut Store, reply: &Reply) -> (r: Result<
    (ReplyHandler, PairQuery),
    ContractError,
>)
    ensures
        old(store).wf() ==> final(store).wf(),
        !old(store)@.reply_handlers.contains_key(reply.id) ==> r == Err::<
            (ReplyHandler, PairQuery),
            ContractError,
        >(ContractError::UnknownCorrelationId { id: reply.id }) && *final(store) == *old(store),
        old(store)@.reply_handlers.contains_key(reply.id) ==> {
            let h = old(store)@.reply_handlers[reply.id];
            &&& final(store)@ == (StoreView {
                reply_handlers: old(store)@.reply_handlers.remove(reply.id),
                ..old(store)@
            })
            &&& match r {
                Ok(next) => next.0@ == h && spec_pair_query(h, failure_of(*reply)) == Ok::<
                    PairQueryView,
                    ErrorKind,
                >(next.1@),
                Err(e) => spec_pair_query(h, failure_of(*reply)) == Err::<PairQueryView, ErrorKind>(
                    e.kind(),
                ) && (failure_of(*reply) is Some ==> carries_failure(e, *reply)) && (e matches
                ContractError::ValidationError { reason } ==> reason@ == TOO_FEW_ASSETS@),
            }
        },
{
    let handler = store.resolve(reply.id)?;
    let query = handler.pair_query(reply)?;
    Ok((handler, query))
}

} // verus!
