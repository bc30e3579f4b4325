use vstd::prelude::*;
use std::collections::HashMap;
use crate::error::{ContractError, ErrorKind};
use crate::math::{add_u64, spec_add_u64};
use crate::state::models::{Config, MigrationConfig, MigrationConfigView, ReplyHandler, ReplyHandlerView};

verus! {

broadcast use vstd::std_specs::hash::group_hash_axioms;

/// Everything the contract persists.
#[derive(Debug)]
pub struct Store {
    pub config: Option<Config>,
    pub migration: Option<MigrationConfig>,
    /// The last correlation id issued.
    pub reply_id_counter: u64,
    /// The continuations of the calls in flight, by correlation id.
    pub reply_handlers: HashMap<u64, ReplyHandler>,
    pub astroport_pair_addr: Option<String>,
    pub dojoswap_pair_addr: Option<String>,
}

pub struct StoreView {
    pub config: Option<Config>,
    pub migration: Option<MigrationConfigView>,
    pub reply_id_counter: u64,
    pub reply_handlers: Map<u64, ReplyHandlerView>,
    pub astroport_pair_addr: Option<Seq<char>>,
    pub dojoswap_pair_addr: Option<Seq<char>>,
}

pub open spec fn handlers_view(m: Map<u64, ReplyHandler>) -> Map<u64, ReplyHandlerView> {
    m.map_values(|h: ReplyHandler| h@)
}

pub open spec fn text_view(s: Option<String>) -> Option<Seq<char>> {
    match s {
        Some(t) => Some(t@),
        None => None,
    }
}

impl View for Store {
    type V = StoreView;

    open spec fn view(&self) -> StoreView {
        StoreView {
            config: self.config,
            migration: match self.migration {
                Some(m) => Some(m@),
                None => None,
            },
            reply_id_counter: self.reply_id_counter,
            reply_handlers: handlers_view(self.reply_handlers@),
            astroport_pair_addr: text_view(self.astroport_pair_addr),
            dojoswap_pair_addr: text_view(self.dojoswap_pair_addr),
        }
    }
}

/// The id that follows `counter`, where there is one.
pub open spec fn spec_next_id(counter: u64) -> Result<u64, ErrorKind> {
    spec_add_u64(counter, 1)
}

/// The id issued after `n` others, starting from `counter`.
pub open spec fn spec_nth_id(counter: u64, n: nat) -> Result<u64, ErrorKind>
    decreases n,
{
    match spec_next_id(counter) {
        Err(e) => Err(e),
        Ok(id) => if n == 0 {
            Ok(id)
        } else {
            spec_nth_id(id, (n - 1) as nat)
        },
    }
}

/// The pending continuations after `h` is registered under `id`.
pub open spec fn spec_register(
    pending: Map<u64, ReplyHandlerView>,
    id: u64,
    h: ReplyHandlerView,
) -> Result<Map<u64, ReplyHandlerView>, ErrorKind> {
    if pending.contains_key(id) {
        Err(ErrorKind::DuplicateCorrelationId)
    } else {
        Ok(pending.insert(id, h))
    }
}

/// The continuation pending under `id`, and what stays pending without it.
pub open spec fn spec_resolve(pending: Map<u64, ReplyHandlerView>, id: u64) -> Result<
    (ReplyHandlerView, Map<u64, ReplyHandlerView>),
    ErrorKind,
> {
    if pending.contains_key(id) {
        Ok((pending[id], pending.remove(id)))
    } else {
        Err(ErrorKind::UnknownCorrelationId)
    }
}

impl Store {
    /// No pending continuation has an id beyond the last one issued, so the
    /// next id issued is free.
    pub open spec fn wf(&self) -> bool {
        forall|id: u64| #[trigger]
            self@.reply_handlers.contains_key(id) ==> id <= self.reply_id_counter
    }

    /// A store in which nothing has been written.
    pub fn new() -> (s: Store)
        ensures
            s.wf(),
            s@ == (StoreView {
                config: None,
                migration: None,
                reply_id_counter: 0,
                reply_handlers: Map::empty(),
                astroport_pair_addr: None,
                dojoswap_pair_addr: None,
            }),
    {
        let s = Store {
            config: None,
            migration: None,
            reply_id_counter: 0,
            reply_handlers: HashMap::new(),
            astroport_pair_addr: None,
            dojoswap_pair_addr: None,
        };
        proof {
            assert(s@.reply_handlers =~= Map::empty());
        }
        s
    }

    /// Issues the next correlation id: one more than the last. Fails, and
    /// changes nothing, when the counter is exhausted.
    pub fn next_id(&mut self) -> (r: Result<u64, ContractError>)
        ensures
            old(self).wf() ==> final(self).wf(),
            match r {
                Ok(id) => spec_next_id(old(self).reply_id_counter) == Ok::<u64, ErrorKind>(id)
                    && id > old(self).reply_id_counter
                    && (old(self).wf() ==> !old(self)@.reply_handlers.contains_key(id))
                    && final(self)@ == (StoreView { reply_id_counter: id, ..old(self)@ }),
                Err(e) => spec_next_id(old(self).reply_id_counter) == Err::<u64, ErrorKind>(
                    e.kind(),
                ) && *final(self) == *old(self),
            },
    {
        let id: u64 = add_u64(self.reply_id_counter, 1)?;
        self.reply_id_counter = id;
        Ok(id)
    }

    /// Keeps `handler` as the continuation pending under `id`. Fails, and
    /// changes nothing, when one is pending there already.
    pub fn register(&mut self, id: u64, handler: ReplyHandler) -> (r: Result<(), ContractError>)
        ensures
            old(self).wf() && id <= old(self).reply_id_counter ==> final(self).wf(),
            match r {
                Ok(_) => spec_register(old(self)@.reply_handlers, id, handler@) == Ok::<
                    Map<u64, ReplyHandlerView>,
                    ErrorKind,
                >(final(self)@.reply_handlers) && final(self)@ == (StoreView {
                    reply_handlers: final(self)@.reply_handlers,
                    ..old(self)@
                }),
                Err(e) => e == (ContractError::DuplicateCorrelationId { id })
                    && old(self)@.reply_handlers.contains_key(id) && *final(self) == *old(self),
            },
    {
        if self.reply_handlers.contains_key(&id) {
            return Err(ContractError::DuplicateCorrelationId { id });
        }
        self.reply_handlers.insert(id, handler);
        proof {
            assert(self@.reply_handlers =~= old(self)@.reply_handlers.insert(id, handler@));
        }
        Ok(())
    }

    /// Takes the continuation pending under `id` out of the store. Fails, and
    /// changes nothing, when none is pending there.
    pub fn resolve(&mut self, id: u64) -> (r: Result<ReplyHandler, ContractError>)
        ensures
            old(self).wf() ==> final(self).wf(),
            match r {
                Ok(h) => spec_resolve(old(self)@.reply_handlers, id) == Ok::<
                    (ReplyHandlerView, Map<u64, ReplyHandlerView>),
                    ErrorKind,
                >((h@, final(self)@.reply_handlers)) && final(self)@ == (StoreView {
                    reply_handlers: final(self)@.reply_handlers,
                    ..old(self)@
                }),
                Err(e) => e == (ContractError::UnknownCorrelationId { id })
                    && !old(self)@.reply_handlers.contains_key(id) && *final(self) == *old(self),
            },
    {
        if !self.reply_handlers.contains_key(&id) {
            return Err(ContractError::UnknownCorrelationId { id });
        }
        match self.reply_handlers.remove(&id) {
            Some(h) => {
                proof {
                    assert(old(self).reply_handlers@.contains_key(id));
                    assert(old(self).reply_handlers@[id] == h);
                    assert(old(self)@.reply_handlers[id] == h@);
                    assert(self@.reply_handlers =~= old(self)@.reply_handlers.remove(id));
                }
                Ok(h)
            },
            None => Err(ContractError::UnknownCorrelationId { id }),
        }
    }
}

/// A continuation registered under a free id is the one that resolving that
/// id returns, and resolving leaves pending what was pending before.
pub proof fn lemma_register_then_resolve(
    pending: Map<u64, ReplyHandlerView>,
    id: u64,
    h: ReplyHandlerView,
)
    requires
        !pending.contains_key(id),
    ensures
        spec_register(pending, id, h) matches Ok(after) && spec_resolve(after, id) == Ok::<
            (ReplyHandlerView, Map<u64, ReplyHandlerView>),
            ErrorKind,
        >((h, pending)),
{
    assert(pending.insert(id, h).remove(id) =~= pending);
}

/// Resolving an id under which nothing is pending fails as unknown.
pub proof fn lemma_resolve_unregistered(pending: Map<u64, ReplyHandlerView>, id: u64)
    requires
        !pending.contains_key(id),
    ensures
        spec_resolve(pending, id) == Err::<
            (ReplyHandlerView, Map<u64, ReplyHandlerView>),
            ErrorKind,
        >(ErrorKind::UnknownCorrelationId),
{
}

/// An id that was resolved cannot be resolved again.
pub proof fn lemma_no_double_resolve(pending: Map<u64, ReplyHandlerView>, id: u64)
    ensures
        spec_resolve(pending, id) matches Ok(first) ==> spec_resolve(first.1, id) == Err::<
            (ReplyHandlerView, Map<u64, ReplyHandlerView>),
            ErrorKind,
        >(ErrorKind::UnknownCorrelationId),
{
}

/// The id issued after `n` others is the counter it started from plus
/// `n + 1`.
pub proof fn lemma_nth_id_value(counter: u64, n: nat)
    ensures
        spec_nth_id(counter, n) matches Ok(id) ==> id == counter + n + 1,
    decreases n,
{
    if n > 0 {
        if let Ok(id) = spec_next_id(counter) {
            lemma_nth_id_value(id, (n - 1) as nat);
        }
    }
}

/// Ids issued one after another strictly increase, so none is issued twice.
pub proof fn lemma_ids_strictly_increase(counter: u64, i: nat, j: nat)
    requires
        i < j,
    ensures
        spec_nth_id(counter, j) matches Ok(later) ==> (spec_nth_id(counter, i) matches Ok(
            earlier,
        ) && counter < earlier < later),
{
    if spec_nth_id(counter, j) is Ok {
        lemma_nth_id_value(counter, i);
        lemma_nth_id_value(counter, j);
        lemma_nth_id_defined_before(counter, i, j);
    }
}

/// Where an id can still be issued, every earlier one could.
pub proof fn lemma_nth_id_defined_before(counter: u64, i: nat, j: nat)
    requires
        i <= j,
        spec_nth_id(counter, j) is Ok,
    ensures
        spec_nth_id(counter, i) is Ok,
    decreases i,
{
    if i > 0 {
        let id = spec_next_id(counter)->Ok_0;
        lemma_nth_id_defined_before(id, (i - 1) as nat, (j - 1) as nat);
    }
}

} // verus!
