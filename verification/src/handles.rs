//! What becomes of the handles that a verification is given.
use crate::call::{CallView, Reply};
use crate::course::{
    has_failed, law_every_reached_state_is_well_formed, lemma_last_event, lemma_step_decides,
    state_after, Event,
};
use crate::session::{nothing_held, Held, RequestView, State};
use crate::store::CertificateStore;
use crate::time::representable;
use crate::trust::law_verdict_by_flags;
use crate::wincrypt::NULL;
use vstd::multiset::Multiset;
use vstd::prelude::*;

verus! {

/// An object of the system, by its handle.
pub enum Object {
    Store(usize),
    Engine(usize),
    Certificate(usize),
    Chain(usize),
}

/// An object that may be missing, as a collection.
pub open spec fn at_most_one(object: Option<Object>) -> Multiset<Object> {
    match object {
        Some(object) => Multiset::singleton(object),
        None => Multiset::empty(),
    }
}

/// The objects that a store stands for: itself, and its engine.
pub open spec fn objects_of_store(store: Option<CertificateStore>) -> Multiset<Object> {
    match store {
        Some(store) => at_most_one(Some(Object::Store(store.inner))).add(
            at_most_one(
                match store.engine {
                    Some(engine) => Some(Object::Engine(engine)),
                    None => None,
                },
            ),
        ),
        None => Multiset::empty(),
    }
}

/// The objects that are held.
pub open spec fn objects(held: Held) -> Multiset<Object> {
    objects_of_store(held.store).add(objects_of_store(held.root_store)).add(
        at_most_one(
            match held.loose {
                Some(certificate) => Some(Object::Certificate(certificate.inner)),
                None => None,
            },
        ),
    ).add(
        at_most_one(
            match held.primary {
                Some(certificate) => Some(Object::Certificate(certificate.inner)),
                None => None,
            },
        ),
    ).add(
        at_most_one(
            match held.chain {
                Some(chain) => Some(Object::Chain(chain.inner)),
                None => None,
            },
        ),
    )
}

/// The object that a reply brings.
pub open spec fn received(call: CallView, reply: Reply) -> Option<Object> {
    match call {
        CallView::OpenStore { .. } => if reply.handle != 0 {
            Some(Object::Store(reply.handle))
        } else {
            None
        },
        CallView::AddCertificate { .. } => if reply.res == 1 && reply.handle != 0 {
            Some(Object::Certificate(reply.handle))
        } else {
            None
        },
        CallView::CreateEngine { .. } => if reply.res == 1 && reply.handle != 0 {
            Some(Object::Engine(reply.handle))
        } else {
            None
        },
        CallView::GetChain { .. } => if reply.res == 1 && reply.handle != 0 {
            Some(Object::Chain(reply.handle))
        } else {
            None
        },
        _ => None,
    }
}

/// The object that a call gives back.
pub open spec fn returned(call: CallView) -> Option<Object> {
    match call {
        CallView::FreeChain { chain } => Some(Object::Chain(chain)),
        CallView::FreeCertificate { certificate } => Some(Object::Certificate(certificate)),
        CallView::FreeEngine { engine } => Some(Object::Engine(engine)),
        CallView::CloseStore { store, .. } => Some(Object::Store(store)),
        _ => None,
    }
}

/// The object that a reply brings and that is dropped at once: a chain whose trust
/// status speaks against it.
pub open spec fn dropped(call: CallView, reply: Reply) -> Option<Object> {
    match call {
        CallView::GetChain { .. } => if reply.res == 1 && reply.handle != 0 && reply.status
            & !0x0100_0040 != 0 {
            Some(Object::Chain(reply.handle))
        } else {
            None
        },
        _ => None,
    }
}

/// The objects that a call works on.
pub open spec fn used(call: CallView) -> Set<Object> {
    match call {
        CallView::AddCertificate { store, .. } => set![Object::Store(store)],
        CallView::CreateEngine { exclusive_root, .. } => set![Object::Store(exclusive_root)],
        CallView::SetProperty { certificate, .. } => set![Object::Certificate(certificate)],
        CallView::GetChain { engine, certificate, store, .. } => if engine == NULL {
            set![Object::Certificate(certificate), Object::Store(store)]
        } else {
            set![
                Object::Engine(engine),
                Object::Certificate(certificate),
                Object::Store(store),
            ]
        },
        CallView::VerifyPolicy { chain, .. } => set![Object::Chain(chain)],
        CallView::FreeChain { chain } => set![Object::Chain(chain)],
        CallView::FreeCertificate { certificate } => set![Object::Certificate(certificate)],
        CallView::FreeEngine { engine } => set![Object::Engine(engine)],
        CallView::CloseStore { store, .. } => set![Object::Store(store)],
        _ => Set::empty(),
    }
}

/// All the objects that the replies brought.
pub open spec fn all_received(request: RequestView, events: Seq<Event>) -> Multiset<Object>
    decreases events.len(),
{
    if events.len() == 0 {
        Multiset::empty()
    } else {
        all_received(request, events.drop_last()).add(
            at_most_one(
                received(
                    state_after(request, events.drop_last()).call(),
                    events.last().reply,
                ),
            ),
        )
    }
}

/// All the objects that were given back.
pub open spec fn all_returned(request: RequestView, events: Seq<Event>) -> Multiset<Object>
    decreases events.len(),
{
    if events.len() == 0 {
        Multiset::empty()
    } else {
        all_returned(request, events.drop_last()).add(
            at_most_one(returned(state_after(request, events.drop_last()).call())),
        )
    }
}

/// All the objects that were dropped.
pub open spec fn all_dropped(request: RequestView, events: Seq<Event>) -> Multiset<Object>
    decreases events.len(),
{
    if events.len() == 0 {
        Multiset::empty()
    } else {
        all_dropped(request, events.drop_last()).add(
            at_most_one(
                dropped(state_after(request, events.drop_last()).call(), events.last().reply),
            ),
        )
    }
}

/// One reply: what it brings is kept or dropped, what is given back was held.
proof fn lemma_step_balances(state: State, reply: Reply, text: Seq<char>)
    requires
        state.wf(),
    ensures
        objects(state.held).add(at_most_one(received(state.call(), reply))) == objects(
            state.next(reply, text).held,
        ).add(at_most_one(returned(state.call()))).add(at_most_one(dropped(state.call(), reply))),
{
    law_verdict_by_flags(reply.status);
}

/// Adding one step to a balanced account.
proof fn lemma_account_stays_balanced(
    received: Multiset<Object>,
    held: Multiset<Object>,
    returned: Multiset<Object>,
    dropped: Multiset<Object>,
    takes: Multiset<Object>,
    then_held: Multiset<Object>,
    gives: Multiset<Object>,
    drops: Multiset<Object>,
)
    requires
        received == held.add(returned).add(dropped),
        held.add(takes) == then_held.add(gives).add(drops),
    ensures
        received.add(takes) == then_held.add(returned.add(gives)).add(dropped.add(drops)),
{
    assert forall|object: Object| #[trigger]
        received.add(takes).count(object) == then_held.add(returned.add(gives)).add(
            dropped.add(drops),
        ).count(object) by {
        assert(received.count(object) == held.count(object) + returned.count(object)
            + dropped.count(object));
        assert(held.add(takes).count(object) == held.count(object) + takes.count(object));
        assert(then_held.add(gives).add(drops).count(object) == then_held.count(object)
            + gives.count(object) + drops.count(object));
    }
    assert(received.add(takes) =~= then_held.add(returned.add(gives)).add(dropped.add(drops)));
}

/// Nothing is held by a verification that has not started or is done.
proof fn lemma_nothing_held()
    ensures
        objects(nothing_held()) == Multiset::<Object>::empty(),
{
    assert(objects(nothing_held()) =~= Multiset::empty());
}

/// At every moment, what the replies brought is what is held, what was given back
/// and what was dropped: nothing is lost on the way, and nothing is given back that
/// was not received.
pub proof fn law_every_object_is_accounted_for(request: RequestView, events: Seq<Event>)
    requires
        representable(request.now),
    ensures
        all_received(request, events) == objects(state_after(request, events).held).add(
            all_returned(request, events),
        ).add(all_dropped(request, events)),
    decreases events.len(),
{
    if events.len() == 0 {
        lemma_nothing_held();
        let none = Multiset::<Object>::empty();
        assert(none =~= none.add(none).add(none));
    } else {
        let earlier = events.drop_last();
        let before = state_after(request, earlier);
        let after = state_after(request, events);
        let reply = events.last().reply;
        law_every_object_is_accounted_for(request, earlier);
        law_every_reached_state_is_well_formed(request, earlier);
        lemma_last_event(request, events);
        lemma_step_balances(before, reply, events.last().text);
        lemma_account_stays_balanced(
            all_received(request, earlier),
            objects(before.held),
            all_returned(request, earlier),
            all_dropped(request, earlier),
            at_most_one(received(before.call(), reply)),
            objects(after.held),
            at_most_one(returned(before.call())),
            at_most_one(dropped(before.call(), reply)),
        );
    }
}

/// Once a verification is done, every object that was received has been given back
/// exactly once, but for a chain that was refused for its trust status.
pub proof fn law_every_object_is_given_back(request: RequestView, events: Seq<Event>)
    requires
        representable(request.now),
        state_after(request, events).call() is Done,
    ensures
        all_received(request, events) == all_returned(request, events).add(
            all_dropped(request, events),
        ),
{
    law_every_reached_state_is_well_formed(request, events);
    law_every_object_is_accounted_for(request, events);
    assert(state_after(request, events).held == nothing_held());
    lemma_nothing_held();
    assert(all_received(request, events) =~= all_returned(request, events).add(
        all_dropped(request, events),
    ));
}

/// As long as a verification has not failed, nothing is dropped. One that accepts the
/// certificate has therefore given back everything.
pub proof fn law_nothing_is_dropped_unless_refused(request: RequestView, events: Seq<Event>)
    requires
        representable(request.now),
        !has_failed(state_after(request, events)),
    ensures
        all_dropped(request, events) == Multiset::<Object>::empty(),
    decreases events.len(),
{
    if events.len() > 0 {
        let earlier = events.drop_last();
        law_every_reached_state_is_well_formed(request, earlier);
        lemma_last_event(request, events);
        lemma_step_decides(
            state_after(request, earlier),
            events.last().reply,
            events.last().text,
        );
        law_nothing_is_dropped_unless_refused(request, earlier);
        assert(all_dropped(request, events) =~= Multiset::empty());
    }
}

/// A call only works on objects that are held: on none before it is received, and
/// on none after it is given back. No handle is null.
pub proof fn law_only_held_objects_are_used(request: RequestView, events: Seq<Event>)
    requires
        representable(request.now),
    ensures
        forall|object: Object| #[trigger]
            used(state_after(request, events).call()).contains(object) ==> objects(
                state_after(request, events).held,
            ).contains(object),
        !objects(state_after(request, events).held).contains(Object::Store(NULL)),
        !objects(state_after(request, events).held).contains(Object::Engine(NULL)),
        !objects(state_after(request, events).held).contains(Object::Certificate(NULL)),
        !objects(state_after(request, events).held).contains(Object::Chain(NULL)),
{
    law_every_reached_state_is_well_formed(request, events);
}

/// The store of the server's certificate is closed last, when nothing else is held:
/// neither its engine nor a certificate nor a chain from it.
pub proof fn law_store_is_closed_last(request: RequestView, events: Seq<Event>)
    requires
        representable(request.now),
        state_after(request, events).call() is CloseStore,
        state_after(request, events).held.root_store is None,
    ensures
        objects(state_after(request, events).held) == Multiset::singleton(
            Object::Store(state_after(request, events).call()->CloseStore_store),
        ),
{
    law_every_reached_state_is_well_formed(request, events);
    assert(objects(state_after(request, events).held) =~= Multiset::singleton(
        Object::Store(state_after(request, events).call()->CloseStore_store),
    ));
}

/// Objects go as soon as they are of no further use. A certificate that was added beside
/// the server's is given back by the very next call, and so is the store of the only root
/// once the engine is made. While one of them is held, nothing else is done.
pub proof fn law_spent_objects_go_at_once(
    request: RequestView,
    events: Seq<Event>,
    reply: Reply,
    text: Seq<char>,
)
    requires
        representable(request.now),
    ensures
        ({
            let state = state_after(request, events);
            let then = state.next(reply, text).call();
            &&& state.call() is AddCertificate && (state.held.primary is Some
                || state.held.root_store is Some) && reply.res == 1 && reply.handle != 0 ==> then
                == CallView::FreeCertificate { certificate: reply.handle }
            &&& state.call() matches CallView::CreateEngine { exclusive_root, .. } ==> then
                == CallView::CloseStore { store: exclusive_root, flags: 0 }
            &&& state.held.loose matches Some(certificate) ==> state.call()
                == CallView::FreeCertificate { certificate: certificate.inner }
            &&& state.call() is GetChain || state.call() is VerifyPolicy || state.call()
                is SetProperty ==> state.held.root_store is None
        }),
{
    law_every_reached_state_is_well_formed(request, events);
}

/// Once the result is decided, the chain goes first, then the server's certificate, then
/// the engine, then the store.
pub proof fn law_objects_go_in_order(request: RequestView, events: Seq<Event>)
    requires
        representable(request.now),
        state_after(request, events).held.loose is None,
        state_after(request, events).held.root_store is None,
    ensures
        ({
            let state = state_after(request, events);
            let held = state.held;
            match state.call() {
                CallView::FreeChain { chain } => held.chain matches Some(own) && own.inner == chain
                    && state.phase is Finished,
                CallView::FreeCertificate { certificate } => held.chain is None && (
                held.primary matches Some(own) && own.inner == certificate) && state.phase
                    is Finished,
                CallView::FreeEngine { engine } => held.chain is None && held.primary is None && (
                held.store matches Some(own) && own.engine == Some(engine)) && state.phase
                    is Finished,
                CallView::CloseStore { store, .. } => held.chain is None && held.primary is None && (
                held.store matches Some(own) && own.engine is None && own.inner == store)
                    && state.phase is Finished,
                CallView::Done(_) => held == nothing_held(),
                _ => !(state.phase is Finished),
            }
        }),
{
    law_every_reached_state_is_well_formed(request, events);
}

} // verus!
