//! What holds of a verification from its start to its end, whatever the replies.
use crate::call::{CallView, Reply};
use crate::session::{lemma_next_keeps_wf, Held, PhaseView, RequestView, State};
use crate::store::fits;
use crate::time::{file_time_at, representable};
use crate::trust::law_verdict_by_flags;
use crate::wincrypt::NULL;
use vstd::prelude::*;

verus! {

/// A reply, with the text of the system that an error quotes.
pub struct Event {
    pub reply: Reply,
    pub text: Seq<char>,
}

/// The state that a sequence of replies leads to.
pub open spec fn run(state: State, events: Seq<Event>) -> State
    decreases events.len(),
{
    if events.len() == 0 {
        state
    } else {
        run(state, events.drop_last()).next(events.last().reply, events.last().text)
    }
}

/// The state of the verification of a request after a sequence of replies.
pub open spec fn state_after(request: RequestView, events: Seq<Event>) -> State {
    run(State::start(request), events)
}

/// The call that the reply of index `i` answers.
pub open spec fn call_at(request: RequestView, events: Seq<Event>, i: int) -> CallView {
    state_after(request, events.take(i)).call()
}

/// A call that gives an object back, or none at all.
pub open spec fn gives_back(call: CallView) -> bool {
    ||| call is FreeChain
    ||| call is FreeCertificate
    ||| call is FreeEngine
    ||| call is CloseStore
    ||| call is Done
}

/// The reply lets the verification go on: the call did what it was asked to, and
/// neither the trust in the chain nor the policy speaks against it.
pub open spec fn answered_well(call: CallView, reply: Reply) -> bool {
    match call {
        CallView::OpenStore { .. } => reply.handle != 0,
        CallView::AddCertificate { .. } => reply.res == 1 && reply.handle != 0,
        CallView::CreateEngine { .. } => reply.res == 1 && reply.handle != 0,
        CallView::SetProperty { .. } => reply.res == 1,
        CallView::GetChain { .. } => reply.res == 1 && reply.handle != 0 && reply.status
            & !0x0100_0040 == 0,
        CallView::VerifyPolicy { .. } => reply.res == 1 && reply.status == 0,
        _ => true,
    }
}

/// Every call was answered well.
pub open spec fn all_answered_well(request: RequestView, events: Seq<Event>) -> bool {
    forall|i: int|
        0 <= i < events.len() ==> answered_well(
            #[trigger] call_at(request, events, i),
            events[i].reply,
        )
}

/// A request that is not refused for what it holds: its buffers are not too long
/// for the system, and its time is not before the Unix epoch.
pub open spec fn presentable(request: RequestView) -> bool {
    &&& request.root matches Some(root) ==> root.len() <= 0xffff_ffff
    &&& request.primary.len() <= 0xffff_ffff
    &&& forall|k: int|
        0 <= k < request.intermediates.len() ==> (#[trigger] request.intermediates[k]).len()
            <= 0xffff_ffff
    &&& request.ocsp matches Some(response) ==> response.len() <= 0xffff_ffff
    &&& request.now >= 0
}

/// The verification has failed.
pub open spec fn has_failed(state: State) -> bool {
    state.phase matches PhaseView::Finished(result) && result is Err
}

/// What a state that has not failed says of the request.
pub open spec fn vetted(state: State) -> bool {
    let request = state.request;
    let root = request.root matches Some(root) ==> fits(root);
    match state.phase {
        PhaseView::OpenStore => true,
        PhaseView::OpenRootStore => true,
        PhaseView::AddRoot => root,
        PhaseView::CreateEngine => root,
        PhaseView::AddPrimary => root && fits(request.primary),
        PhaseView::AddIntermediate(i) => {
            &&& root && fits(request.primary)
            &&& forall|k: int| 0 <= k <= i ==> fits(#[trigger] request.intermediates[k])
        },
        PhaseView::SetOcsp => {
            &&& root && fits(request.primary)
            &&& forall|k: int|
                0 <= k < request.intermediates.len() ==> fits(#[trigger] request.intermediates[k])
            &&& request.ocsp matches Some(response) ==> fits(response)
        },
        _ => presentable(request),
    }
}

/// One reply: the verification fails by it only if the reply is not good, or the
/// request is not presentable.
pub(crate) proof fn lemma_step_decides(state: State, reply: Reply, text: Seq<char>)
    requires
        state.wf(),
    ensures
        state.next(reply, text).request == state.request,
        state.phase is Finished ==> state.next(reply, text).phase == state.phase,
        !has_failed(state) && has_failed(state.next(reply, text)) ==> !presentable(state.request)
            || !answered_well(state.call(), reply),
        !has_failed(state.next(reply, text)) ==> !has_failed(state) && answered_well(
            state.call(),
            reply,
        ),
        !has_failed(state.next(reply, text)) && vetted(state) ==> vetted(state.next(reply, text)),
{
    law_verdict_by_flags(reply.status);
}

/// Prefixes of a prefix are prefixes.
pub(crate) proof fn lemma_prefix_calls(request: RequestView, events: Seq<Event>, n: int, i: int)
    requires
        0 <= i <= n <= events.len(),
    ensures
        events.take(n).take(i) == events.take(i),
        call_at(request, events.take(n), i) == call_at(request, events, i),
{
    assert(events.take(n).take(i) =~= events.take(i));
}

/// The last reply of a sequence, and what came before it.
pub(crate) proof fn lemma_last_event(request: RequestView, events: Seq<Event>)
    requires
        events.len() > 0,
    ensures
        events.drop_last() == events.take(events.len() - 1),
        call_at(request, events, events.len() - 1) == state_after(
            request,
            events.drop_last(),
        ).call(),
        state_after(request, events) == state_after(request, events.drop_last()).next(
            events.last().reply,
            events.last().text,
        ),
{
    assert(events.drop_last() =~= events.take(events.len() - 1));
}

/// Every state that a verification reaches is well-formed, and is about the request
/// that it started with.
pub proof fn law_every_reached_state_is_well_formed(request: RequestView, events: Seq<Event>)
    requires
        representable(request.now),
    ensures
        state_after(request, events).wf(),
        state_after(request, events).request == request,
    decreases events.len(),
{
    if events.len() > 0 {
        law_every_reached_state_is_well_formed(request, events.drop_last());
        let before = state_after(request, events.drop_last());
        lemma_next_keeps_wf(before, events.last().reply, events.last().text);
        lemma_step_decides(before, events.last().reply, events.last().text);
    }
}

/// As long as a verification has not failed, all calls were answered well; once it
/// has, one of them was not, or the request was not presentable.
pub(crate) proof fn lemma_failed_iff(request: RequestView, events: Seq<Event>)
    requires
        representable(request.now),
    ensures
        has_failed(state_after(request, events)) ==> !presentable(request) || !all_answered_well(
            request,
            events,
        ),
        !has_failed(state_after(request, events)) ==> all_answered_well(request, events) && vetted(
            state_after(request, events),
        ),
    decreases events.len(),
{
    if events.len() > 0 {
        let n = events.len() - 1;
        let earlier = events.drop_last();
        lemma_failed_iff(request, earlier);
        law_every_reached_state_is_well_formed(request, earlier);
        lemma_last_event(request, events);
        let before = state_after(request, earlier);
        lemma_step_decides(before, events.last().reply, events.last().text);
        assert forall|i: int| 0 <= i < n implies #[trigger] call_at(request, earlier, i) == call_at(
            request,
            events,
            i,
        ) && earlier[i] == events[i] by {
            lemma_prefix_calls(request, events, n, i);
        }
        if has_failed(state_after(request, events)) {
            if presentable(request) {
                if has_failed(before) {
                    let i = choose|i: int|
                        0 <= i < earlier.len() && !answered_well(
                            #[trigger] call_at(request, earlier, i),
                            earlier[i].reply,
                        );
                    assert(!answered_well(call_at(request, events, i), events[i].reply));
                } else {
                    assert(!answered_well(call_at(request, events, n), events[n].reply));
                }
            }
        } else {
            assert forall|i: int| 0 <= i < events.len() implies answered_well(
                #[trigger] call_at(request, events, i),
                events[i].reply,
            ) by {
                if i < n {
                    assert(answered_well(call_at(request, earlier, i), earlier[i].reply));
                }
            }
        }
    }
}

/// A verification that is done has accepted the certificate exactly when the request
/// was presentable and every call was answered well: no error of the system is
/// passed over, and no certificate is refused without one.
pub proof fn law_accepted_iff_every_call_was_answered_well(
    request: RequestView,
    events: Seq<Event>,
)
    requires
        representable(request.now),
        state_after(request, events).call() is Done,
    ensures
        state_after(request, events).call()->Done_0 is Ok <==> presentable(request)
            && all_answered_well(request, events),
{
    lemma_failed_iff(request, events);
    law_every_reached_state_is_well_formed(request, events);
}

/// The result that a verification is done with is the one that was decided, and it is done
/// only when nothing is held any more.
pub proof fn law_decided_result_is_told(request: RequestView, events: Seq<Event>)
    requires
        representable(request.now),
    ensures
        state_after(request, events).call() matches CallView::Done(result) ==> {
            &&& state_after(request, events).phase == PhaseView::Finished(result)
            &&& state_after(request, events).held.store is None
            &&& state_after(request, events).held.root_store is None
            &&& state_after(request, events).held.loose is None
            &&& state_after(request, events).held.primary is None
            &&& state_after(request, events).held.chain is None
        },
{
    law_every_reached_state_is_well_formed(request, events);
}

/// Once the result is decided it stays, and nothing is done any more but to give
/// objects back.
pub proof fn law_decided_result_stands(request: RequestView, events: Seq<Event>, n: int)
    requires
        representable(request.now),
        0 <= n <= events.len(),
        state_after(request, events.take(n)).phase is Finished,
    ensures
        state_after(request, events).phase == state_after(request, events.take(n)).phase,
        gives_back(state_after(request, events).call()),
    decreases events.len() - n,
{
    law_every_reached_state_is_well_formed(request, events);
    if n == events.len() {
        assert(events.take(n) =~= events);
    } else {
        let earlier = events.drop_last();
        lemma_last_event(request, events);
        lemma_prefix_calls(request, events, events.len() - 1, n);
        law_decided_result_stands(request, earlier, n);
        law_every_reached_state_is_well_formed(request, earlier);
        lemma_step_decides(
            state_after(request, earlier),
            events.last().reply,
            events.last().text,
        );
    }
}

/// How many calls of its own a verification has left to make, at most.
spec fn calls_left(state: State) -> int {
    let count = state.request.intermediates.len() as int;
    match state.phase {
        PhaseView::OpenStore => count + 8,
        PhaseView::OpenRootStore => count + 7,
        PhaseView::AddRoot => count + 6,
        PhaseView::CreateEngine => count + 5,
        PhaseView::AddPrimary => count + 4,
        PhaseView::AddIntermediate(i) => count - i + 3,
        PhaseView::SetOcsp => 3,
        PhaseView::BuildChain => 2,
        PhaseView::VerifyPolicy => 1,
        PhaseView::Finished(_) => 0,
    }
}

/// How many objects are left to give back.
spec fn objects_left(held: Held) -> int {
    (if held.store is Some {
        if held.store->0.engine is Some {
            2int
        } else {
            1
        }
    } else {
        0
    }) + (if held.root_store is Some {
        1int
    } else {
        0
    }) + (if held.loose is Some {
        1int
    } else {
        0
    }) + (if held.primary is Some {
        1int
    } else {
        0
    }) + (if held.chain is Some {
        1int
    } else {
        0
    })
}

/// One reply brings the end closer.
proof fn lemma_step_makes_progress(state: State, reply: Reply, text: Seq<char>)
    requires
        state.wf(),
        !(state.call() is Done),
    ensures
        2 * calls_left(state.next(reply, text)) + objects_left(state.next(reply, text).held) < 2
            * calls_left(state) + objects_left(state.held),
{
}

/// Progress adds up.
proof fn lemma_progress(request: RequestView, events: Seq<Event>)
    requires
        representable(request.now),
        !(state_after(request, events).call() is Done),
    ensures
        2 * calls_left(state_after(request, events)) + objects_left(
            state_after(request, events).held,
        ) + events.len() <= 2 * request.intermediates.len() + 16,
    decreases events.len(),
{
    if events.len() > 0 {
        let earlier = events.drop_last();
        let before = state_after(request, earlier);
        lemma_last_event(request, events);
        law_every_reached_state_is_well_formed(request, earlier);
        if before.call() is Done {
            assert(before.next(events.last().reply, events.last().text) == before);
        } else {
            lemma_progress(request, earlier);
            lemma_step_makes_progress(before, events.last().reply, events.last().text);
        }
    }
}

/// Every verification comes to its end: whatever the replies, no more calls are made
/// than sixteen and two for each intermediate certificate.
pub proof fn law_every_verification_ends(request: RequestView, events: Seq<Event>)
    requires
        representable(request.now),
        events.len() >= 2 * request.intermediates.len() + 16,
    ensures
        state_after(request, events).call() is Done,
{
    law_every_reached_state_is_well_formed(request, events);
    if !(state_after(request, events).call() is Done) {
        lemma_progress(request, events);
        let state = state_after(request, events);
        if state.phase is Finished {
            assert(objects_left(state.held) > 0);
        } else {
            assert(calls_left(state) > 0);
        }
    }
}

/// A verification that is done stays done, with the same result.
pub proof fn law_done_is_final(state: State, reply: Reply, text: Seq<char>)
    requires
        state.call() is Done,
    ensures
        state.next(reply, text) == state,
{
}

/// Where the only root to trust is given, the chain is built by an engine of its own;
/// otherwise it is built by the engine of the system, and no engine is ever made.
pub proof fn law_own_engine_iff_only_root(request: RequestView, events: Seq<Event>)
    requires
        representable(request.now),
    ensures
        match state_after(request, events).call() {
            CallView::GetChain { engine, .. } => engine != NULL <==> request.root is Some,
            CallView::CreateEngine { .. } => request.root is Some,
            _ => true,
        },
{
    law_every_reached_state_is_well_formed(request, events);
}

/// The chain is built as of the time of the request, for a server, and held against
/// the policy with the very name of the request.
pub proof fn law_calls_carry_the_request(request: RequestView, events: Seq<Event>)
    requires
        representable(request.now),
    ensures
        match state_after(request, events).call() {
            CallView::GetChain { time, .. } => file_time_at(request.now) matches Ok(now) && time
                == now,
            CallView::VerifyPolicy { server_name, .. } => server_name == request.server_name,
            CallView::SetProperty { data, len, .. } => request.ocsp == Some(data) && len
                == data.len(),
            CallView::AddCertificate { cert, len, .. } => len == cert.len() && (request.root
                == Some(cert) || cert == request.primary || request.intermediates.contains(cert)),
            _ => true,
        },
{
    law_every_reached_state_is_well_formed(request, events);
}

/// A text of the system changes nothing unless the reply makes an error quote it.
pub proof fn law_text_matters_only_if_quoted(
    state: State,
    reply: Reply,
    left: Seq<char>,
    right: Seq<char>,
)
    requires
        state.text_source(reply) is Nothing,
    ensures
        state.next(reply, left) == state.next(reply, right),
{
}

} // verus!
