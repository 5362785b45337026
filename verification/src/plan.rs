//! The order in which things are done.
use crate::call::{CallView, Reply};
use crate::course::{
    has_failed, law_every_reached_state_is_well_formed, lemma_last_event, state_after, Event,
};
use crate::session::{request_of, PhaseView, RequestView, State};
use crate::time::representable;
use vstd::prelude::*;

verus! {

/// Something that a verification does, other than to give an object back.
pub enum Step {
    /// Opens a store.
    OpenStore,
    /// Adds this certificate to a store.
    AddCertificate(Seq<u8>),
    /// Makes an engine.
    MakeEngine,
    /// Attaches this OCSP response.
    AttachResponse(Seq<u8>),
    /// Builds the chain.
    BuildChain,
    /// Holds the chain against the policy.
    ApplyPolicy,
}

/// What a call does, as a sequence of at most one step.
pub open spec fn step_of(call: CallView) -> Seq<Step> {
    match call {
        CallView::OpenStore { .. } => seq![Step::OpenStore],
        CallView::AddCertificate { cert, .. } => seq![Step::AddCertificate(cert)],
        CallView::CreateEngine { .. } => seq![Step::MakeEngine],
        CallView::SetProperty { data, .. } => seq![Step::AttachResponse(data)],
        CallView::GetChain { .. } => seq![Step::BuildChain],
        CallView::VerifyPolicy { .. } => seq![Step::ApplyPolicy],
        _ => Seq::empty(),
    }
}

/// What was done so far, in order.
pub open spec fn steps_taken(request: RequestView, events: Seq<Event>) -> Seq<Step>
    decreases events.len(),
{
    if events.len() == 0 {
        Seq::empty()
    } else {
        steps_taken(request, events.drop_last()) + step_of(
            state_after(request, events.drop_last()).call(),
        )
    }
}

/// What comes first: a store, and for an only root one more, with that root alone, from
/// which an engine is made.
pub open spec fn preparation(root: Option<Seq<u8>>) -> Seq<Step> {
    match root {
        Some(only) => seq![
            Step::OpenStore,
            Step::OpenStore,
            Step::AddCertificate(only),
            Step::MakeEngine,
        ],
        None => seq![Step::OpenStore],
    }
}

/// All that a verification does when nothing goes wrong: after the preparation the
/// server's certificate is added, then each intermediate one in its turn, the response is
/// attached if there is one, the chain is built, and the policy applied.
pub open spec fn plan(
    root: Option<Seq<u8>>,
    primary: Seq<u8>,
    intermediates: Seq<Seq<u8>>,
    ocsp: Option<Seq<u8>>,
) -> Seq<Step> {
    preparation(root) + seq![Step::AddCertificate(primary)] + Seq::new(
        intermediates.len(),
        |k: int| Step::AddCertificate(intermediates[k]),
    ) + (match ocsp {
        Some(response) => seq![Step::AttachResponse(response)],
        None => Seq::empty(),
    }) + seq![Step::BuildChain, Step::ApplyPolicy]
}

/// The plan for a request.
spec fn plan_of(request: RequestView) -> Seq<Step> {
    plan(request.root, request.primary, request.intermediates, request.ocsp)
}

/// How much of the plan is done in a phase that is not the last.
spec fn done_before(request: RequestView, phase: PhaseView) -> int {
    let prepared: int = if request.root is Some {
        4
    } else {
        1
    };
    let added = prepared + 1 + request.intermediates.len();
    let attached = if request.ocsp is Some {
        added + 1
    } else {
        added
    };
    match phase {
        PhaseView::OpenStore => 0,
        PhaseView::OpenRootStore => 1,
        PhaseView::AddRoot => 2,
        PhaseView::CreateEngine => 3,
        PhaseView::AddPrimary => prepared,
        PhaseView::AddIntermediate(i) => prepared + 1 + i,
        PhaseView::SetOcsp => added,
        PhaseView::BuildChain => attached,
        PhaseView::VerifyPolicy => attached + 1,
        PhaseView::Finished(_) => attached + 2,
    }
}

/// The next call either gives an object back, and the phase stays, or does what the plan
/// says, and the verification goes on by one step.
proof fn lemma_step_follows_plan(state: State, reply: Reply, text: Seq<char>)
    requires
        state.wf(),
    ensures
        ({
            let request = state.request;
            let done = done_before(request, state.phase);
            let then = state.next(reply, text);
            &&& plan_of(request).len() == done_before(request, PhaseView::Finished(Ok(())))
            &&& state.phase is Finished ==> step_of(state.call()) == Seq::<Step>::empty()
            &&& !(state.phase is Finished) ==> {
                ||| step_of(state.call()) == Seq::<Step>::empty() && then.phase == state.phase
                ||| {
                    &&& 0 <= done < plan_of(request).len()
                    &&& step_of(state.call()) == seq![plan_of(request)[done]]
                    &&& !has_failed(then) ==> done_before(request, then.phase) == done + 1
                }
            }
        }),
{
    let request = state.request;
    let whole = plan_of(request);
    let done = done_before(request, state.phase);
    let added = Seq::new(
        request.intermediates.len(),
        |k: int| Step::AddCertificate(request.intermediates[k]),
    );
    if let PhaseView::AddIntermediate(i) = state.phase {
        assert(added[i] == Step::AddCertificate(request.intermediates[i]));
        assert(whole[done] == added[i]);
    }
}

/// Whatever the replies, a verification does what the plan says, in that order, and
/// nothing else: what was done is always the beginning of the plan, and all of it once the
/// certificate is accepted. Nothing is left out, done twice or put off.
pub proof fn law_verification_follows_the_plan(
    root: Option<Seq<u8>>,
    primary: Seq<u8>,
    intermediates: Seq<Seq<u8>>,
    server: Seq<u8>,
    ocsp: Option<Seq<u8>>,
    now: i128,
    events: Seq<Event>,
)
    requires
        representable(now),
    ensures
        ({
            let request = request_of(root, primary, intermediates, server, ocsp, now);
            let state = state_after(request, events);
            &&& steps_taken(request, events).is_prefix_of(
                plan(root, primary, intermediates, ocsp),
            )
            &&& state.phase is Finished && state.phase->Finished_0 is Ok ==> steps_taken(
                request,
                events,
            ) == plan(root, primary, intermediates, ocsp)
        }),
{
    lemma_plan_is_followed(
        request_of(root, primary, intermediates, server, ocsp, now),
        events,
    );
}

/// What was done is the beginning of the plan, as far as the phase says.
proof fn lemma_plan_is_followed(request: RequestView, events: Seq<Event>)
    requires
        representable(request.now),
    ensures
        ({
            let state = state_after(request, events);
            let taken = steps_taken(request, events);
            &&& taken.is_prefix_of(plan_of(request))
            &&& !has_failed(state) ==> taken.len() == done_before(request, state.phase)
            &&& !has_failed(state) && state.phase is Finished ==> taken == plan_of(request)
        }),
    decreases events.len(),
{
    if events.len() > 0 {
        let earlier = events.drop_last();
        let before = state_after(request, earlier);
        let after = state_after(request, events);
        let whole = plan_of(request);
        lemma_plan_is_followed(request, earlier);
        law_every_reached_state_is_well_formed(request, earlier);
        lemma_last_event(request, events);
        lemma_step_follows_plan(before, events.last().reply, events.last().text);
        let taken = steps_taken(request, earlier);
        let now_taken = steps_taken(request, events);
        if step_of(before.call()) == Seq::<Step>::empty() {
            assert(now_taken =~= taken);
        } else {
            assert(now_taken =~= taken.push(whole[taken.len() as int]));
        }
        if !has_failed(after) && after.phase is Finished {
            assert(now_taken =~= whole);
        }
    }
}

} // verus!
