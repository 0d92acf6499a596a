//! What holds of every launch of the bridge.
use vstd::prelude::*;

use crate::error::ErrorView;
use crate::private_api::launcher::{
    launch_answers, launch_next, LaunchActionView, LaunchEventView, LaunchPhase, LaunchSetup,
};
use crate::json::JsonValue;
use crate::private_api::ipc::{
    invoke_answers, invoke_next, parse_response, InvokeActionView, InvokeEventView, InvokePhase,
    InvokeSetup, PollOutcomeView, RESPONSE_TIMEOUT_TEXT,
};
use crate::private_api::sip::{sip_status_of, SipStatus};

verus! {

/// The actions a launch in phase `p` asks for when the work it asks for
/// turns out as `events`, one after the other; it stops at the first event
/// that does not answer the work asked for.
pub open spec fn launch_run(c: LaunchSetup, p: LaunchPhase, events: Seq<LaunchEventView>) -> Seq<
    LaunchActionView,
>
    decreases events.len(),
{
    if events.len() == 0 || !launch_answers(p, events[0]) {
        Seq::empty()
    } else {
        let (q, a) = launch_next(c, p, events[0]);
        seq![a] + launch_run(c, q, events.skip(1))
    }
}

/// How far a launch in this phase is from its end.
pub open spec fn launch_steps_left(p: LaunchPhase) -> nat {
    match p {
        LaunchPhase::CheckingReady => 12,
        LaunchPhase::ReadingSip => 11,
        LaunchPhase::Stopping => 10,
        LaunchPhase::Pausing => 9,
        LaunchPhase::RemovingLock => 8,
        LaunchPhase::MakingInbox => 7,
        LaunchPhase::MakingOutbox => 6,
        LaunchPhase::CleaningInbox => 5,
        LaunchPhase::CleaningOutbox => 4,
        LaunchPhase::ResolvingDylib => 3,
        LaunchPhase::Spawning => 2,
        LaunchPhase::AwaitingReady => 1,
        LaunchPhase::Done => 0,
    }
}

/// Every launch ends: each answered step brings it strictly nearer its end,
/// it reports its outcome exactly when it ends, and once ended it waits for
/// nothing.
pub proof fn law_launch_ends(c: LaunchSetup, p: LaunchPhase, e: LaunchEventView)
    ensures
        launch_answers(p, e) ==> launch_steps_left(launch_next(c, p, e).0) < launch_steps_left(p),
        launch_answers(p, e) ==> ((launch_next(c, p, e).0 == LaunchPhase::Done) <==> (launch_next(
            c,
            p,
            e,
        ).1 is Finished)),
        !launch_answers(LaunchPhase::Done, e),
{
}

/// A launch that finds the bridge ready does nothing more: it ends at once,
/// successfully.
pub proof fn law_ready_bridge_left_alone(c: LaunchSetup, events: Seq<LaunchEventView>)
    requires
        events.len() > 0,
        events[0] == LaunchEventView::ReadyChecked(true),
    ensures
        launch_run(c, LaunchPhase::CheckingReady, events) == seq![
            LaunchActionView::Finished(Ok::<(), ErrorView>(())),
        ],
{
    assert(launch_run(c, LaunchPhase::Done, events.skip(1)) == Seq::<LaunchActionView>::empty());
}

/// Messages is stopped and relaunched with the library injected only when
/// the ready lock was missing and `csrutil` said System Integrity Protection
/// is disabled.
pub proof fn law_injection_needs_sip_disabled(
    c: LaunchSetup,
    events: Seq<LaunchEventView>,
    i: int,
)
    requires
        0 <= i < launch_run(c, LaunchPhase::CheckingReady, events).len(),
        launch_run(c, LaunchPhase::CheckingReady, events)[i] is KillMessages || launch_run(
            c,
            LaunchPhase::CheckingReady,
            events,
        )[i] is Launch,
    ensures
        events.len() >= 2,
        events[0] == LaunchEventView::ReadyChecked(false),
        events[1] matches LaunchEventView::SipRead(o) && sip_status_of(o) == SipStatus::Disabled,
{
    let run0 = launch_run(c, LaunchPhase::CheckingReady, events);
    let (q0, a0) = launch_next(c, LaunchPhase::CheckingReady, events[0]);
    let rest0 = events.skip(1);
    assert(run0 == seq![a0] + launch_run(c, q0, rest0));
    if q0 == LaunchPhase::Done {
        assert(launch_run(c, q0, rest0) == Seq::<LaunchActionView>::empty());
        assert(false);
    }
    assert(i >= 1);
    let run1 = launch_run(c, q0, rest0);
    assert(run1[i - 1] == run0[i]);
    let (q1, a1) = launch_next(c, q0, rest0[0]);
    let rest1 = rest0.skip(1);
    assert(run1 == seq![a1] + launch_run(c, q1, rest1));
    if q1 == LaunchPhase::Done {
        assert(launch_run(c, q1, rest1) == Seq::<LaunchActionView>::empty());
        assert(false);
    }
    assert(events[1] == rest0[0]);
}

/// A request returns the bridge's answer only when the answer says it
/// succeeded; any other answer ends the request with a private-API error.
pub proof fn law_only_successful_answers_returned(c: InvokeSetup, v: JsonValue)
    ensures
        invoke_next(c, InvokePhase::Decoding, InvokeEventView::Decoded(Ok(v))).0
            == InvokePhase::Done,
        (invoke_next(c, InvokePhase::Decoding, InvokeEventView::Decoded(Ok(v))).1 matches
            InvokeActionView::Finished(Ok(r)) && r == parse_response(v)) <==> parse_response(
            v,
        ).success,
        !parse_response(v).success ==> (invoke_next(
            c,
            InvokePhase::Decoding,
            InvokeEventView::Decoded(Ok(v)),
        ).1 matches InvokeActionView::Finished(Err(ErrorView::PrivateApi(_)))),
{
}

/// A request whose time runs out withdraws its request file and ends with a
/// timeout error naming its action; until then, a look at the outbox that
/// finds no complete answer leads to another look.
pub proof fn law_timeout_withdraws_request(c: InvokeSetup, bytes: Seq<u8>)
    ensures
        invoke_next(c, InvokePhase::Polling, InvokeEventView::Polled(PollOutcomeView::TimedOut))
            == (InvokePhase::Withdrawing, InvokeActionView::Withdraw { path: c.request }),
        invoke_next(c, InvokePhase::Withdrawing, InvokeEventView::Completed) == (
            InvokePhase::Done,
            InvokeActionView::Finished(
                Err(ErrorView::PrivateApi(RESPONSE_TIMEOUT_TEXT@ + c.action + "'"@)),
            ),
        ),
        bytes.len() <= 1 ==> invoke_next(
            c,
            InvokePhase::Polling,
            InvokeEventView::Polled(PollOutcomeView::Read(bytes)),
        ).0 == InvokePhase::Pausing,
        invoke_answers(InvokePhase::Pausing, InvokeEventView::Completed) && invoke_next(
            c,
            InvokePhase::Pausing,
            InvokeEventView::Completed,
        ) == (InvokePhase::Polling, InvokeActionView::Poll { path: c.response }),
{
}

/// A launch asks for at most one action per event.
proof fn lemma_run_len(c: LaunchSetup, p: LaunchPhase, events: Seq<LaunchEventView>)
    ensures
        launch_run(c, p, events).len() <= events.len(),
    decreases events.len(),
{
    if events.len() > 0 && launch_answers(p, events[0]) {
        let (q, a) = launch_next(c, p, events[0]);
        lemma_run_len(c, q, events.skip(1));
    }
}

/// A launch ends successfully only on seeing the bridge's ready lock: the
/// step that reports success is always the answer that the lock is there,
/// whether it was there at once or appeared after Messages was relaunched.
pub proof fn law_success_needs_ready_lock(
    c: LaunchSetup,
    p: LaunchPhase,
    events: Seq<LaunchEventView>,
    i: int,
)
    requires
        0 <= i < launch_run(c, p, events).len(),
        launch_run(c, p, events)[i] == LaunchActionView::Finished(Ok::<(), ErrorView>(())),
    ensures
        events[i] == LaunchEventView::ReadyChecked(true) || events[i]
            == LaunchEventView::ReadyWaited(true),
    decreases i,
{
    lemma_run_len(c, p, events);
    let (q, a) = launch_next(c, p, events[0]);
    assert(launch_run(c, p, events) == seq![a] + launch_run(c, q, events.skip(1)));
    if i > 0 {
        assert(launch_run(c, q, events.skip(1))[i - 1] == launch_run(c, p, events)[i]);
        law_success_needs_ready_lock(c, q, events.skip(1), i - 1);
        assert(events.skip(1)[i - 1] == events[i]);
    }
}

} // verus!
