use vstd::prelude::*;

use crate::wire::WireValue;

verus! {

/// A request to post: the full URL of the endpoint and the JSON body.
#[derive(Debug, PartialEq)]
pub struct Request {
    pub url: String,
    pub body: WireValue,
}

/// Where the keep-alive task stands.
#[derive(Clone, Copy, Debug, PartialEq, Eq, Structural)]
pub enum HeartbeatPhase {
    /// A keep-alive request is due now.
    Due,
    /// The last request went through; the task waits one interval.
    Waiting,
    /// Teardown stopped the task.
    Cancelled,
    /// A request failed; the task does not retry.
    Failed,
}

/// What the task's runner is to do next.
#[derive(Clone, Copy, Debug, PartialEq, Eq, Structural)]
pub enum HeartbeatAction {
    Send,
    Sleep(u64),
    Stop,
}

/// What happened to the task.
#[derive(Clone, Copy, Debug, PartialEq, Eq, Structural)]
pub enum HeartbeatEvent {
    /// The keep-alive request was sent; `true` when it succeeded.
    Sent(bool),
    /// One interval has passed.
    Slept,
    /// The session is being torn down.
    Cancel,
}

pub open spec fn spec_step(p: HeartbeatPhase, ev: HeartbeatEvent) -> HeartbeatPhase {
    match ev {
        HeartbeatEvent::Cancel => if p is Failed { p } else { HeartbeatPhase::Cancelled },
        HeartbeatEvent::Sent(ok) => if p is Due {
            if ok { HeartbeatPhase::Waiting } else { HeartbeatPhase::Failed }
        } else {
            p
        },
        HeartbeatEvent::Slept => if p is Waiting { HeartbeatPhase::Due } else { p },
    }
}

pub open spec fn spec_action(p: HeartbeatPhase, interval_ms: u64) -> HeartbeatAction {
    match p {
        HeartbeatPhase::Due => HeartbeatAction::Send,
        HeartbeatPhase::Waiting => HeartbeatAction::Sleep(interval_ms),
        _ => HeartbeatAction::Stop,
    }
}

/// The phase reached from `p` after the events `evs`, in order.
pub open spec fn spec_run(p: HeartbeatPhase, evs: Seq<HeartbeatEvent>) -> HeartbeatPhase
    decreases evs.len(),
{
    if evs.len() == 0 {
        p
    } else {
        spec_run(spec_step(p, evs[0]), evs.drop_first())
    }
}

/// The keep-alive task of an active session: one request, sent once per interval
/// until teardown cancels it or a request fails.
#[derive(Debug)]
pub struct HeartbeatTask {
    pub request: Request,
    pub interval_ms: u64,
    pub phase: HeartbeatPhase,
}

impl HeartbeatTask {
    pub fn new(request: Request, interval_ms: u64) -> (r: HeartbeatTask)
        ensures
            r.request == request,
            r.interval_ms == interval_ms,
            r.phase == HeartbeatPhase::Due,
    {
        HeartbeatTask { request, interval_ms, phase: HeartbeatPhase::Due }
    }

    pub fn next_action(&self) -> (r: HeartbeatAction)
        ensures
            r == spec_action(self.phase, self.interval_ms),
    {
        match self.phase {
            HeartbeatPhase::Due => HeartbeatAction::Send,
            HeartbeatPhase::Waiting => HeartbeatAction::Sleep(self.interval_ms),
            _ => HeartbeatAction::Stop,
        }
    }

    pub fn step(&mut self, ev: HeartbeatEvent)
        ensures
            final(self).phase == spec_step(old(self).phase, ev),
            final(self).request == old(self).request,
            final(self).interval_ms == old(self).interval_ms,
    {
        self.phase = match ev {
            HeartbeatEvent::Cancel => match self.phase {
                HeartbeatPhase::Failed => HeartbeatPhase::Failed,
                _ => HeartbeatPhase::Cancelled,
            },
            HeartbeatEvent::Sent(ok) => match self.phase {
                HeartbeatPhase::Due => if ok { HeartbeatPhase::Waiting } else { HeartbeatPhase::Failed },
                p => p,
            },
            HeartbeatEvent::Slept => match self.phase {
                HeartbeatPhase::Waiting => HeartbeatPhase::Due,
                p => p,
            },
        };
    }

    pub fn cancel(&mut self)
        ensures
            final(self).phase == spec_step(old(self).phase, HeartbeatEvent::Cancel),
            final(self).phase == HeartbeatPhase::Cancelled || final(self).phase == HeartbeatPhase::Failed,
            final(self).request == old(self).request,
            final(self).interval_ms == old(self).interval_ms,
    {
        self.step(HeartbeatEvent::Cancel);
    }

    pub fn is_stopped(&self) -> (r: bool)
        ensures
            r == (self.phase is Cancelled || self.phase is Failed),
    {
        match self.phase {
            HeartbeatPhase::Cancelled | HeartbeatPhase::Failed => true,
            _ => false,
        }
    }
}

/// A stopped task stays stopped whatever happens next.
pub proof fn lemma_stopped_stays(p: HeartbeatPhase, evs: Seq<HeartbeatEvent>)
    requires
        p is Cancelled || p is Failed,
    ensures
        spec_run(p, evs) is Cancelled || spec_run(p, evs) is Failed,
    decreases evs.len(),
{
    if evs.len() > 0 {
        lemma_stopped_stays(spec_step(p, evs[0]), evs.drop_first());
    }
}

/// No keep-alive after cancellation: once cancelled, whatever happens next, the
/// task's action is to stop, never to send.
pub proof fn lemma_no_heartbeat_after_cancel(p: HeartbeatPhase, evs: Seq<HeartbeatEvent>, interval_ms: u64)
    ensures
        spec_action(spec_run(spec_step(p, HeartbeatEvent::Cancel), evs), interval_ms) == HeartbeatAction::Stop,
{
    lemma_stopped_stays(spec_step(p, HeartbeatEvent::Cancel), evs);
}

/// Cadence: after a request that went through, the task waits exactly the negotiated
/// interval, then sends again; a failed request stops it for good.
pub proof fn lemma_heartbeat_cadence(interval_ms: u64, evs: Seq<HeartbeatEvent>)
    ensures
        spec_action(HeartbeatPhase::Due, interval_ms) == HeartbeatAction::Send,
        spec_action(spec_step(HeartbeatPhase::Due, HeartbeatEvent::Sent(true)), interval_ms)
            == HeartbeatAction::Sleep(interval_ms),
        spec_step(spec_step(HeartbeatPhase::Due, HeartbeatEvent::Sent(true)), HeartbeatEvent::Slept)
            == HeartbeatPhase::Due,
        spec_action(spec_run(spec_step(HeartbeatPhase::Due, HeartbeatEvent::Sent(false)), evs), interval_ms)
            == HeartbeatAction::Stop,
{
    lemma_stopped_stays(spec_step(HeartbeatPhase::Due, HeartbeatEvent::Sent(false)), evs);
}

} // verus!
