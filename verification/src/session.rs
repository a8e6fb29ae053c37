//! One pass over a plan of sends, carried out in order.
//!
//! The caller of the library performs the sends themselves; this module
//! keeps the book. A session starts on a plan, hands out the next
//! request, and records the outcome of each attempt — success or
//! failure alike. Recording a failure moves the session forward exactly
//! as recording a success does, so no failure cuts the burst short:
//! every request of the plan is attempted.

use crate::plan::{
    burst_len, burst_request, plan_view, response_plan, trigger_text, GatewayEventView,
    MessageEventView, SendRequest, SendRequestView,
};
use vstd::prelude::*;

verus! {

/// Mathematical image of a session: the plan it runs, and the outcomes
/// recorded so far, one per attempted request, in the plan's order.
pub struct SessionView {
    pub requests: Seq<SendRequestView>,
    pub outcomes: Seq<bool>,
}

impl SessionView {
    /// At most one outcome per request of the plan.
    pub open spec fn wf(self) -> bool {
        self.outcomes.len() <= self.requests.len()
    }

    /// How many requests have been attempted.
    pub open spec fn attempted(self) -> int {
        self.outcomes.len() as int
    }

    /// Every request of the plan has been attempted.
    pub open spec fn finished(self) -> bool {
        self.outcomes.len() == self.requests.len()
    }

    /// The session after one more attempt with outcome `ok`: the plan
    /// stands, the outcome is recorded, and nothing else changes — in
    /// particular, a failure moves the session forward exactly as a
    /// success does.
    pub open spec fn step(self, ok: bool) -> SessionView {
        SessionView { requests: self.requests, outcomes: self.outcomes.push(ok) }
    }

    /// The session after recording each outcome of `results`, in order.
    pub open spec fn run(self, results: Seq<bool>) -> SessionView
        decreases results.len(),
    {
        if results.len() == 0 {
            self
        } else {
            self.step(results[0]).run(results.drop_first())
        }
    }
}

/// However the attempts turn out, a session that records one outcome
/// per remaining request attempts the whole plan: the plan is
/// unchanged, the recorded outcomes are exactly `results`, and the
/// session finishes. No single failure, nor any run of failures,
/// aborts the attempts that follow.
pub proof fn lemma_no_early_abort(s: SessionView, results: Seq<bool>)
    requires
        s.wf(),
        results.len() == s.requests.len() - s.outcomes.len(),
    ensures
        s.run(results).requests == s.requests,
        s.run(results).outcomes == s.outcomes + results,
        s.run(results).attempted() == s.requests.len(),
        s.run(results).finished(),
    decreases results.len(),
{
    if results.len() == 0 {
        assert(s.outcomes + results =~= s.outcomes);
    } else {
        lemma_no_early_abort(s.step(results[0]), results.drop_first());
        assert(s.outcomes + results =~= (s.outcomes.push(results[0])) + results.drop_first());
    }
}

/// A message that is, letter for letter, the trigger earns exactly
/// `burst_len()` send attempts: the planned requests carry the captions
/// numbered 1 through `burst_len()` in ascending order, all aimed at
/// the channel the message arrived on, and a session that records one
/// outcome per planned request — however each attempt turns out —
/// attempts every one of them.
pub proof fn lemma_trigger_attempts_all(m: MessageEventView, results: Seq<bool>)
    requires
        m.content == trigger_text(),
        results.len() == burst_len(),
    ensures
        response_plan(GatewayEventView::MessageArrived(m)).len() == burst_len(),
        forall|j: int|
            0 <= j < burst_len() ==> response_plan(GatewayEventView::MessageArrived(m))[j]
                == burst_request(m.channel_id, j + 1),
        (SessionView {
            requests: response_plan(GatewayEventView::MessageArrived(m)),
            outcomes: Seq::<bool>::empty(),
        }).run(results).finished(),
        (SessionView {
            requests: response_plan(GatewayEventView::MessageArrived(m)),
            outcomes: Seq::<bool>::empty(),
        }).run(results).attempted() == burst_len(),
{
    let s = SessionView {
        requests: response_plan(GatewayEventView::MessageArrived(m)),
        outcomes: Seq::<bool>::empty(),
    };
    lemma_no_early_abort(s, results);
}

/// One pass over a plan: hands out each request in order and records
/// the outcome of each attempt, failures included.
pub struct SendSession {
    requests: Vec<SendRequest>,
    outcomes: Vec<bool>,
}

impl View for SendSession {
    type V = SessionView;

    closed spec fn view(&self) -> SessionView {
        SessionView { requests: plan_view(self.requests@), outcomes: self.outcomes@ }
    }
}

impl SendSession {
    /// At most one outcome per request of the plan.
    pub open spec fn wf(self) -> bool {
        self@.wf()
    }

    /// Start a session on `plan`: nothing attempted yet.
    pub fn begin(plan: Vec<SendRequest>) -> (s: SendSession)
        ensures
            s@ == (SessionView { requests: plan_view(plan@), outcomes: Seq::<bool>::empty() }),
            s.wf(),
    {
        let s = SendSession { requests: plan, outcomes: Vec::new() };
        proof {
            assert(s@.outcomes =~= Seq::<bool>::empty());
        }
        s
    }

    /// How many requests have been attempted so far.
    pub fn attempted(&self) -> (n: usize)
        ensures
            n == self@.attempted(),
    {
        self.outcomes.len()
    }

    /// How many requests the plan holds in all.
    pub fn total(&self) -> (n: usize)
        ensures
            n == self@.requests.len(),
    {
        self.requests.len()
    }

    /// Whether every request of the plan has been attempted.
    pub fn is_finished(&self) -> (r: bool)
        ensures
            r == self@.finished(),
    {
        self.outcomes.len() == self.requests.len()
    }

    /// The next request to attempt: the first one without a recorded
    /// outcome, or nothing once the session is finished.
    pub fn next_request(&self) -> (r: Option<&SendRequest>)
        requires
            self.wf(),
        ensures
            match r {
                Some(req) => !self@.finished() && req@ == self@.requests[self@.attempted()],
                None => self@.finished(),
            },
    {
        if self.outcomes.len() < self.requests.len() {
            Some(&self.requests[self.outcomes.len()])
        } else {
            None
        }
    }

    /// Record the outcome of the attempt on the current request.
    /// Success and failure advance the session alike: the plan is kept,
    /// one more outcome stands, and the remaining requests are still
    /// owed their attempts.
    pub fn record_outcome(&mut self, ok: bool)
        requires
            old(self).wf(),
            !old(self)@.finished(),
        ensures
            final(self)@ == old(self)@.step(ok),
            final(self).wf(),
    {
        self.outcomes.push(ok);
    }
}

} // verus!
