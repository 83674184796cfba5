//! A model of request histories against the output controller.
//!
//! Each served request is abstracted to the effect it has on the
//! controller: a read leaves it alone, a toggle either commits or fails.
//! `run` folds a history of such events over a controller view; the
//! lemmas below state the parity and counting laws of toggling: exactly
//! the committed toggles count, each exactly once, and reads never move
//! the state, however they are interleaved.

use vstd::prelude::*;
use crate::output::{flip, ControllerView};

verus! {

/// What one served request did to the output controller.
#[derive(Clone, Copy, Debug, PartialEq, Eq, Structural)]
pub enum RequestEvent {
    /// A request that does not touch the controller: the index route, or
    /// an unmatched request delegated to the transport's default handler.
    Read,
    /// A toggle request whose pin write took effect and was committed.
    ToggleApplied,
    /// A toggle request whose pin write failed; nothing was committed.
    ToggleFailed,
}

/// The controller view after one request.
pub open spec fn step(v: ControllerView, e: RequestEvent) -> ControllerView {
    match e {
        RequestEvent::Read => v,
        RequestEvent::ToggleFailed => v,
        RequestEvent::ToggleApplied => ControllerView {
            state: flip(v.state),
            commits: v.commits + 1,
        },
    }
}

/// The controller view after a whole history of requests, first to last.
pub open spec fn run(v: ControllerView, history: Seq<RequestEvent>) -> ControllerView
    decreases history.len(),
{
    if history.len() == 0 {
        v
    } else {
        run(step(v, history[0]), history.drop_first())
    }
}

/// How many toggles in the history were committed.
pub open spec fn applied_count(history: Seq<RequestEvent>) -> nat
    decreases history.len(),
{
    if history.len() == 0 {
        0
    } else {
        (if history[0] == RequestEvent::ToggleApplied {
            1nat
        } else {
            0nat
        }) + applied_count(history.drop_first())
    }
}

/// The history with every read removed, the other events kept in order.
pub open spec fn without_reads(history: Seq<RequestEvent>) -> Seq<RequestEvent>
    decreases history.len(),
{
    if history.len() == 0 {
        Seq::empty()
    } else if history[0] == RequestEvent::Read {
        without_reads(history.drop_first())
    } else {
        seq![history[0]] + without_reads(history.drop_first())
    }
}

/// No toggle is lost and none is duplicated: after any history of
/// requests, in whatever order its events were interleaved, the commit
/// counter has grown by exactly the number of committed toggles, and the
/// output state is the initial state flipped once per committed toggle —
/// it ends where it began exactly when that number is even.
pub proof fn lemma_run_parity(v: ControllerView, history: Seq<RequestEvent>)
    ensures
        run(v, history).commits == v.commits + applied_count(history),
        run(v, history).state == (if applied_count(history) % 2 == 0 {
            v.state
        } else {
            flip(v.state)
        }),
    decreases history.len(),
{
    if history.len() > 0 {
        lemma_run_parity(step(v, history[0]), history.drop_first());
    }
}

/// Reads never move the output state: a history leads the controller to
/// exactly the same view as the same history with every read removed, so
/// any number of reads, interleaved anywhere between toggles, changes
/// neither the toggle parity nor the commit count.
pub proof fn lemma_reads_no_effect(v: ControllerView, history: Seq<RequestEvent>)
    ensures
        run(v, history) == run(v, without_reads(history)),
    decreases history.len(),
{
    if history.len() > 0 {
        let e = history[0];
        let rest = history.drop_first();
        lemma_reads_no_effect(step(v, e), rest);
        if e != RequestEvent::Read {
            assert((seq![e] + without_reads(rest)).drop_first() =~= without_reads(rest));
        }
    }
}

} // verus!
