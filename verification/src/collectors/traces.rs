//! Traces: telling the traces that ran to their end from those that failed.

use crate::chain::Trace;
use vstd::prelude::*;

verus! {

/// The path of an optional owned trace address.
pub open spec fn scope_view(scope: Option<Vec<usize>>) -> Option<Seq<usize>> {
    match scope {
        Some(path) => Some(path@),
        None => None,
    }
}

/// Whether a trace sits at or below the trace address of a failure.
pub open spec fn in_scope(scope: Option<Seq<usize>>, trace: Trace) -> bool {
    scope matches Some(path) && path.is_prefix_of(trace.trace_address@)
}

/// The failure in force at a trace, given the one in force after the traces
/// before it: a top-level trace starts afresh.
pub open spec fn scope_at(before: Option<Seq<usize>>, trace: Trace) -> Option<Seq<usize>> {
    if trace.is_root() {
        None
    } else {
        before
    }
}

/// The trace address of the failure that is in force after a list of traces:
/// that of the last trace that failed on its own account, as long as every
/// trace since has sat at or below it.
pub open spec fn failure_scope(traces: Seq<Trace>) -> Option<Seq<usize>>
    decreases traces.len(),
{
    if traces.len() == 0 {
        None
    } else {
        let trace = traces.last();
        let scope = scope_at(failure_scope(traces.drop_last()), trace);
        if in_scope(scope, trace) {
            scope
        } else if trace.error is Some {
            Some(trace.trace_address@)
        } else {
            None
        }
    }
}

/// Whether the trace at a position ran to its end: it carries no error and
/// does not sit at or below a trace of its transaction that failed.
pub open spec fn succeeded(traces: Seq<Trace>, at: int) -> bool {
    let trace = traces[at];
    !in_scope(scope_at(failure_scope(traces.take(at)), trace), trace) && trace.error is None
}

/// The traces of a list that ran to their end, in order.
pub open spec fn successful_traces(traces: Seq<Trace>) -> Seq<Trace>
    decreases traces.len(),
{
    if traces.len() == 0 {
        Seq::empty()
    } else if succeeded(traces, traces.len() - 1) {
        successful_traces(traces.drop_last()).push(traces.last())
    } else {
        successful_traces(traces.drop_last())
    }
}

/// The traces that ran to their end are no more than the traces, and none of
/// them carries an error.
pub proof fn lemma_successful_traces(traces: Seq<Trace>)
    ensures
        successful_traces(traces).len() <= traces.len(),
        forall|i: int|
            0 <= i < successful_traces(traces).len() ==> (#[trigger] successful_traces(
                traces,
            )[i]).error is None,
    decreases traces.len(),
{
    if traces.len() > 0 {
        lemma_successful_traces(traces.drop_last());
    }
}

/// Where no trace carries an error, no failure is in force.
proof fn lemma_no_failure_scope(traces: Seq<Trace>)
    requires
        forall|i: int| 0 <= i < traces.len() ==> (#[trigger] traces[i]).error is None,
    ensures
        failure_scope(traces) is None,
    decreases traces.len(),
{
    if traces.len() > 0 {
        lemma_no_failure_scope(traces.drop_last());
    }
}

/// A list in which no trace carries an error is kept whole.
pub proof fn lemma_without_errors_kept_whole(traces: Seq<Trace>)
    requires
        forall|i: int| 0 <= i < traces.len() ==> (#[trigger] traces[i]).error is None,
    ensures
        successful_traces(traces) == traces,
    decreases traces.len(),
{
    if traces.len() > 0 {
        lemma_without_errors_kept_whole(traces.drop_last());
        lemma_no_failure_scope(traces.drop_last());
    }
}

/// Removing the failed traces once removes them all: doing it again
/// changes nothing.
pub proof fn lemma_filter_idempotent(traces: Seq<Trace>)
    ensures
        successful_traces(successful_traces(traces)) == successful_traces(traces),
{
    lemma_successful_traces(traces);
    lemma_without_errors_kept_whole(successful_traces(traces));
}

fn starts_with(path: &Vec<usize>, start: &Vec<usize>) -> (r: bool)
    ensures
        r == start@.is_prefix_of(path@),
{
    if start.len() > path.len() {
        return false;
    }
    let mut i: usize = 0;
    while i < start.len()
        invariant
            i <= start@.len() <= path@.len(),
            forall|k: int| 0 <= k < i ==> start@[k] == path@[k],
        decreases start@.len() - i,
    {
        if start[i] != path[i] {
            return false;
        }
        i = i + 1;
    }
    true
}

/// Removes the traces that failed: those that carry an error, and those that
/// sit at or below such a trace within the same transaction.
pub fn filter_failed_traces(traces: Vec<Trace>) -> (kept: Vec<Trace>)
    ensures
        kept@ == successful_traces(traces@),
{
    let mut error_address: Option<Vec<usize>> = None;
    let mut kept: Vec<Trace> = Vec::new();
    for trace in it: traces
        invariant
            it.seq() == traces@,
            kept@ == successful_traces(traces@.take(it.index() as int)),
            scope_view(error_address) == failure_scope(traces@.take(it.index() as int)),
    {
        proof {
            let done = it.index() as int;
            assert(traces@.take(done + 1).drop_last() =~= traces@.take(done));
        }
        if trace.is_root() {
            error_address = None;
        }
        let skip = match &error_address {
            Some(path) => starts_with(&trace.trace_address, path),
            None => false,
        };
        if !skip {
            if trace.error.is_some() {
                error_address = Some(trace.trace_address);
            } else {
                error_address = None;
                kept.push(trace);
            }
        }
    }
    assert(traces@.take(traces@.len() as int) =~= traces@);
    kept
}

} // verus!
