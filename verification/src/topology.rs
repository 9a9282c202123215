//! The shape of the trace that a run builds, and what holds of it for every
//! number of children.
//!
//! The tracing backend is modelled by what the generator relies on: a
//! span is opened under the span that is active, opening makes the new span
//! active, closing makes its parent active again, and a report names the
//! active span. Spans are numbered in the order in which they are opened.

use crate::generator::{SpanPlan, SpanStep};
use crate::spans::SpanIds;
use vstd::prelude::*;

verus! {

/// What is known of a span once it is opened.
pub struct SpanRecord {
    pub tracer_name: Seq<char>,
    pub span_name: Seq<char>,
    /// The span it was opened under; none for a root.
    pub parent: Option<nat>,
}

/// The state of the backend after some operations.
pub struct Trace {
    /// Every span opened so far, in order of opening.
    pub spans: Seq<SpanRecord>,
    /// The spans that are open, outermost first; the last one is active.
    pub active: Seq<nat>,
    /// The span named by each report so far, in order; none where no span was
    /// active.
    pub reported: Seq<Option<nat>>,
}

impl Trace {
    /// The backend before anything is done to it.
    pub open spec fn empty() -> Trace {
        Trace { spans: Seq::empty(), active: Seq::empty(), reported: Seq::empty() }
    }

    /// The active span, if there is one.
    pub open spec fn current(self) -> Option<nat> {
        if self.active.len() > 0 {
            Some(self.active.last())
        } else {
            None
        }
    }

    /// The backend after one more operation.
    pub open spec fn perform(self, step: SpanStep) -> Trace {
        match step {
            SpanStep::Open { tracer_name, span_name } => Trace {
                spans: self.spans.push(SpanRecord { tracer_name, span_name, parent: self.current() }),
                active: self.active.push(self.spans.len()),
                reported: self.reported,
            },
            SpanStep::Report => Trace {
                spans: self.spans,
                active: self.active,
                reported: self.reported.push(self.current()),
            },
            SpanStep::Close => Trace {
                spans: self.spans,
                active: if self.active.len() > 0 {
                    self.active.drop_last()
                } else {
                    self.active
                },
                reported: self.reported,
            },
            SpanStep::Finish => self,
        }
    }
}

/// The backend after a sequence of operations, performed in order from the
/// start.
pub open spec fn replay(steps: Seq<SpanStep>) -> Trace
    decreases steps.len(),
{
    if steps.len() == 0 {
        Trace::empty()
    } else {
        replay(steps.drop_last()).perform(steps.last())
    }
}

/// A root and `children` spans under it, all of one plan's names.
pub open spec fn family(plan: SpanPlan, children: nat) -> Seq<SpanRecord> {
    Seq::new(
        children + 1,
        |j: int|
            SpanRecord {
                tracer_name: plan.tracer_name,
                span_name: plan.span_name,
                parent: if j == 0 {
                    None
                } else {
                    Some(0nat)
                },
            },
    )
}

/// Reports of the spans `0..=last`, each once, in order of opening.
pub open spec fn reports_through(last: nat) -> Seq<Option<nat>> {
    Seq::new(last + 1, |j: int| Some(j as nat))
}

/// The backend while the root is open and `children` of its children have
/// come and gone.
pub open spec fn midway(plan: SpanPlan, children: nat) -> Trace {
    Trace {
        spans: family(plan, children),
        active: seq![0nat],
        reported: reports_through(children),
    }
}

/// The backend at the end of a run.
pub open spec fn outcome(plan: SpanPlan) -> Trace {
    Trace {
        spans: family(plan, plan.number),
        active: Seq::empty(),
        reported: reports_through(plan.number),
    }
}

proof fn lemma_replay_next(steps: Seq<SpanStep>, k: int)
    requires
        0 <= k < steps.len(),
    ensures
        replay(steps.take(k + 1)) == replay(steps.take(k)).perform(steps[k]),
{
    assert(steps.take(k + 1).drop_last() =~= steps.take(k));
    assert(steps.take(k + 1).last() == steps[k]);
}

proof fn lemma_midway(plan: SpanPlan, children: nat)
    requires
        children <= plan.number,
    ensures
        replay(plan.script().take((3 * children + 2) as int)) == midway(plan, children),
    decreases children,
{
    let script = plan.script();
    if children == 0 {
        assert(script.take(0) =~= Seq::<SpanStep>::empty());
        lemma_replay_next(script, 0);
        lemma_replay_next(script, 1);
        let after = replay(script.take(2));
        assert(after.spans =~= family(plan, 0));
        assert(after.active =~= seq![0nat]);
        assert(after.reported =~= reports_through(0));
    } else {
        let before = (children - 1) as nat;
        let k: int = (3 * before + 2) as int;
        lemma_midway(plan, before);
        lemma_replay_next(script, k);
        lemma_replay_next(script, k + 1);
        lemma_replay_next(script, k + 2);
        let after = replay(script.take(k + 3));
        assert(after.spans =~= family(plan, children));
        assert(after.active =~= seq![0nat]);
        assert(after.reported =~= reports_through(children));
    }
}

/// Whatever the number of children, a run leaves the backend with the root
/// and its children, each child opened under the root, every span closed, and
/// each span reported once in the order of opening.
pub proof fn lemma_run_outcome(plan: SpanPlan)
    ensures
        replay(plan.script()) == outcome(plan),
{
    let script = plan.script();
    let k: int = (3 * plan.number + 2) as int;
    lemma_midway(plan, plan.number);
    lemma_replay_next(script, k);
    assert(script.take(k + 1) =~= script);
    assert(replay(script).active =~= Seq::<nat>::empty());
}

/// A run of `n` children reports `n + 1` spans: the root first, then the
/// children in the order in which they were opened, none of them twice.
pub proof fn lemma_reports_each_span_once(plan: SpanPlan)
    ensures
        replay(plan.script()).spans.len() == plan.number + 1,
        replay(plan.script()).reported.len() == plan.number + 1,
        forall|j: int|
            0 <= j <= plan.number ==> #[trigger] replay(plan.script()).reported[j] == Some(
                j as nat,
            ),
{
    lemma_run_outcome(plan);
}

/// The children of a run are siblings: the first span has no parent, and
/// every later span was opened under the first, however many there are.
pub proof fn lemma_children_under_root(plan: SpanPlan)
    ensures
        replay(plan.script()).spans.len() == plan.number + 1,
        replay(plan.script()).spans[0].parent is None,
        forall|j: int|
            1 <= j <= plan.number ==> (#[trigger] replay(plan.script()).spans[j]).parent == Some(
                0nat,
            ),
{
    lemma_run_outcome(plan);
}

/// Every span of a run carries the plan's names, and none is left open.
pub proof fn lemma_spans_named_and_closed(plan: SpanPlan)
    ensures
        replay(plan.script()).active.len() == 0,
        forall|j: int|
            0 <= j <= plan.number ==> {
                &&& (#[trigger] replay(plan.script()).spans[j]).tracer_name == plan.tracer_name
                &&& replay(plan.script()).spans[j].span_name == plan.span_name
            },
{
    lemma_run_outcome(plan);
}

/// Identifiers as a backend hands them to the spans of a trace, one pair for
/// each span: a span opened under another belongs to that span's trace.
pub open spec fn follows_parents(trace: Trace, ids: Seq<SpanIds>) -> bool {
    &&& ids.len() == trace.spans.len()
    &&& forall|j: int|
        0 <= j < trace.spans.len() ==> ((#[trigger] trace.spans[j]).parent matches Some(p) ==> {
            &&& p < ids.len()
            &&& ids[j].trace_id == ids[p as int].trace_id
        })
}

/// No two spans have the same span identifier.
pub open spec fn span_ids_distinct(ids: Seq<SpanIds>) -> bool {
    forall|i: int, j: int|
        0 <= i < j < ids.len() ==> (#[trigger] ids[i]).span_id != (#[trigger] ids[j]).span_id
}

/// The identifiers that the `k`-th report of a trace prints.
pub open spec fn reported_ids(trace: Trace, ids: Seq<SpanIds>, k: int) -> SpanIds
    recommends
        0 <= k < trace.reported.len(),
        trace.reported[k] is Some,
{
    ids[trace.reported[k]->0 as int]
}

/// On a backend that puts a span into the trace of the span it is opened
/// under, every line of a run shows the same trace identifier, that of the
/// root. On one that also gives no two spans the same span identifier, no two
/// lines show the same span identifier.
pub proof fn lemma_one_trace(plan: SpanPlan, ids: Seq<SpanIds>)
    requires
        follows_parents(replay(plan.script()), ids),
    ensures
        forall|k: int|
            0 <= k <= plan.number ==> (#[trigger] reported_ids(
                replay(plan.script()),
                ids,
                k,
            )).trace_id == ids[0].trace_id,
        span_ids_distinct(ids) ==> forall|k: int, l: int|
            0 <= k < l <= plan.number ==> (#[trigger] reported_ids(
                replay(plan.script()),
                ids,
                k,
            )).span_id != (#[trigger] reported_ids(replay(plan.script()), ids, l)).span_id,
{
    lemma_run_outcome(plan);
    let trace = replay(plan.script());
    assert forall|k: int| 0 <= k <= plan.number implies (#[trigger] reported_ids(
        trace,
        ids,
        k,
    )).trace_id == ids[0].trace_id by {
        if k > 0 {
            assert(trace.spans[k].parent == Some(0nat));
        }
    }
}

} // verus!
