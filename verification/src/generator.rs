//! The span operations of a run, one at a time.
//!
//! A run opens a root span, reports it, then opens, reports and closes each
//! child in turn while the root is still open, and closes the root last. The
//! generator decides the next operation; its caller performs it on the
//! tracing backend and asks again.

use crate::config::Args;
use vstd::prelude::*;

verus! {

/// One operation on the tracing backend.
#[derive(Debug)]
pub enum SpanAction {
    /// Open a span under the span that is active now, and make it the active
    /// span.
    Open { tracer_name: String, span_name: String },
    /// Print the line that reports the active span.
    Report,
    /// Close the active span; the span it was opened under is active again.
    Close,
    /// Nothing is left to do: every span is closed.
    Finish,
}

/// A span operation as a mathematical value.
pub enum SpanStep {
    Open { tracer_name: Seq<char>, span_name: Seq<char> },
    Report,
    Close,
    Finish,
}

impl View for SpanAction {
    type V = SpanStep;

    open spec fn view(&self) -> SpanStep {
        match self {
            SpanAction::Open { tracer_name, span_name } => SpanStep::Open {
                tracer_name: tracer_name@,
                span_name: span_name@,
            },
            SpanAction::Report => SpanStep::Report,
            SpanAction::Close => SpanStep::Close,
            SpanAction::Finish => SpanStep::Finish,
        }
    }
}

/// What a run is made from: the two names and the number of children.
pub struct SpanPlan {
    pub tracer_name: Seq<char>,
    pub span_name: Seq<char>,
    pub number: nat,
}

impl SpanPlan {
    /// The operation that opens a span of this plan.
    pub open spec fn open(self) -> SpanStep {
        SpanStep::Open { tracer_name: self.tracer_name, span_name: self.span_name }
    }

    /// How many operations the run performs: two for the root before its
    /// children, three for each child, one to close the root.
    pub open spec fn len(self) -> nat {
        3 * self.number + 3
    }

    /// The operation at position `k` of the run.
    pub open spec fn step(self, k: int) -> SpanStep {
        if k == 0 {
            self.open()
        } else if k == 1 {
            SpanStep::Report
        } else if k == 3 * self.number + 2 {
            SpanStep::Close
        } else if (k - 2) % 3 == 0 {
            self.open()
        } else if (k - 2) % 3 == 1 {
            SpanStep::Report
        } else {
            SpanStep::Close
        }
    }

    /// The whole run, in order.
    pub open spec fn script(self) -> Seq<SpanStep> {
        Seq::new(self.len(), |k: int| self.step(k))
    }
}

#[derive(Clone, Copy, Debug, PartialEq, Eq, Structural)]
enum Phase {
    OpenRoot,
    ReportRoot,
    OpenChild,
    ReportChild,
    CloseChild,
    CloseRoot,
    Finished,
}

/// Hands out the operations of one run, in order.
#[derive(Debug)]
pub struct SpanGenerator {
    tracer_name: String,
    span_name: String,
    number: usize,
    phase: Phase,
    /// Which child is in hand; zero before the first.
    child: usize,
}

impl SpanGenerator {
    #[verifier::type_invariant]
    spec fn well_formed(&self) -> bool {
        match self.phase {
            Phase::OpenRoot | Phase::ReportRoot => self.child == 0,
            Phase::OpenChild | Phase::ReportChild | Phase::CloseChild => self.child < self.number,
            Phase::CloseRoot | Phase::Finished => true,
        }
    }

    /// The run that this generator hands out.
    pub closed spec fn plan(&self) -> SpanPlan {
        SpanPlan {
            tracer_name: self.tracer_name@,
            span_name: self.span_name@,
            number: self.number as nat,
        }
    }

    /// How many operations of the run have been handed out.
    pub closed spec fn issued(&self) -> nat {
        match self.phase {
            Phase::OpenRoot => 0,
            Phase::ReportRoot => 1,
            Phase::OpenChild => (3 * self.child + 2) as nat,
            Phase::ReportChild => (3 * self.child + 3) as nat,
            Phase::CloseChild => (3 * self.child + 4) as nat,
            Phase::CloseRoot => (3 * self.number + 2) as nat,
            Phase::Finished => (3 * self.number + 3) as nat,
        }
    }

    /// A generator at the start of the run that the settings describe.
    pub fn new(args: &Args) -> (generator: SpanGenerator)
        ensures
            generator.plan().tracer_name == args.tracer_name@,
            generator.plan().span_name == args.span_name@,
            generator.plan().number == args.number,
            generator.issued() == 0,
    {
        SpanGenerator {
            tracer_name: args.tracer_name.clone(),
            span_name: args.span_name.clone(),
            number: args.number,
            phase: Phase::OpenRoot,
            child: 0,
        }
    }

    /// Whether the whole run has been handed out.
    pub fn is_finished(&self) -> (finished: bool)
        ensures
            finished == (self.issued() == self.plan().len()),
            self.issued() <= self.plan().len(),
    {
        proof {
            use_type_invariant(self);
        }
        self.phase == Phase::Finished
    }

    /// Hands out the next operation of the run, or `Finish` once the run is
    /// over, however often it is asked.
    pub fn next_action(&mut self) -> (action: SpanAction)
        ensures
            final(self).plan() == old(self).plan(),
            old(self).issued() < old(self).plan().len() ==> {
                &&& action@ == old(self).plan().script()[old(self).issued() as int]
                &&& final(self).issued() == old(self).issued() + 1
            },
            old(self).issued() >= old(self).plan().len() ==> {
                &&& action@ == SpanStep::Finish
                &&& final(self).issued() == old(self).issued()
            },
    {
        proof {
            use_type_invariant(&*self);
        }
        match self.phase {
            Phase::OpenRoot => {
                self.phase = Phase::ReportRoot;
                self.open()
            },
            Phase::ReportRoot => {
                self.phase = if self.number == 0 {
                    Phase::CloseRoot
                } else {
                    Phase::OpenChild
                };
                SpanAction::Report
            },
            Phase::OpenChild => {
                self.phase = Phase::ReportChild;
                self.open()
            },
            Phase::ReportChild => {
                self.phase = Phase::CloseChild;
                SpanAction::Report
            },
            Phase::CloseChild => {
                if self.child + 1 < self.number {
                    self.child = self.child + 1;
                    self.phase = Phase::OpenChild;
                } else {
                    self.phase = Phase::CloseRoot;
                }
                SpanAction::Close
            },
            Phase::CloseRoot => {
                self.phase = Phase::Finished;
                SpanAction::Close
            },
            Phase::Finished => SpanAction::Finish,
        }
    }

    fn open(&self) -> (action: SpanAction)
        ensures
            action@ == self.plan().open(),
    {
        SpanAction::Open {
            tracer_name: self.tracer_name.clone(),
            span_name: self.span_name.clone(),
        }
    }
}

} // verus!
