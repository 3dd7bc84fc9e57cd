//! Whole runs of a workflow: the transition function applied to a sequence of replies.

use crate::effect::{EffectView, ReplyView, StepView};
use crate::timestamp::Instant;
use vstd::prelude::*;

verus! {

/// A reply together with what the clock read when it arrived: an instant, or nothing.
pub struct Arrival {
    pub reply: ReplyView,
    pub at: Option<Instant>,
}

/// The step a workflow has reached once the replies have been fed to it in order, starting
/// from `step`.  Replies that arrive after the workflow is over are ignored.
pub open spec fn run<S, T>(
    next: spec_fn(S, ReplyView, Option<Instant>) -> StepView<S, T>,
    step: StepView<S, T>,
    replies: Seq<Arrival>,
) -> StepView<S, T>
    decreases replies.len(),
{
    match step {
        StepView::Continue { state, effect } => if replies.len() == 0 {
            step
        } else {
            run(next, next(state, replies[0].reply, replies[0].at), replies.drop_first())
        },
        StepView::Finished(_) => step,
    }
}

/// The effects that a workflow asks for, in order, while the replies are fed to it starting
/// from `step`.
pub open spec fn requested<S, T>(
    next: spec_fn(S, ReplyView, Option<Instant>) -> StepView<S, T>,
    step: StepView<S, T>,
    replies: Seq<Arrival>,
) -> Seq<EffectView>
    decreases replies.len(),
{
    match step {
        StepView::Continue { state, effect } => if replies.len() == 0 {
            seq![effect]
        } else {
            seq![effect] + requested(
                next,
                next(state, replies[0].reply, replies[0].at),
                replies.drop_first(),
            )
        },
        StepView::Finished(_) => Seq::empty(),
    }
}

} // verus!
