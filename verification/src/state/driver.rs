//! The loop around the steps: after every step the state is written down,
//! and the run goes on until nothing is left to do or something fails.

use crate::error::{Error, ErrorView};
use crate::state::engine::completed_view;
use vstd::prelude::*;

verus! {

/// What the driver does after a step.
#[derive(Debug, PartialEq, Eq)]
pub enum Move {
    /// Take the next step.
    Continue,
    /// End the run, with this outcome.
    Stop { outcome: Result<(), Error> },
}

/// `Move` as mathematics.
pub enum MoveView {
    Continue,
    Stop { outcome: Result<(), ErrorView> },
}

impl View for Move {
    type V = MoveView;

    open spec fn view(&self) -> MoveView {
        match self {
            Move::Continue => MoveView::Continue,
            Move::Stop { outcome } => MoveView::Stop { outcome: completed_view(*outcome) },
        }
    }
}

/// What the driver does after a step, given how the step went, how writing
/// the state down went, and whether the state is finished. A state that
/// could not be written down ends the run with that failure, whatever the
/// step did; else a failed step ends it with the step's failure; else the
/// run ends well once the state is finished.
pub open spec fn next_move(
    step: Result<(), ErrorView>,
    saved: Result<(), ErrorView>,
    finished: bool,
) -> MoveView {
    if saved is Err {
        MoveView::Stop { outcome: saved }
    } else if step is Err {
        MoveView::Stop { outcome: step }
    } else if finished {
        MoveView::Stop { outcome: Ok(()) }
    } else {
        MoveView::Continue
    }
}

/// What the driver does after a step.
pub fn after_step(step: Result<(), Error>, saved: Result<(), Error>, finished: bool) -> (r: Move)
    ensures
        r@ == next_move(completed_view(step), completed_view(saved), finished),
{
    match saved {
        Err(error) => Move::Stop { outcome: Err(error) },
        Ok(_) => match step {
            Err(error) => Move::Stop { outcome: Err(error) },
            Ok(_) => if finished {
                Move::Stop { outcome: Ok(()) }
            } else {
                Move::Continue
            },
        },
    }
}

} // verus!
