//! The decision that drives the hub's main loop.

use vstd::prelude::*;

verus! {

/// What the main loop does in one turn.
pub enum LoopStep<T> {
    /// Leave the loop.
    Exit,
    /// Hand the received request to its handler.
    Dispatch(T),
    /// Nothing to hand on; wait for the next request.
    Wait,
}

/// One turn of the main loop: a cancellation request ends the loop, whatever
/// was received; otherwise a received request is dispatched, and a closed or
/// empty channel lets the loop wait again.
pub fn next_loop_step<T>(cancel_requested: bool, received: Option<T>) -> (step: LoopStep<T>)
    ensures
        cancel_requested ==> step is Exit,
        !cancel_requested ==> match received {
            Some(request) => step == LoopStep::Dispatch(request),
            None => step is Wait,
        },
{
    if cancel_requested {
        LoopStep::Exit
    } else {
        match received {
            Some(request) => LoopStep::Dispatch(request),
            None => LoopStep::Wait,
        }
    }
}

} // verus!
