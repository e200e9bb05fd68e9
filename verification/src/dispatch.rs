//! Routing of effect requests through a heterogeneous list of handlers
//! (`HCons<H, T>` / `HNil`): the request tag names the handler by its position
//! in the list, and each level either handles the request or passes it on
//! with the tag decremented.

use vstd::prelude::*;

verus! {

/// What one `HCons` level of the handler list does with a request tag.
#[derive(Debug, Clone, Copy, PartialEq, Eq, Structural)]
pub enum DispatchStep {
    /// The tag is 0: this level's handler decodes and handles the request.
    HandleHere,
    /// The tag is not 0: the rest of the list gets the request with this tag.
    Forward { tag: u64 },
}

/// Where a request ends up in a handler list.
#[derive(Debug, Clone, Copy, PartialEq, Eq, Structural)]
pub enum Route {
    /// Handled by the handler at this position (0 is the head of the list).
    Handler { index: u64 },
    /// No handler: the list's end reports `UnhandledEffect` with this tag.
    Unhandled { tag: u64 },
}

/// The step of one `HCons` level for `tag`.
pub open spec fn step_of(tag: u64) -> DispatchStep {
    if tag == 0 {
        DispatchStep::HandleHere
    } else {
        DispatchStep::Forward { tag: (tag - 1) as u64 }
    }
}

/// Decides what an `HCons` level does with a request tagged `tag`.
pub fn cons_step(tag: u64) -> (step: DispatchStep)
    ensures
        step == step_of(tag),
{
    if tag == 0 {
        DispatchStep::HandleHere
    } else {
        DispatchStep::Forward { tag: tag - 1 }
    }
}

/// Where the level-by-level recursion over a list of `n` handlers sends a
/// request tagged `tag`: each level takes [`step_of`], and the `HNil` at the
/// end reports the tag it receives.
pub open spec fn walk(tag: u64, n: nat) -> Route
    decreases n,
{
    if n == 0 {
        Route::Unhandled { tag }
    } else {
        match step_of(tag) {
            DispatchStep::HandleHere => Route::Handler { index: 0 },
            DispatchStep::Forward { tag: rest } => match walk(rest, (n - 1) as nat) {
                Route::Handler { index } => Route::Handler { index: (index + 1) as u64 },
                Route::Unhandled { tag: t } => Route::Unhandled { tag: t },
            },
        }
    }
}

/// The route of a request tagged `tag` through `n` handlers, stated directly.
pub open spec fn route(tag: u64, n: nat) -> Route {
    if tag < n {
        Route::Handler { index: tag }
    } else {
        Route::Unhandled { tag: (tag - n) as u64 }
    }
}

/// A request tagged `tag` sent to a list of `n` handlers is handled by the
/// handler at position `tag` when `tag < n`; otherwise no handler sees it and
/// the error names the tag left over after `n` decrements, `tag - n`.
pub proof fn lemma_dispatch_routes_by_position(tag: u64, n: nat)
    ensures
        walk(tag, n) == route(tag, n),
    decreases n,
{
    if n > 0 && tag > 0 {
        lemma_dispatch_routes_by_position((tag - 1) as u64, (n - 1) as nat);
    }
}

} // verus!
