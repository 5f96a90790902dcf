//! Browser timeouts as timer handles.

use vstd::prelude::*;
use crate::timer::TimerHandle;

verus! {

/// The handle that leptos returns for a timeout set in the browser. It holds
/// the timeout's id, which this library never reads.
#[verifier::external_type_specification]
#[verifier::external_body]
pub struct ExTimeoutHandle(leptos::leptos_dom::helpers::TimeoutHandle);

/// `TimeoutHandle::clear`: asks the window to clear the timeout that the
/// handle refers to. It returns nothing, and clearing a timeout that has
/// fired or was cleared before has no effect. A handle exists only where a
/// window has issued it, and the call is taken to reach that window.
pub assume_specification[ leptos::leptos_dom::helpers::TimeoutHandle::clear ](
    handle: &leptos::leptos_dom::helpers::TimeoutHandle,
)
;

impl TimerHandle for leptos::leptos_dom::helpers::TimeoutHandle {
    /// Clears the timeout in the browser.
    fn cancel(self) {
        self.clear();
    }
}

} // verus!
