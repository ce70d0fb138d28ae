//! The shared session state that the run loop, the debugger front end
//! and the renderer consult between instruction steps.

use vstd::prelude::*;

use crate::cpu::CPU;

verus! {

/// Control state of one emulation session.  `exit` is the external
/// stop signal the run loop checks once per instruction; `breakpoint`
/// gates whether the next step executes; `update` asks the renderer to
/// redraw.
pub struct State {
    pub exit: bool,
    pub breakpoint: bool,
    pub update: bool,
    pub cpu: Option<CPU>,
}

impl Default for State {
    /// A fresh session: not exiting, not paused, with a redraw pending
    /// and no engine attached yet.
    fn default() -> (s: State)
        ensures
            !s.exit,
            !s.breakpoint,
            s.update,
            s.cpu is None,
    {
        State { exit: false, breakpoint: false, update: true, cpu: None }
    }
}

} // verus!
