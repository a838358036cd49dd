//! Types of the `cw1` proxy interface.
use vstd::prelude::*;

verus! {

/// Answer of the `can_execute` query: whether the sender may have the proxy
/// re-dispatch the message.
#[derive(Clone, Copy, PartialEq, Eq, Structural, Debug)]
pub struct CanExecuteResp {
    pub can_execute: bool,
}

impl CanExecuteResp {
    /// The answer `can_execute`.
    pub fn new(can_execute: bool) -> (r: CanExecuteResp)
        ensures
            r.can_execute == can_execute,
    {
        CanExecuteResp { can_execute }
    }
}

impl Default for CanExecuteResp {
    fn default() -> (r: CanExecuteResp)
        ensures
            !r.can_execute,
    {
        CanExecuteResp { can_execute: false }
    }
}

} // verus!
