//! Usage Reporting Rules as the datapath stores them.
use vstd::prelude::*;

verus! {

#[derive(Clone, Copy)]
pub struct UrrInfo {
    pub ul: u64,
    pub dl: u64,
    pub allocated: bool,
}

impl UrrInfo {
    pub fn is_allocated(&self) -> (r: bool)
        ensures
            r == self.allocated,
    {
        self.allocated
    }
}

} // verus!
