//! QoS Enforcement Rules as the datapath stores them.
use vstd::prelude::*;

verus! {

#[derive(Clone, Copy, PartialEq, Eq, Structural)]
pub enum GateStatus {
    Open,
    Closed,
}

#[derive(Clone, Copy)]
pub struct QerInfo {
    pub dl_gate_status: GateStatus,
    pub ul_gate_status: GateStatus,
    pub qfi: u8,
    pub has_qfi: bool,
    pub allocated: bool,
}

impl QerInfo {
    pub fn qfi(&self) -> (r: u8)
        ensures
            r == self.qfi,
    {
        self.qfi
    }

    /// Whether the downlink gate is closed.
    pub fn is_closed(&self) -> (r: bool)
        ensures
            r == (self.dl_gate_status == GateStatus::Closed),
    {
        self.dl_gate_status == GateStatus::Closed
    }

    pub fn has_qfi(&self) -> (r: bool)
        ensures
            r == self.has_qfi,
    {
        self.has_qfi
    }

    pub fn is_allocated(&self) -> (r: bool)
        ensures
            r == self.allocated,
    {
        self.allocated
    }
}

} // verus!
