//! QoS Enforcement Rules of PFCP requests.
use vstd::prelude::*;

use crate::ies::{CreateQerIe, UpdateQerIe};
use crate::session::PfcpSession;

verus! {

/// A Create QER IE is taken note of; the session does not keep QERs of its own.
pub fn create_qer_rule(received_qer: &CreateQerIe, session: &mut PfcpSession)
    ensures
        final(session)@ == old(session)@,
{
}

/// An Update QER IE leaves the session as it is.
pub fn update_qer_rule(received_qer: &UpdateQerIe, session: &mut PfcpSession)
    ensures
        final(session)@ == old(session)@,
{
}

/// Removing a QER leaves everything as it is.
pub fn remove_qer_rule(qer_id: u32) {
}

} // verus!
