//! Usage Reporting Rules of PFCP requests.
use vstd::prelude::*;

use crate::ies::{CreateUrrIe, UpdateUrrIe};
use crate::session::PfcpSession;

verus! {

/// A Create URR IE is taken note of; the session does not keep URRs of its own.
pub fn create_urr_rule(received_urr: &CreateUrrIe, session: &mut PfcpSession)
    ensures
        final(session)@ == old(session)@,
{
}

/// An Update URR IE leaves the session as it is.
pub fn update_urr_rule(received_urr: &UpdateUrrIe, session: &mut PfcpSession)
    ensures
        final(session)@ == old(session)@,
{
}

/// Removing a URR leaves everything as it is.
pub fn remove_urr_rule(urr_id: u32) {
}

} // verus!
