//! Forwarding Action Rules of PFCP requests.
use vstd::prelude::*;

use crate::far::{FarAction, FarInfo, OhcFlags, FAR_ACTION_ALL};
use crate::ies::{CreateFarIe, OuterHeaderCreationIe, UpdateFarIe};
use crate::rules::helpers::{ohc_description_to_flags, spec_ohc_flags};
use crate::session::{PfcpSession, SessionView};

verus! {

/// Whether a Create FAR IE has an Outer Header Creation without a TEID or
/// without an IPv4 address, which reading it panics on.
pub open spec fn create_far_panics(far: CreateFarIe) -> bool {
    match far.forwarding_parameters {
        Some(fp) => match fp.outer_header_creation {
            Some(ohc) => ohc.teid is None || ohc.ipv4_address is None,
            None => false,
        },
        None => false,
    }
}

/// The FAR that a Create FAR IE with forwarding parameters describes: its
/// actions, destination interface, DSCP where given, and the remote tunnel end
/// and header creation flags where it creates outer headers. A Create FAR IE
/// without forwarding parameters describes none.
pub open spec fn spec_far_of_create(far: CreateFarIe) -> Option<FarInfo> {
    match far.forwarding_parameters {
        None => None,
        Some(fp) => {
            let base = FarInfo {
                action: FarAction { bits: far.apply_action & FAR_ACTION_ALL },
                destination_interface: fp.destination_interface,
                ..FarInfo::spec_new()
            };
            let with_dscp = match fp.dscp {
                Some(dscp) => FarInfo { dscp, ..base },
                None => base,
            };
            Some(
                match fp.outer_header_creation {
                    None => with_dscp,
                    Some(ohc) => FarInfo {
                        teid: ohc.teid.unwrap(),
                        remote_ipv4: ohc.ipv4_address.unwrap(),
                        ohc: OhcFlags { bits: spec_ohc_flags(ohc.description) },
                        ..with_dscp
                    },
                },
            )
        },
    }
}

/// The session after a Create FAR IE: the FAR it describes stored under its
/// FAR ID, or the session unchanged where it describes none.
pub open spec fn spec_create_far_rule(session: SessionView, far: CreateFarIe) -> SessionView {
    match spec_far_of_create(far) {
        Some(info) => SessionView { fars: session.fars.insert(far.far_id, info), ..session },
        None => session,
    }
}

/// Stores the FAR of a Create FAR IE in the session.
pub fn create_far_rule(received_far: &CreateFarIe, session: &mut PfcpSession)
    requires
        !create_far_panics(*received_far),
    ensures
        final(session)@ == spec_create_far_rule(old(session)@, *received_far),
{
    let id = received_far.far_id;
    let mut info = FarInfo::new();
    let action = received_far.apply_action;
    info.set_action(action);
    if let Some(fp) = received_far.forwarding_parameters {
        let destination_interface = fp.destination_interface;
        info.set_destination_interface(destination_interface);
        if let Some(dscp) = fp.dscp {
            info.set_dscp(dscp);
        }
        if let Some(ohc) = fp.outer_header_creation {
            let teid = ohc.teid.unwrap();
            info.set_teid(teid);
            let remote_ip = ohc.ipv4_address.unwrap();
            info.set_remote_ipv4(remote_ip);
            let flags = ohc_description_to_flags(ohc.description);
            info.set_ohc(flags);
        }
        session.insert_far(id, info);
    }
}

/// A FAR with the changes of an Outer Header Creation IE: the TEID and the
/// remote address where given, and the header creation flags.
pub open spec fn spec_update_ohc(far: FarInfo, ohc: OuterHeaderCreationIe) -> FarInfo {
    let with_teid = match ohc.teid {
        Some(teid) => FarInfo { teid, ..far },
        None => far,
    };
    let with_ip = match ohc.ipv4_address {
        Some(ip) => FarInfo { remote_ipv4: ip, ..with_teid },
        None => with_teid,
    };
    FarInfo { ohc: OhcFlags { bits: spec_ohc_flags(ohc.description) }, ..with_ip }
}

/// A FAR with the changes of an Update FAR IE: each field the IE gives
/// replaces the FAR's.
pub open spec fn spec_update_far(far: FarInfo, update: UpdateFarIe) -> FarInfo {
    let with_action = match update.apply_action {
        Some(a) => FarInfo { action: FarAction { bits: a & FAR_ACTION_ALL }, ..far },
        None => far,
    };
    match update.update_forwarding_parameters {
        None => with_action,
        Some(fp) => {
            let with_dest = match fp.destination_interface {
                Some(d) => FarInfo { destination_interface: d, ..with_action },
                None => with_action,
            };
            let with_dscp = match fp.dscp {
                Some(dscp) => FarInfo { dscp, ..with_dest },
                None => with_dest,
            };
            match fp.outer_header_creation {
                Some(ohc) => spec_update_ohc(with_dscp, ohc),
                None => with_dscp,
            }
        },
    }
}

/// The session after an Update FAR IE: the FAR it names updated, or the
/// session unchanged where it has no such FAR.
pub open spec fn spec_update_far_rule(session: SessionView, update: UpdateFarIe) -> SessionView {
    if session.fars.contains_key(update.far_id) {
        SessionView {
            fars: session.fars.insert(update.far_id, spec_update_far(session.fars[update.far_id], update)),
            ..session
        }
    } else {
        session
    }
}

/// The remote end of the tunnel that an Update FAR IE gives, as an IPv4
/// address, where it gives one.
pub open spec fn updated_remote_ipv4(update: UpdateFarIe) -> Option<u32> {
    match update.update_forwarding_parameters {
        Some(fp) => match fp.outer_header_creation {
            Some(ohc) => ohc.ipv4_address,
            None => None,
        },
        None => None,
    }
}

/// The TEID of the remote end of the tunnel that an Update FAR IE gives,
/// where it gives one.
pub open spec fn updated_teid(update: UpdateFarIe) -> Option<u32> {
    match update.update_forwarding_parameters {
        Some(fp) => match fp.outer_header_creation {
            Some(ohc) => ohc.teid,
            None => None,
        },
        None => None,
    }
}

/// An Update FAR IE for a FAR of the session changes that FAR alone: its
/// remote tunnel end becomes the IPv4 address and the TEID that the IE's
/// Outer Header Creation gives, where it gives them, and stays where it does
/// not; its action becomes the IE's Apply Action where there is one. Which
/// FARs the session has does not change, nor does anything else in it.
pub proof fn lemma_update_far_rule_moves_tunnel(session: SessionView, update: UpdateFarIe)
    requires
        session.fars.contains_key(update.far_id),
    ensures
        ({
            let after = spec_update_far_rule(session, update);
            let far = after.fars[update.far_id];
            let before = session.fars[update.far_id];
            &&& after.fars.dom() == session.fars.dom()
            &&& forall|id: u32| #[trigger] after.fars.contains_key(id) && id != update.far_id ==> after.fars[id]
                == session.fars[id]
            &&& after.ul_pdrs == session.ul_pdrs && after.dl_pdrs == session.dl_pdrs
            &&& after.cp_seid == session.cp_seid
            &&& far.remote_ipv4 == match updated_remote_ipv4(update) {
                Some(a) => a,
                None => before.remote_ipv4,
            }
            &&& far.teid == match updated_teid(update) {
                Some(t) => t,
                None => before.teid,
            }
            &&& far.action.bits == match update.apply_action {
                Some(a) => a & FAR_ACTION_ALL,
                None => before.action.bits,
            }
        }),
{
    let after = spec_update_far_rule(session, update);
    assert(after.fars.dom() =~= session.fars.dom());
}

/// Applies an Update FAR IE to the FAR of the session it names.
pub fn update_far_rule(received_far: &UpdateFarIe, session: &mut PfcpSession)
    ensures
        final(session)@ == spec_update_far_rule(old(session)@, *received_far),
{
    let far_id = received_far.far_id;
    let mut far = match session.fars.get(&far_id) {
        Some(far) => *far,
        None => return ,
    };
    if let Some(apply_action) = received_far.apply_action {
        far.set_action(apply_action);
    }
    if let Some(update_fp) = received_far.update_forwarding_parameters {
        if let Some(destination_interface) = update_fp.destination_interface {
            far.set_destination_interface(destination_interface);
        }
        if let Some(dscp) = update_fp.dscp {
            far.set_dscp(dscp);
        }
        if let Some(update_ohc) = update_fp.outer_header_creation {
            if let Some(teid) = update_ohc.teid {
                far.set_teid(teid);
            }
            if let Some(remote_ip) = update_ohc.ipv4_address {
                far.set_remote_ipv4(remote_ip);
            }
            let flags = ohc_description_to_flags(update_ohc.description);
            far.set_ohc(flags);
        }
    }
    session.insert_far(far_id, far);
}

/// Removing a FAR leaves everything as it is.
pub fn remove_far_rule(far_id: u32) {
}

} // verus!
