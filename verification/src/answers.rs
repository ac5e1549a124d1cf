//! The answers to PFCP session requests, written in the wire format.
use vstd::prelude::*;

use crate::ipaddr::{parse_ipv4, spec_parse_ipv4};
use crate::iprule_parser::chars_of;
use crate::ies::{
    NodeIdValue, NodeIdView,
    CreatedPdrIe, IpAddress, SessionEstablishmentResponseIes, SessionModificationResponseIes,
    UpfError,
};
use crate::wire::{
    association_accepted_bytes, write_association_accepted, FQDN_MAX,
    created_pdr_bytes, establishment_accepted_bytes, modification_accepted_bytes,
    modification_not_found_bytes, write_created_pdr, write_establishment_accepted,
    write_establishment_no_association, write_modification_accepted, write_modification_not_found,
    payloads, CREATED_PDRS_MAX, CREATED_PDR_MAX_LEN,
};

verus! {

/// How a request is answered.
#[derive(Debug, PartialEq, Eq)]
pub enum PfcpAnswer {
    /// These octets go back to the requester.
    Reply(Vec<u8>),
    /// The answer cannot be built, which the UPF does not handle.
    Unbuildable,
}

/// The Node ID that the text `node_id` names: an IPv4 address where it reads
/// as one, else the IPv6 address `ipv6` that it reads as, where it does, else
/// an FQDN.
pub open spec fn spec_node_id_value(node_id: Seq<char>, ipv6: Option<u128>) -> NodeIdView {
    match spec_parse_ipv4(node_id) {
        Some(a) => NodeIdView::Ipv4(a),
        None => match ipv6 {
            Some(b) => NodeIdView::Ipv6(b),
            None => NodeIdView::Fqdn(node_id),
        },
    }
}

/// Tells what a Node ID written as text is; `ipv6` is the IPv6 address that
/// the text reads as, where it reads as one.
pub fn classify_node_id(node_id: &String, ipv6: Option<u128>) -> (r: NodeIdValue)
    ensures
        r@ == spec_node_id_value(node_id@, ipv6),
{
    let chars = chars_of(node_id.as_str());
    match parse_ipv4(chars.as_slice()) {
        Some(a) => NodeIdValue::Ipv4(a),
        None => match ipv6 {
            Some(b) => NodeIdValue::Ipv6(b),
            None => NodeIdValue::Fqdn(node_id.clone()),
        },
    }
}

/// The answer to an accepted Association Setup Request: the UPF's Node ID
/// `node_id`, written as text, and the Recovery Time Stamp IE of payload
/// `recovery_time_stamp` of four octets; `ipv6` is the IPv6 address that the
/// Node ID reads as, where it reads as one. The Node ID has at most 255
/// characters, as an FQDN has.
pub fn association_setup_answer(
    sequence: u32,
    node_id: &String,
    ipv6: Option<u128>,
    recovery_time_stamp: &Vec<u8>,
) -> (r: Vec<u8>)
    requires
        node_id@.len() <= FQDN_MAX,
        recovery_time_stamp@.len() == 4,
    ensures
        r@ == association_accepted_bytes(sequence, spec_node_id_value(node_id@, ipv6), recovery_time_stamp@),
{
    let value = classify_node_id(node_id, ipv6);
    write_association_accepted(sequence, &value, recovery_time_stamp)
}

/// The payloads of the Created PDR IEs that tell of `created`.
pub open spec fn created_payloads(created: Seq<CreatedPdrIe>) -> Seq<Seq<u8>> {
    created.map_values(|c: CreatedPdrIe| created_pdr_bytes(c))
}

fn write_created_pdrs(created: &Vec<CreatedPdrIe>) -> (r: Vec<Vec<u8>>)
    ensures
        payloads(r@) == created_payloads(created@),
        r@.len() == created@.len(),
        forall|i: int| 0 <= i < r@.len() ==> r@[i]@.len() <= CREATED_PDR_MAX_LEN,
{
    let mut r: Vec<Vec<u8>> = Vec::new();
    let mut i: usize = 0;
    while i < created.len()
        invariant
            i <= created@.len(),
            payloads(r@) == created_payloads(created@.subrange(0, i as int)),
            r@.len() == i,
            forall|j: int| 0 <= j < r@.len() ==> r@[j]@.len() <= CREATED_PDR_MAX_LEN,
        decreases created@.len() - i,
    {
        let ghost before = r@;
        let bytes = write_created_pdr(&created[i]);
        assert(bytes@ == created_pdr_bytes(created@[i as int]));
        r.push(bytes);
        proof {
            assert(r@ == before.push(bytes));
            assert forall|k: int| 0 <= k <= i implies #[trigger] payloads(r@)[k]
                == created_payloads(created@.subrange(0, i + 1))[k] by {
                if k < i {
                    assert(payloads(before)[k] == created_payloads(created@.subrange(0, i as int))[k]);
                }
            }
        }
        i += 1;
        assert(payloads(r@) =~= created_payloads(created@.subrange(0, i as int)));
    }
    assert(created@.subrange(0, created@.len() as int) =~= created@);
    r
}

/// The answer to a Session Establishment Request, given how handling it
/// ended: the response that accepts it, from the UPF at `up_ip`; an
/// unbuildable answer where there is no association; the error of a refused
/// request.
pub fn establishment_answer(
    handled: &Result<SessionEstablishmentResponseIes, UpfError>,
    up_ip: IpAddress,
) -> (r: Result<PfcpAnswer, UpfError>)
    requires
        handled matches Ok(SessionEstablishmentResponseIes::Accepted { created_pdrs, .. })
            ==> created_pdrs@.len() <= CREATED_PDRS_MAX,
    ensures
        match handled {
            Err(e) => r == Err::<PfcpAnswer, UpfError>(*e),
            Ok(SessionEstablishmentResponseIes::NoAssociation { .. }) => r
                == Ok::<PfcpAnswer, UpfError>(PfcpAnswer::Unbuildable),
            Ok(SessionEstablishmentResponseIes::Accepted { cp_seid, sequence, up_seid, created_pdrs }) => {
                r matches Ok(PfcpAnswer::Reply(b)) && b@ == establishment_accepted_bytes(
                    *cp_seid,
                    *sequence,
                    *up_seid,
                    up_ip,
                    created_payloads(created_pdrs@),
                )
            },
        },
{
    match handled {
        Err(e) => Err(*e),
        Ok(SessionEstablishmentResponseIes::NoAssociation { sequence }) => {
            match write_establishment_no_association(*sequence) {
                Some(bytes) => Ok(PfcpAnswer::Reply(bytes)),
                None => Ok(PfcpAnswer::Unbuildable),
            }
        },
        Ok(SessionEstablishmentResponseIes::Accepted { cp_seid, sequence, up_seid, created_pdrs }) => {
            let created = write_created_pdrs(created_pdrs);
            Ok(PfcpAnswer::Reply(write_establishment_accepted(*cp_seid, *sequence, *up_seid, up_ip, &created)))
        },
    }
}

/// The answer to a Session Modification Request, given how handling it
/// ended: the response that says the session is not found, or the one that
/// accepts the request; the error of a refused request.
pub fn modification_answer(handled: &Result<SessionModificationResponseIes, UpfError>) -> (r: Result<
    PfcpAnswer,
    UpfError,
>)
    requires
        handled matches Ok(SessionModificationResponseIes::Accepted { created_pdrs, .. })
            ==> created_pdrs@.len() <= CREATED_PDRS_MAX,
    ensures
        match handled {
            Err(e) => r == Err::<PfcpAnswer, UpfError>(*e),
            Ok(SessionModificationResponseIes::SessionNotFound { up_seid, sequence }) => {
                r matches Ok(PfcpAnswer::Reply(b)) && b@ == modification_not_found_bytes(*up_seid, *sequence)
            },
            Ok(SessionModificationResponseIes::Accepted { cp_seid, sequence, created_pdrs }) => {
                r matches Ok(PfcpAnswer::Reply(b)) && b@ == modification_accepted_bytes(
                    *cp_seid,
                    *sequence,
                    created_payloads(created_pdrs@),
                )
            },
        },
{
    match handled {
        Err(e) => Err(*e),
        Ok(SessionModificationResponseIes::SessionNotFound { up_seid, sequence }) => Ok(
            PfcpAnswer::Reply(write_modification_not_found(*up_seid, *sequence)),
        ),
        Ok(SessionModificationResponseIes::Accepted { cp_seid, sequence, created_pdrs }) => {
            let created = write_created_pdrs(created_pdrs);
            Ok(PfcpAnswer::Reply(write_modification_accepted(*cp_seid, *sequence, &created)))
        },
    }
}

} // verus!
