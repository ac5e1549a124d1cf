//! Reading the F-TEIDs, UE addresses and Outer Header Creation descriptions
//! of PFCP rules, and writing F-TEIDs and UE addresses back.
use vstd::prelude::*;

use crate::far::{
    OhcFlags, OHC_CTAG, OHC_GTPU_UDP_IPV4, OHC_GTPU_UDP_IPV6, OHC_IPV4, OHC_IPV6, OHC_STAG,
    OHC_UDP_IPV4, OHC_UDP_IPV6,
};
use crate::fteid::Fteid;
use crate::ies::{FteidIe, OuterHeaderCreationFlags, PdiIe, UeIpAddressIe, UpfError};
use crate::pdi::{PdiMask, PdiPod, PDI_F_TEID, PDI_UE_IPV4};
use crate::pfcp::PfcpContext;
use crate::ue_ip::UeIpPod;

verus! {

/// `bit` where `set` holds, else nothing.
pub open spec fn flag_bit(set: bool, bit: u8) -> int {
    if set {
        bit as int
    } else {
        0
    }
}

/// The Outer Header Creation flags of a description: each flag of the
/// description gives its bit.
pub open spec fn spec_ohc_flags(desc: OuterHeaderCreationFlags) -> u8 {
    (flag_bit(desc.gtpu_udp_ipv4, OHC_GTPU_UDP_IPV4) + flag_bit(desc.gtpu_udp_ipv6, OHC_GTPU_UDP_IPV6)
        + flag_bit(desc.udp_ipv4, OHC_UDP_IPV4) + flag_bit(desc.udp_ipv6, OHC_UDP_IPV6) + flag_bit(
        desc.ipv4,
        OHC_IPV4,
    ) + flag_bit(desc.ipv6, OHC_IPV6) + flag_bit(desc.ctag, OHC_CTAG) + flag_bit(
        desc.stag,
        OHC_STAG,
    )) as u8
}

fn flag(set: bool, bit: u8) -> (r: u8)
    ensures
        r == flag_bit(set, bit),
{
    if set {
        bit
    } else {
        0
    }
}

/// The Outer Header Creation flags of a description.
pub fn ohc_description_to_flags(desc: OuterHeaderCreationFlags) -> (r: OhcFlags)
    ensures
        r.bits == spec_ohc_flags(desc),
{
    let bits: u8 = flag(desc.gtpu_udp_ipv4, OHC_GTPU_UDP_IPV4) + flag(
        desc.gtpu_udp_ipv6,
        OHC_GTPU_UDP_IPV6,
    ) + flag(desc.udp_ipv4, OHC_UDP_IPV4) + flag(desc.udp_ipv6, OHC_UDP_IPV6) + flag(
        desc.ipv4,
        OHC_IPV4,
    ) + flag(desc.ipv6, OHC_IPV6) + flag(desc.ctag, OHC_CTAG) + flag(desc.stag, OHC_STAG);
    OhcFlags::from_bits(bits)
}

/// The F-TEID that an F-TEID IE names: its TEID, and each address the IE holds.
pub open spec fn spec_fteid_ie_to_pod(fteid: FteidIe) -> Fteid {
    Fteid {
        teid: fteid.teid,
        ipv4_address: match fteid.ipv4_address {
            Some(a) => a,
            None => 0,
        },
        v4: fteid.ipv4_address is Some,
        ipv6_address: match fteid.ipv6_address {
            Some(a) => a,
            None => 0,
        },
        v6: fteid.ipv6_address is Some,
    }
}

/// The F-TEID that an F-TEID IE names.
pub fn fteid_ie_to_pod(fteid: &FteidIe) -> (r: Fteid)
    ensures
        r == spec_fteid_ie_to_pod(*fteid),
{
    let mut fteid_pod = Fteid::default();
    if let Some(ipv4_address) = fteid.ipv4_address {
        fteid_pod.set_ipv4_address(ipv4_address);
    }
    if let Some(ipv6_address) = fteid.ipv6_address {
        fteid_pod.set_ipv6_address(ipv6_address);
    }
    fteid_pod.set_teid(fteid.teid);
    fteid_pod
}

/// The F-TEID IE that tells of an F-TEID: the addresses it has, with their
/// flags, and no CHOOSE flag.
pub open spec fn spec_fteid_pod_to_ie(fteid: Fteid) -> FteidIe {
    FteidIe {
        v4: fteid.v4,
        v6: fteid.v6,
        ch: false,
        chid: false,
        teid: fteid.teid,
        ipv4_address: if fteid.v4 {
            Some(fteid.ipv4_address)
        } else {
            None
        },
        ipv6_address: if fteid.v6 {
            Some(fteid.ipv6_address)
        } else {
            None
        },
        choose_id: 0,
    }
}

/// The F-TEID IE that tells of an F-TEID.
pub fn fteid_pod_to_ie(fteid_pod: &Fteid) -> (r: FteidIe)
    ensures
        r == spec_fteid_pod_to_ie(*fteid_pod),
{
    let ipv4_address = if fteid_pod.is_v4() {
        Some(fteid_pod.ipv4_address())
    } else {
        None
    };
    let ipv6_address = if fteid_pod.is_v6() {
        Some(fteid_pod.ipv6_address())
    } else {
        None
    };
    FteidIe {
        v4: ipv4_address.is_some(),
        v6: ipv6_address.is_some(),
        ch: false,
        chid: false,
        teid: fteid_pod.teid(),
        ipv4_address,
        ipv6_address,
        choose_id: 0,
    }
}

/// The UE IP Address IE that tells of UE addresses: those present, with their
/// flags, and no CHOOSE flag.
pub open spec fn spec_ueip_pod_to_ie(ueip: UeIpPod) -> UeIpAddressIe {
    UeIpAddressIe {
        v4: ueip.v4,
        v6: ueip.v6,
        choose_ipv4: false,
        choose_ipv6: false,
        ipv4_address: if ueip.v4 {
            Some(ueip.ipv4_address)
        } else {
            None
        },
        ipv6_address: if ueip.v6 {
            Some(ueip.ipv6_address)
        } else {
            None
        },
    }
}

/// The UE IP Address IE that tells of UE addresses.
pub fn ueip_pod_to_ie(ueip_pod: &UeIpPod) -> (r: UeIpAddressIe)
    ensures
        r == spec_ueip_pod_to_ie(*ueip_pod),
{
    let ipv4_address = if ueip_pod.is_v4() {
        Some(ueip_pod.ipv4_address())
    } else {
        None
    };
    let ipv6_address = if ueip_pod.is_v6() {
        Some(ueip_pod.ipv6_address())
    } else {
        None
    };
    UeIpAddressIe {
        v4: ipv4_address.is_some(),
        v6: ipv6_address.is_some(),
        choose_ipv4: false,
        choose_ipv6: false,
        ipv4_address,
        ipv6_address,
    }
}

/// Where reading an F-TEID or UE IP Address IE leads.
pub ghost enum ReadOutcome<T> {
    /// What the IE gives.
    Read(T),
    /// The IE is refused.
    Refused(UpfError),
    /// Reading it panics: the UPF is to choose the value, which it cannot yet.
    Panics,
}

/// What reading an F-TEID IE gives: an F-TEID without address is refused;
/// one that the UPF is to choose is refused where it asks for IPv6 and GTP-U
/// has no IPv6 address, and panics otherwise; any other gives the F-TEID it
/// names.
pub open spec fn spec_parse_fteid(gtp_addr_v6: Option<u128>, fteid: FteidIe) -> ReadOutcome<Fteid> {
    if !fteid.v4 && !fteid.v6 {
        ReadOutcome::Refused(UpfError::FteidWithoutAddress)
    } else if fteid.ch {
        if fteid.v6 && gtp_addr_v6 is None {
            ReadOutcome::Refused(UpfError::FteidIpv6Unavailable)
        } else {
            ReadOutcome::Panics
        }
    } else {
        ReadOutcome::Read(spec_fteid_ie_to_pod(fteid))
    }
}

/// Reads an F-TEID IE of a PDI. Inputs on which an F-TEID would have to be
/// chosen are left out: choosing one is not implemented.
pub fn parse_fteid(ctx: &PfcpContext, fteid: &FteidIe) -> (r: Result<Fteid, UpfError>)
    requires
        !(spec_parse_fteid(ctx.gtp_addr_v6, *fteid) is Panics),
    ensures
        match spec_parse_fteid(ctx.gtp_addr_v6, *fteid) {
            ReadOutcome::Read(p) => r == Ok::<Fteid, UpfError>(p),
            ReadOutcome::Refused(e) => r == Err::<Fteid, UpfError>(e),
            ReadOutcome::Panics => false,
        },
{
    if !fteid.v4 && !fteid.v6 {
        return Err(UpfError::FteidWithoutAddress);
    }
    if fteid.ch {
        let mut fteid_pod = Fteid::default();
        if fteid.v4 {
            fteid_pod.set_ipv4_address(ctx.gtp_addr_v4());
        }
        if fteid.v6 {
            match ctx.gtp_addr_v6() {
                Some(ipv6_addr) => fteid_pod.set_ipv6_address(ipv6_addr),
                None => {
                    return Err(UpfError::FteidIpv6Unavailable);
                },
            }
        }
        // not reached: choosing an F-TEID is left out by the precondition
        return Err(UpfError::FteidIpv6Unavailable);
    }
    Ok(fteid_ie_to_pod(fteid))
}

/// What reading a UE IP Address IE gives: one without any flag is refused;
/// one that asks the UPF to choose an IPv4 address panics; one whose V4 flag
/// comes without an IPv4 address is refused; then one that asks the UPF to
/// choose an IPv6 address panics, and one whose V6 flag comes without an IPv6
/// address is refused; any other gives the addresses its flags name.
pub open spec fn spec_parse_ue_ip(ue_ip: UeIpAddressIe) -> ReadOutcome<UeIpPod> {
    if !ue_ip.v4 && !ue_ip.v6 && !ue_ip.choose_ipv4 && !ue_ip.choose_ipv6 {
        ReadOutcome::Refused(UpfError::UeIpWithoutAddress)
    } else if ue_ip.choose_ipv4 {
        ReadOutcome::Panics
    } else if ue_ip.v4 && ue_ip.ipv4_address is None {
        ReadOutcome::Refused(UpfError::UeIpv4Missing)
    } else if ue_ip.choose_ipv6 {
        ReadOutcome::Panics
    } else if ue_ip.v6 && ue_ip.ipv6_address is None {
        ReadOutcome::Refused(UpfError::UeIpv6Missing)
    } else {
        ReadOutcome::Read(
            UeIpPod {
                v4: ue_ip.v4,
                ipv4_address: if ue_ip.v4 {
                    ue_ip.ipv4_address.unwrap()
                } else {
                    0
                },
                v6: ue_ip.v6,
                ipv6_address: if ue_ip.v6 {
                    ue_ip.ipv6_address.unwrap()
                } else {
                    0
                },
            },
        )
    }
}

/// Reads a UE IP Address IE of a PDI. Inputs on which an address would have
/// to be chosen are left out: choosing one is not implemented.
pub fn parse_ue_ip(ctx: &PfcpContext, ue_ip_ie: &UeIpAddressIe) -> (r: Result<UeIpPod, UpfError>)
    requires
        !(spec_parse_ue_ip(*ue_ip_ie) is Panics),
    ensures
        match spec_parse_ue_ip(*ue_ip_ie) {
            ReadOutcome::Read(p) => r == Ok::<UeIpPod, UpfError>(p),
            ReadOutcome::Refused(e) => r == Err::<UeIpPod, UpfError>(e),
            ReadOutcome::Panics => false,
        },
{
    if !ue_ip_ie.v4 && !ue_ip_ie.v6 && !ue_ip_ie.choose_ipv4 && !ue_ip_ie.choose_ipv6 {
        return Err(UpfError::UeIpWithoutAddress);
    }
    let mut ue_ip_pod = UeIpPod::default();
    if ue_ip_ie.v4 {
        match ue_ip_ie.ipv4_address {
            Some(ipv4_addr) => {
                ue_ip_pod.set_ipv4_address(ipv4_addr);
            },
            None => {
                return Err(UpfError::UeIpv4Missing);
            },
        }
    }
    if ue_ip_ie.v6 {
        match ue_ip_ie.ipv6_address {
            Some(ipv6_addr) => {
                ue_ip_pod.set_ipv6_address(ipv6_addr);
            },
            None => {
                return Err(UpfError::UeIpv6Missing);
            },
        }
    }
    Ok(ue_ip_pod)
}

/// Where reading the F-TEID of a PDI leads: nothing where it has none.
pub open spec fn spec_pdi_fteid(gtp_addr_v6: Option<u128>, pdi: &PdiIe) -> ReadOutcome<Option<Fteid>> {
    match pdi.f_teid {
        None => ReadOutcome::Read(None),
        Some(f) => match spec_parse_fteid(gtp_addr_v6, f) {
            ReadOutcome::Read(p) => ReadOutcome::Read(Some(p)),
            ReadOutcome::Refused(e) => ReadOutcome::Refused(e),
            ReadOutcome::Panics => ReadOutcome::Panics,
        },
    }
}

/// Reads the F-TEID of a PDI, if it has one, into `pdi_pod`.
pub fn handle_fteid(pdi: &PdiIe, ctx: &PfcpContext, pdi_pod: &mut PdiPod) -> (r: Result<
    Option<Fteid>,
    UpfError,
>)
    requires
        !(spec_pdi_fteid(ctx.gtp_addr_v6, pdi) is Panics),
    ensures
        match spec_pdi_fteid(ctx.gtp_addr_v6, pdi) {
            ReadOutcome::Read(None) => r == Ok::<Option<Fteid>, UpfError>(None) && *final(pdi_pod)
                == *old(pdi_pod),
            ReadOutcome::Read(Some(p)) => r == Ok::<Option<Fteid>, UpfError>(Some(p)) && *final(pdi_pod) == (PdiPod {
                fteid: p,
                pdi_mask: PdiMask { bits: old(pdi_pod).pdi_mask.bits | PDI_F_TEID },
                ..*old(pdi_pod)
            }),
            ReadOutcome::Refused(e) => r == Err::<Option<Fteid>, UpfError>(e) && *final(pdi_pod)
                == *old(pdi_pod),
            ReadOutcome::Panics => false,
        },
{
    let fteid_pod = if let Some(fteid) = &pdi.f_teid {
        let fteid_pod = match parse_fteid(ctx, fteid) {
            Ok(p) => p,
            Err(e) => return Err(e),
        };
        pdi_pod.set_fteid(fteid_pod);
        Some(fteid_pod)
    } else {
        None
    };
    Ok(fteid_pod)
}

/// Where reading the UE addresses of a PDI leads: nothing where it has none,
/// a refusal where it has more than one.
pub open spec fn spec_pdi_ue_ips(pdi: &PdiIe) -> ReadOutcome<Option<UeIpPod>> {
    if pdi.ue_ip_addresses@.len() == 0 {
        ReadOutcome::Read(None)
    } else if pdi.ue_ip_addresses@.len() > 1 {
        ReadOutcome::Refused(UpfError::TooManyUeIpAddresses)
    } else {
        match spec_parse_ue_ip(pdi.ue_ip_addresses@[0]) {
            ReadOutcome::Read(p) => ReadOutcome::Read(Some(p)),
            ReadOutcome::Refused(e) => ReadOutcome::Refused(e),
            ReadOutcome::Panics => ReadOutcome::Panics,
        }
    }
}

/// Reads the UE address of a PDI, if it has one, into `pdi_pod`.
pub fn handle_ue_ips(pdi: &PdiIe, ctx: &PfcpContext, pdi_pod: &mut PdiPod) -> (r: Result<
    Option<UeIpPod>,
    UpfError,
>)
    requires
        !(spec_pdi_ue_ips(pdi) is Panics),
    ensures
        match spec_pdi_ue_ips(pdi) {
            ReadOutcome::Read(None) => r == Ok::<Option<UeIpPod>, UpfError>(None) && *final(pdi_pod) == *old(pdi_pod),
            ReadOutcome::Read(Some(p)) => r == Ok::<Option<UeIpPod>, UpfError>(Some(p)) && *final(pdi_pod) == (PdiPod {
                ue_ip_address: p,
                pdi_mask: PdiMask { bits: old(pdi_pod).pdi_mask.bits | PDI_UE_IPV4 },
                ..*old(pdi_pod)
            }),
            ReadOutcome::Refused(e) => r == Err::<Option<UeIpPod>, UpfError>(e) && *final(pdi_pod)
                == *old(pdi_pod),
            ReadOutcome::Panics => false,
        },
{
    let ue_ips = &pdi.ue_ip_addresses;
    let ue_ip_pod = if ue_ips.len() != 0 {
        if ue_ips.len() > 1 {
            return Err(UpfError::TooManyUeIpAddresses);
        }
        let ue_ip_ie = &ue_ips[0];
        let ue_ip = match parse_ue_ip(ctx, ue_ip_ie) {
            Ok(u) => u,
            Err(e) => return Err(e),
        };
        pdi_pod.set_ue_ip_address(ue_ip);
        Some(ue_ip)
    } else {
        None
    };
    Ok(ue_ip_pod)
}

/// An F-TEID written into an IE and read back is the same F-TEID, where the
/// address it does not have is zero.
pub proof fn lemma_fteid_ie_roundtrip(fteid: Fteid)
    requires
        !fteid.v4 ==> fteid.ipv4_address == 0,
        !fteid.v6 ==> fteid.ipv6_address == 0,
    ensures
        spec_fteid_ie_to_pod(spec_fteid_pod_to_ie(fteid)) == fteid,
{
}

/// UE addresses written into an IE and read back are the same addresses,
/// where the UE has at least one and the address it does not have is zero.
pub proof fn lemma_ue_ip_ie_roundtrip(ueip: UeIpPod)
    requires
        ueip.v4 || ueip.v6,
        !ueip.v4 ==> ueip.ipv4_address == 0,
        !ueip.v6 ==> ueip.ipv6_address == 0,
    ensures
        spec_parse_ue_ip(spec_ueip_pod_to_ie(ueip)) == ReadOutcome::Read(ueip),
{
}

} // verus!
