//! How reading the rules of a request ends, known before the request is
//! handled: whether each IE is read, refused, or panics.
use vstd::prelude::*;

use crate::ies::{CreateFarIe, CreatePdrIe, FteidIe, PdiIe, UeIpAddressIe, UpdatePdrIe};
use crate::iprule_parser::{classify_sdf_filter, SdfFilter, SdfParse};
use crate::rules::far::create_far_panics;
use crate::rules::helpers::{
    spec_parse_fteid, spec_parse_ue_ip, spec_pdi_fteid, spec_pdi_ue_ips, ReadOutcome,
};
use crate::rules::pdr::{
    lemma_read_sdfs_prefix, lemma_read_sdfs_step, spec_read_create_pdr, spec_read_sdfs,
    spec_read_update_pdr, PdrReading, SdfsOutcome, UpdateReading,
};
use crate::session::SessionView;
use crate::{QER_MAP_SIZE, SDF_MAP_SIZE, URR_MAP_SIZE};

verus! {

/// How reading an IE ends.
#[derive(Debug, Clone, Copy, PartialEq, Eq, Structural)]
pub enum ReadCheck {
    /// It is read (or, for an update, passed over).
    Reads,
    /// It is refused with an error.
    Refused,
    /// Reading it panics.
    Panics,
}

/// How a reading of an F-TEID or UE IP Address IE ends.
pub open spec fn outcome_check<T>(o: ReadOutcome<T>) -> ReadCheck {
    match o {
        ReadOutcome::Read(_) => ReadCheck::Reads,
        ReadOutcome::Refused(_) => ReadCheck::Refused,
        ReadOutcome::Panics => ReadCheck::Panics,
    }
}

/// How a reading of SDF filters ends.
pub open spec fn sdfs_check(o: SdfsOutcome) -> ReadCheck {
    match o {
        SdfsOutcome::Read(_) => ReadCheck::Reads,
        SdfsOutcome::Refused(_, _) => ReadCheck::Refused,
        SdfsOutcome::Panics => ReadCheck::Panics,
    }
}

/// How a reading of a Create PDR IE ends.
pub open spec fn pdr_reading_check(r: PdrReading) -> ReadCheck {
    match r {
        PdrReading::Read(_, _) => ReadCheck::Reads,
        PdrReading::Refused(_, _) => ReadCheck::Refused,
        PdrReading::Panics => ReadCheck::Panics,
    }
}

/// How applying an Update PDR IE ends.
pub open spec fn update_reading_check(r: UpdateReading) -> ReadCheck {
    match r {
        UpdateReading::Missing => ReadCheck::Reads,
        UpdateReading::Read(_) => ReadCheck::Reads,
        UpdateReading::Refused(_, _) => ReadCheck::Refused,
        UpdateReading::Panics => ReadCheck::Panics,
    }
}

/// Whether storing the FAR of a Create FAR IE panics.
pub fn create_far_would_panic(far: &CreateFarIe) -> (r: bool)
    ensures
        r == create_far_panics(*far),
{
    match far.forwarding_parameters {
        Some(fp) => match fp.outer_header_creation {
            Some(ohc) => ohc.teid.is_none() || ohc.ipv4_address.is_none(),
            None => false,
        },
        None => false,
    }
}

fn check_fteid(gtp_addr_v6: Option<u128>, fteid: &FteidIe) -> (r: ReadCheck)
    ensures
        r == outcome_check(spec_parse_fteid(gtp_addr_v6, *fteid)),
{
    if !fteid.v4 && !fteid.v6 {
        ReadCheck::Refused
    } else if fteid.ch {
        if fteid.v6 && gtp_addr_v6.is_none() {
            ReadCheck::Refused
        } else {
            ReadCheck::Panics
        }
    } else {
        ReadCheck::Reads
    }
}

fn check_ue_ip(ue: &UeIpAddressIe) -> (r: ReadCheck)
    ensures
        r == outcome_check(spec_parse_ue_ip(*ue)),
{
    if !ue.v4 && !ue.v6 && !ue.choose_ipv4 && !ue.choose_ipv6 {
        ReadCheck::Refused
    } else if ue.choose_ipv4 {
        ReadCheck::Panics
    } else if ue.v4 && ue.ipv4_address.is_none() {
        ReadCheck::Refused
    } else if ue.choose_ipv6 {
        ReadCheck::Panics
    } else if ue.v6 && ue.ipv6_address.is_none() {
        ReadCheck::Refused
    } else {
        ReadCheck::Reads
    }
}

fn check_pdi_fteid(gtp_addr_v6: Option<u128>, pdi: &PdiIe) -> (r: ReadCheck)
    ensures
        r == outcome_check(spec_pdi_fteid(gtp_addr_v6, pdi)),
{
    match &pdi.f_teid {
        None => ReadCheck::Reads,
        Some(f) => check_fteid(gtp_addr_v6, f),
    }
}

fn check_pdi_ue_ips(pdi: &PdiIe) -> (r: ReadCheck)
    ensures
        r == outcome_check(spec_pdi_ue_ips(pdi)),
{
    if pdi.ue_ip_addresses.len() == 0 {
        ReadCheck::Reads
    } else if pdi.ue_ip_addresses.len() > 1 {
        ReadCheck::Refused
    } else {
        check_ue_ip(&pdi.ue_ip_addresses[0])
    }
}

fn check_sdfs(fs: &Vec<SdfFilter>) -> (r: ReadCheck)
    ensures
        r == sdfs_check(spec_read_sdfs(fs@)),
{
    let ghost mut pods: Seq<crate::sdf::SdfFilterPod> = Seq::empty();
    let mut count: usize = 0;
    let mut i: usize = 0;
    while i < fs.len()
        invariant
            i <= fs@.len(),
            spec_read_sdfs(fs@.subrange(0, i as int)) == SdfsOutcome::Read(pods),
            pods.len() == count,
            count <= SDF_MAP_SIZE,
        decreases fs@.len() - i,
    {
        proof {
            lemma_read_sdfs_step(fs@, i as int, pods);
            if !(spec_read_sdfs(fs@.subrange(0, i + 1)) is Read) {
                lemma_read_sdfs_prefix(fs@, i + 1);
            }
        }
        match classify_sdf_filter(&fs[i]) {
            SdfParse::Accepted(pod) => {
                if count >= SDF_MAP_SIZE {
                    return ReadCheck::Panics;
                }
                count += 1;
                proof {
                    pods = pods.push(crate::sdf::SdfFilterPod { allocated: true, ..pod });
                }
            },
            SdfParse::Rejected(_) => {
                return ReadCheck::Refused;
            },
            SdfParse::Panics => {
                return ReadCheck::Panics;
            },
        }
        i += 1;
    }
    assert(fs@.subrange(0, fs@.len() as int) =~= fs@);
    ReadCheck::Reads
}

/// How reading a Create PDR IE ends; the session it is read against makes
/// no difference to that.
pub fn check_create_pdr(gtp_addr_v6: Option<u128>, pdr: &CreatePdrIe) -> (r: ReadCheck)
    ensures
        forall|s: SessionView| #[trigger]
            pdr_reading_check(spec_read_create_pdr(gtp_addr_v6, s, pdr)) == r,
{
    let f = check_pdi_fteid(gtp_addr_v6, &pdr.pdi);
    if f != ReadCheck::Reads {
        return f;
    }
    let u = check_pdi_ue_ips(&pdr.pdi);
    if u != ReadCheck::Reads {
        return u;
    }
    let sdfs = check_sdfs(&pdr.pdi.sdf_filters);
    if sdfs != ReadCheck::Reads {
        return sdfs;
    }
    if pdr.qer_ids.len() > QER_MAP_SIZE || pdr.urr_ids.len() > URR_MAP_SIZE {
        ReadCheck::Panics
    } else {
        ReadCheck::Reads
    }
}

/// How applying an Update PDR IE to a session that holds its uplink PDR ends;
/// the rest of the session makes no difference to that.
pub fn check_update_pdr(gtp_addr_v6: Option<u128>, update: &UpdatePdrIe) -> (r: ReadCheck)
    ensures
        forall|s: SessionView|
            s.ul_pdrs.contains_key(update.pdr_id) ==> #[trigger] update_reading_check(
                spec_read_update_pdr(gtp_addr_v6, s, update),
            ) == r,
{
    if let Some(pdi) = &update.pdi {
        let f = check_pdi_fteid(gtp_addr_v6, pdi);
        let u = check_pdi_ue_ips(pdi);
        if f == ReadCheck::Panics || u == ReadCheck::Panics {
            return ReadCheck::Panics;
        }
        let sdfs = check_sdfs(&pdi.sdf_filters);
        if sdfs != ReadCheck::Reads {
            return sdfs;
        }
    }
    if update.qer_ids.len() > QER_MAP_SIZE || update.urr_ids.len() > URR_MAP_SIZE {
        ReadCheck::Panics
    } else {
        ReadCheck::Reads
    }
}

} // verus!
