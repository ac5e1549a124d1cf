# raxupf

The rules of a 5G User Plane Function — the PFCP session handling of 3GPP
TS 29.244, the GTP-U tunnelling of TS 29.281 and the PDU Session Container of
TS 38.415, as far as the UPF implements them — written in Verus with their
contracts proved. The contracts state what the code does; they do not claim
conformance to those specifications beyond it.

- `src/` — the verified library:
  - PFCP side: the message type and the IEs, read through `rs-pfcp` (`wire`,
    `requests`, `rule_ies` for the FAR and PDR IEs that carry other IEs), and
    the answers written through it (`answers`); associations (`association`, `pfcp`), sessions and their
    establishment and modification (`session`), the reading of FARs, QERs,
    URRs and PDRs (`rules`), SDF flow descriptions (`iprule_parser`,
    `text`, `ipaddr`), and the compilation of a session into the datapath's
    rule arrays (`PfcpContext::compile_session`).
  - Datapath side: the rule records (`far`, `pdr`, `pdi`, `qer`, `urr`, `sdf`,
    `fteid`, `ue_ip`), header layouts (`net`, `gtpu`, `pdu`), checksums
    (`checksum`), the packet parser (`parser`), rule matching
    (`pdr_processing`), GTP-U encapsulation, decapsulation and routing
    (`gtpu_helpers`), and the per-packet decisions of the XDP program
    (`datapath`), over a packet held as bytes.
- `tests/` — tests of the library on concrete values.
- `app/` — the PFCP endpoint (UDP socket; each message split into the
  payloads of its IEs through `rs-pfcp`), the eBPF maps filled through `aya`,
  and the settings read through `config`.
