//! What makes a received frame a structurally valid Hello: the length /
//! EtherType disambiguation between legacy LLC framing and EtherType framing,
//! and the PDU-type and circuit-type checks on the ISIS payload.
use crate::builder::hello_packet_bytes;
use crate::pdu::CircuitType;
use crate::pdu::PDUType;
use vstd::prelude::*;

verus! {

/// The big-endian 16-bit value at offset `i` of `f`.
pub open spec fn be16(f: Seq<u8>, i: int) -> int
    recommends
        0 <= i,
        i + 2 <= f.len(),
{
    (f[i] as int) * 256 + (f[i + 1] as int)
}

/// The ISIS payload is a structurally valid Hello: long enough to carry the
/// checked fields, a recognized Hello PDU type at offset 4, and a recognized
/// circuit type at offset 8. Everything else in the payload is deliberately
/// not checked.
pub open spec fn payload_valid(p: Seq<u8>) -> bool {
    &&& p.len() >= 9
    &&& PDUType::spec_from_byte(p[4]) is Some
    &&& CircuitType::spec_from_byte(p[8]) is Some
}

/// The received frame carries a structurally valid Hello. A 16-bit field
/// value of at most 1500 at offset 12 is always a length, never an EtherType,
/// so such a frame is legacy framing and must carry the IS-IS LLC service
/// access points; any larger value must be the IS-IS EtherType itself.
pub open spec fn frame_valid(f: Seq<u8>) -> bool {
    &&& f.len() >= 14
    &&& if be16(f, 12) <= 1500 {
        &&& f.len() >= 17
        &&& f[14] == 0xFE
        &&& f[15] == 0xFE
        &&& payload_valid(f.skip(17))
    } else {
        &&& be16(f, 12) == 0x83FE
        &&& payload_valid(f.skip(14))
    }
}

/// A frame shorter than the 14-byte link-layer header is never accepted.
pub proof fn lemma_short_frame_rejected(f: Seq<u8>)
    requires
        f.len() < 14,
    ensures
        !frame_valid(f),
{
}

/// A legacy-framed frame — one whose 16-bit field at offset 12 is at most
/// 1500 — whose LLC service access points are not both the IS-IS value 0xFE
/// is never accepted.
pub proof fn lemma_bad_sap_rejected(f: Seq<u8>)
    requires
        f.len() >= 16,
        be16(f, 12) <= 1500,
        f[14] != 0xFE || f[15] != 0xFE,
    ensures
        !frame_valid(f),
{
}

/// A frame with the IS-IS EtherType 0x83FE whose payload carries a
/// recognized Hello PDU type at offset 4 and a recognized circuit type at
/// offset 8 is always accepted.
pub proof fn lemma_good_ethertype_accepted(f: Seq<u8>)
    requires
        f.len() >= 23,
        f[12] == 0x83,
        f[13] == 0xFE,
        PDUType::spec_from_byte(f[18]) is Some,
        CircuitType::spec_from_byte(f[22]) is Some,
    ensures
        frame_valid(f),
{
    assert(be16(f, 12) == 0x83FE);
    assert(f.skip(14)[4] == f[18]);
    assert(f.skip(14)[8] == f[22]);
}

/// A frame built for a point-to-point Hello is classified by the verifier as
/// EtherType framing carrying the IS-IS EtherType, and the PDU-type byte the
/// builder wrote — the second byte of the frame's ISIS payload, since the
/// builder emits the four-byte common header — passes the verifier's PDU-type
/// check as a point-to-point Hello.
pub proof fn lemma_built_frame_framing(system_id: Seq<char>, area_id: Seq<char>, ip: Seq<u8>)
    ensures
        hello_packet_bytes(system_id, area_id, ip).len() >= 14,
        be16(hello_packet_bytes(system_id, area_id, ip), 12) == 0x83FE,
        PDUType::spec_from_byte(hello_packet_bytes(system_id, area_id, ip).skip(14)[1]) == Some(
            PDUType::P2PHello,
        ),
{
    let p = hello_packet_bytes(system_id, area_id, ip);
    assert(p[12] == 0x83);
    assert(p[13] == 0xFE);
    assert(p.skip(14)[1] == p[15]);
    assert(p[15] == 17);
}

} // verus!
