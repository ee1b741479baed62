//! The packet builder: an append-only byte buffer and one method per
//! structural element of the point-to-point Hello frame, each proved to
//! append exactly the bytes the wire format prescribes.
use crate::hexcodec::all_hex_bytes;
use crate::hexcodec::hex_decode_bytes;
use crate::hexcodec::hex_decoded;
use crate::hexcodec::lemma_hex_decoded_len;
use crate::hexcodec::strip_dot_bytes;
use crate::netstr::char_bytes;
use crate::netstr::strip_dots;
use crate::pdu::PDUType;
use crate::IsisError;
use vstd::prelude::*;
use vstd::slice::slice_index_get;
use vstd::string::StringSliceAdditionalSpecFns;

verus! {

/// The link-layer header of a built Hello: the IS-IS multicast destination,
/// an all-zero source (the transmit facility overwrites it), and the IS-IS
/// EtherType `0x83FE`, big-endian.
pub open spec fn eth_header_bytes() -> Seq<u8> {
    seq![0x01u8, 0x80, 0xc2, 0x00, 0x00, 0x14, 0x00, 0x00, 0x00, 0x00, 0x00, 0x00, 0x83, 0xFE]
}

/// The ISIS common header of a built PDU: protocol id, PDU type, version,
/// reserved.
pub open spec fn isis_header_bytes(t: PDUType) -> Seq<u8> {
    seq![0x83u8, t.spec_byte(), 0x01, 0x00]
}

/// The System ID on the wire: the hex digits of the configured System ID
/// string, dots removed, decoded to bytes.
pub open spec fn system_id_bytes(system_id: Seq<char>) -> Seq<u8> {
    hex_decoded(char_bytes(strip_dots(system_id)))
}

/// The hold time on the wire: 30 seconds, big-endian.
pub open spec fn hold_time_bytes() -> Seq<u8> {
    seq![0x00u8, 30]
}

/// The Area-Address record: type 1, then the byte length of the area id
/// string, then its ASCII bytes.
pub open spec fn area_tlv_bytes(area_id: Seq<char>) -> Seq<u8> {
    seq![0x01u8, area_id.len() as u8] + char_bytes(area_id)
}

/// The Protocols-Supported record: type 0x81, length 1, IPv4.
pub open spec fn protocols_tlv_bytes() -> Seq<u8> {
    seq![0x81u8, 0x01, 0xCC]
}

/// The IP-Interface-Address record: type 0x8E, length 4, the four address
/// octets.
pub open spec fn ip_tlv_bytes(ip: Seq<u8>) -> Seq<u8> {
    seq![0x8Eu8, 0x04] + ip
}

/// `n` zero bytes.
pub open spec fn zero_bytes(n: nat) -> Seq<u8> {
    Seq::new(n, |i: int| 0u8)
}

/// The Padding record: type 0xFF, length 0xFF, 255 zero bytes.
pub open spec fn padding_tlv_bytes() -> Seq<u8> {
    seq![0xFFu8, 0xFF] + zero_bytes(255)
}

/// A whole point-to-point Hello frame, in construction order: link-layer
/// header, ISIS common header, System ID, hold time, then the Area,
/// Protocols-Supported, IP-Interface-Address and Padding records.
pub open spec fn hello_packet_bytes(system_id: Seq<char>, area_id: Seq<char>, ip: Seq<u8>) -> Seq<
    u8,
> {
    eth_header_bytes() + isis_header_bytes(PDUType::P2PHello) + system_id_bytes(system_id)
        + hold_time_bytes() + area_tlv_bytes(area_id) + protocols_tlv_bytes() + ip_tlv_bytes(ip)
        + padding_tlv_bytes()
}

/// A System ID string holding 12 hex digits besides its dots decodes to
/// exactly 6 bytes on the wire.
pub proof fn lemma_system_id_six_bytes(system_id: Seq<char>)
    requires
        strip_dots(system_id).len() == 12,
    ensures
        system_id_bytes(system_id).len() == 6,
{
    lemma_hex_decoded_len(char_bytes(strip_dots(system_id)));
}

/// A built Hello frame is 294 bytes plus the area id, whatever the inputs,
/// and always ends in the padding record's 255 zero bytes.
pub proof fn lemma_hello_packet_shape(system_id: Seq<char>, area_id: Seq<char>, ip: Seq<u8>)
    requires
        strip_dots(system_id).len() == 12,
        ip.len() == 4,
    ensures
        hello_packet_bytes(system_id, area_id, ip).len() == 294 + area_id.len(),
        forall|i: int|
            hello_packet_bytes(system_id, area_id, ip).len() - 255 <= i < hello_packet_bytes(
                system_id,
                area_id,
                ip,
            ).len() ==> hello_packet_bytes(system_id, area_id, ip)[i] == 0,
{
    lemma_hex_decoded_len(char_bytes(strip_dots(system_id)));
    let p = hello_packet_bytes(system_id, area_id, ip);
    assert(system_id_bytes(system_id).len() == 6);
    assert(p.len() == 294 + area_id.len());
    assert forall|i: int| p.len() - 255 <= i < p.len() implies p[i] == 0 by {
        assert(p[i] == padding_tlv_bytes()[i - (p.len() - 257)]);
        assert(padding_tlv_bytes()[i - (p.len() - 257)] == zero_bytes(255)[i - (p.len() - 255)]);
    }
}

/// An append-only buffer in which a Hello frame is assembled element by
/// element.
pub struct ISISPacketBuilder {
    buffer: Vec<u8>,
}

impl View for ISISPacketBuilder {
    type V = Seq<u8>;

    closed spec fn view(&self) -> Seq<u8> {
        self.buffer@
    }
}

impl ISISPacketBuilder {
    /// An empty buffer.
    pub fn new() -> (r: Self)
        ensures
            r@ == Seq::<u8>::empty(),
    {
        Self { buffer: Vec::new() }
    }

    /// Append the 14-byte link-layer header.
    pub fn add_ethernet_header(&mut self)
        ensures
            final(self)@ == old(self)@ + eth_header_bytes(),
    {
        self.buffer.push(0x01);
        self.buffer.push(0x80);
        self.buffer.push(0xc2);
        self.buffer.push(0x00);
        self.buffer.push(0x00);
        self.buffer.push(0x14);
        self.buffer.push(0x00);
        self.buffer.push(0x00);
        self.buffer.push(0x00);
        self.buffer.push(0x00);
        self.buffer.push(0x00);
        self.buffer.push(0x00);
        self.buffer.push(0x83);
        self.buffer.push(0xFE);
        proof {
            assert(self.buffer@ =~= old(self)@ + eth_header_bytes());
        }
    }

    /// Append the 4-byte ISIS common header for the given PDU type.
    pub fn add_isis_header(&mut self, pdu_type: PDUType)
        ensures
            final(self)@ == old(self)@ + isis_header_bytes(pdu_type),
    {
        self.buffer.push(0x83);
        self.buffer.push(pdu_type.byte());
        self.buffer.push(0x01);
        self.buffer.push(0x00);
        proof {
            assert(self.buffer@ =~= old(self)@ + isis_header_bytes(pdu_type));
        }
    }

    /// Append the System ID: the string's bytes with dots removed, hex
    /// decoded. Fails, leaving the buffer unchanged, exactly when what is
    /// left after removing the dots is not an even number of hex digits.
    pub fn add_system_id(&mut self, system_id: &str) -> (r: Result<(), IsisError>)
        ensures
            r is Ok <==> (strip_dot_bytes(system_id.spec_bytes()).len() % 2 == 0 && all_hex_bytes(
                strip_dot_bytes(system_id.spec_bytes()),
            )),
            r is Ok ==> final(self)@ == old(self)@ + hex_decoded(strip_dot_bytes(system_id.spec_bytes())),
            r is Err ==> final(self)@ == old(self)@ && r->Err_0 == IsisError::InvalidFormat,
    {
        let bytes = system_id.as_bytes();
        let n = bytes.len();
        let mut stripped: Vec<u8> = Vec::new();
        let mut i: usize = 0;
        while i < n
            invariant
                0 <= i <= n,
                n == bytes@.len(),
                bytes@ == system_id.spec_bytes(),
                stripped@ == strip_dot_bytes(bytes@.take(i as int)),
            decreases n - i,
        {
            let b = *slice_index_get(bytes, i);
            proof {
                crate::hexcodec::lemma_strip_dot_bytes_push(bytes@.take(i as int), bytes@[i as int]);
                assert(bytes@.take(i as int + 1) =~= bytes@.take(i as int).push(bytes@[i as int]));
            }
            if b != 46 {
                stripped.push(b);
            }
            i = i + 1;
        }
        proof {
            assert(bytes@.take(n as int) =~= bytes@);
        }
        match hex_decode_bytes(stripped.as_slice()) {
            Ok(decoded) => {
                push_bytes(&mut self.buffer, decoded.as_slice());
                Ok(())
            },
            Err(_) => Err(IsisError::InvalidFormat),
        }
    }

    /// Hand over the assembled bytes.
    pub fn build(self) -> (r: Vec<u8>)
        ensures
            r@ == self@,
    {
        self.buffer
    }
}

/// Append every byte of `src` to `dst`, in order.
pub(crate) fn push_bytes(dst: &mut Vec<u8>, src: &[u8])
    ensures
        final(dst)@ == old(dst)@ + src@,
{
    let n = src.len();
    let mut i: usize = 0;
    while i < n
        invariant
            0 <= i <= n,
            n == src@.len(),
            dst@ == old(dst)@ + src@.take(i as int),
        decreases n - i,
    {
        let b = *slice_index_get(src, i);
        dst.push(b);
        proof {
            assert(old(dst)@ + src@.take(i as int + 1) =~= (old(dst)@ + src@.take(i as int)).push(
                src@[i as int],
            ));
        }
        i = i + 1;
    }
    proof {
        assert(old(dst)@ + src@.take(n as int) =~= old(dst)@ + src@);
    }
}

} // verus!
