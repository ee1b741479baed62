//! The neighbor simulator: configuration, derivation of the System ID and
//! Area ID from the configured NET, Hello construction, structural
//! verification of received frames, and the per-iteration verdict of the
//! exchange loop.
use crate::builder::hello_packet_bytes;
use crate::builder::push_bytes;
use crate::builder::ISISPacketBuilder;
use crate::frame::frame_valid;
use crate::frame::payload_valid;
use crate::hexcodec::strip_dot_bytes;
use crate::netstr::all_hex;
use crate::netstr::area_of;
use crate::netstr::char_bytes;
use crate::netstr::find_first_dot;
use crate::netstr::has_dot;
use crate::netstr::ip_octets;
use crate::netstr::lemma_all_hex_ascii;
use crate::netstr::lemma_area_of_ascii;
use crate::netstr::lemma_first_dot_le;
use crate::netstr::lemma_str_bytes_are_chars;
use crate::netstr::lemma_strip_dots_add;
use crate::netstr::lemma_strip_dots_ascii;
use crate::netstr::lemma_strip_dots_push;
use crate::netstr::pad_group;
use crate::netstr::parse_dotted_octets;
use crate::netstr::router_ip_valid;
use crate::netstr::strip_dots;
use crate::pdu::CircuitType;
use crate::pdu::PDUType;
use crate::IsisError;
use vstd::pervasive::unreached;
use vstd::prelude::*;
use vstd::slice::slice_index_get;
use vstd::slice::slice_subrange;
use vstd::string::StrSliceExecFns;
use vstd::string::StringExecFns;
use vstd::string::StringExecFnsIsAscii;
use vstd::string::StringSliceAdditionalSpecFns;
use vstd::utf8::is_ascii_chars;

verus! {

/// Seconds between two Hello transmissions.
pub const HELLO_INTERVAL_SECS: u64 = 3;

/// Milliseconds the receive side waits for a frame.
pub const CAPTURE_TIMEOUT_MS: i32 = 5000;

/// The immutable configuration of a simulator: capture interface, router
/// address, NET, Hello cadence and receive timeout.
#[derive(Debug)]
pub struct ISISConfig {
    /// The name of the capture interface.
    pub interface: String,
    /// The router's IPv4 address, dotted decimal.
    pub router_ip: String,
    /// The configured Network Entity Title, dot-separated hex groups.
    pub net: String,
    /// Seconds between two Hello transmissions.
    pub hello_interval: u64,
    /// Milliseconds the receive side waits for a frame.
    pub capture_timeout: i32,
}

impl Default for ISISConfig {
    /// Empty names and the standard cadence.
    fn default() -> (c: Self)
        ensures
            c.interface@ == Seq::<char>::empty(),
            c.router_ip@ == Seq::<char>::empty(),
            c.net@ == Seq::<char>::empty(),
            c.hello_interval == HELLO_INTERVAL_SECS,
            c.capture_timeout == CAPTURE_TIMEOUT_MS,
    {
        Self {
            interface: String::new(),
            router_ip: String::new(),
            net: String::new(),
            hello_interval: HELLO_INTERVAL_SECS,
            capture_timeout: CAPTURE_TIMEOUT_MS,
        }
    }
}

/// The NET has the accepted shape: ASCII, long enough to carry the System ID
/// slice at characters 8 through 21, at least two dot-separated groups, a
/// System ID slice of exactly 12 hex digits once its dots are removed, and an
/// Area ID that fits a one-byte record length.
pub open spec fn net_valid(n: Seq<char>) -> bool {
    &&& is_ascii_chars(n)
    &&& n.len() >= 22
    &&& has_dot(n)
    &&& strip_dots(n.subrange(8, 22)).len() == 12
    &&& all_hex(strip_dots(n.subrange(8, 22)))
    &&& area_of(n).len() <= 255
}

/// One side of a point-to-point adjacency probe: the configuration plus the
/// System ID and Area ID derived from its NET.
#[derive(Debug)]
pub struct ISISNeighborSimulator {
    /// The configuration the simulator was built from.
    pub config: ISISConfig,
    /// The System ID as configured: three 4-digit hex groups with dots.
    pub system_id: String,
    /// The derived, zero-padded Area ID.
    pub area_id: String,
}

/// What one Running iteration of the exchange loop concludes after its
/// receive step.
#[derive(Debug, Clone, Copy, PartialEq, Eq, Structural)]
pub enum ExchangeOutcome {
    /// A frame arrived and is a structurally valid Hello.
    ValidNeighbor,
    /// A frame arrived but is not a structurally valid Hello.
    FailedVerification,
    /// No frame arrived within the window; expected, not a fault.
    NoResponse,
}

/// The verdict an iteration owes for what the receive step yielded.
pub open spec fn exchange_verdict(received: Option<Seq<u8>>) -> ExchangeOutcome {
    match received {
        Some(f) => if frame_valid(f) {
            ExchangeOutcome::ValidNeighbor
        } else {
            ExchangeOutcome::FailedVerification
        },
        None => ExchangeOutcome::NoResponse,
    }
}

impl ExchangeOutcome {
    /// The human-readable verdict the loop logs.
    pub fn message(&self) -> (r: &'static str)
        ensures
            r@ == match self {
                ExchangeOutcome::ValidNeighbor => "Valid ISIS neighbor detected"@,
                ExchangeOutcome::FailedVerification => "Failed to verify ISIS neighbor"@,
                ExchangeOutcome::NoResponse => "No response received"@,
            },
    {
        match self {
            ExchangeOutcome::ValidNeighbor => "Valid ISIS neighbor detected",
            ExchangeOutcome::FailedVerification => "Failed to verify ISIS neighbor",
            ExchangeOutcome::NoResponse => "No response received",
        }
    }
}

impl ISISNeighborSimulator {
    /// The simulator's identifiers are usable: the System ID is ASCII and
    /// holds exactly 12 hex digits besides its dots, and the Area ID is ASCII
    /// and fits a one-byte record length.
    pub open spec fn wf(&self) -> bool {
        &&& is_ascii_chars(self.system_id@)
        &&& strip_dots(self.system_id@).len() == 12
        &&& all_hex(strip_dots(self.system_id@))
        &&& is_ascii_chars(self.area_id@)
        &&& self.area_id@.len() <= 255
    }

    /// Build a simulator from a configuration: derive the System ID — the
    /// 14-character slice of the NET at characters 8 through 21, three hex
    /// groups with their dots — and the Area ID. Fails with `InvalidFormat`
    /// exactly when the NET does not have the accepted shape.
    pub fn new(config: ISISConfig) -> (r: Result<Self, IsisError>)
        ensures
            r is Ok <==> net_valid(config.net@),
            r is Ok ==> r->Ok_0.wf(),
            r is Ok ==> r->Ok_0.system_id@ == config.net@.subrange(8, 22),
            r is Ok ==> r->Ok_0.area_id@ == area_of(config.net@),
            r is Ok ==> r->Ok_0.config == config,
            r is Err ==> r->Err_0 == IsisError::InvalidFormat,
    {
        if !config.net.is_ascii() {
            return Err(IsisError::InvalidFormat);
        }
        let len = config.net.as_str().unicode_len();
        if len < 22 {
            return Err(IsisError::InvalidFormat);
        }
        let area_id = match Self::extract_area_id(config.net.as_str()) {
            Ok(a) => a,
            Err(_) => {
                return Err(IsisError::InvalidFormat);
            },
        };
        if area_id.as_str().unicode_len() > 255 {
            return Err(IsisError::InvalidFormat);
        }
        let sid = config.net.as_str().substring_ascii(8, 22);
        let mut i: usize = 0;
        let mut count: usize = 0;
        while i < 14
            invariant
                0 <= i <= 14,
                sid@.len() == 14,
                sid@ == config.net@.subrange(8, 22),
                is_ascii_chars(sid@),
                count == strip_dots(sid@.take(i as int)).len(),
                all_hex(strip_dots(sid@.take(i as int))),
                count <= i,
            decreases 14 - i,
        {
            let c = sid.get_char(i);
            proof {
                lemma_strip_dots_push(sid@.take(i as int), sid@[i as int]);
                assert(sid@.take(i as int + 1) =~= sid@.take(i as int).push(sid@[i as int]));
            }
            if c != '.' {
                let v = c as u32;
                let hex_ok = (48 <= v && v <= 57) || (97 <= v && v <= 102) || (65 <= v && v
                    <= 70);
                if !hex_ok {
                    proof {
                        lemma_strip_dots_add(sid@.take(i as int + 1), sid@.skip(i as int + 1));
                        assert(sid@.take(i as int + 1) + sid@.skip(i as int + 1) =~= sid@);
                        assert(strip_dots(sid@)[count as int] == sid@[i as int]);
                    }
                    return Err(IsisError::InvalidFormat);
                }
                count = count + 1;
            }
            i = i + 1;
        }
        proof {
            assert(sid@.take(14) =~= sid@);
        }
        if count != 12 {
            return Err(IsisError::InvalidFormat);
        }
        let system_id = sid.to_owned();
        proof {
            lemma_area_of_ascii(config.net@);
        }
        Ok(Self { config, system_id, area_id })
    }

    /// The Area ID of a NET: its first two dot-separated groups, zero-padded
    /// and rejoined. Fails with `InvalidFormat` exactly when the NET has
    /// fewer than two groups.
    pub fn extract_area_id(net: &str) -> (r: Result<String, IsisError>)
        ensures
            r is Ok <==> has_dot(net@),
            r is Ok ==> r->Ok_0@ == area_of(net@),
            r is Err ==> r->Err_0 == IsisError::InvalidFormat,
    {
        proof {
            lemma_first_dot_le(net@);
        }
        let len = net.unicode_len();
        let d1 = find_first_dot(net);
        if d1 == len {
            return Err(IsisError::InvalidFormat);
        }
        let g0 = net.substring_char(0, d1);
        let rest = net.substring_char(d1 + 1, len);
        proof {
            lemma_first_dot_le(rest@);
        }
        let d2 = find_first_dot(rest);
        let g1 = rest.substring_char(0, d2);
        let mut out = pad_group(g0);
        out.append(".");
        let p1 = pad_group(g1);
        out.append(p1.as_str());
        proof {
            reveal_strlit(".");
            assert(out@ =~= area_of(net@));
        }
        Ok(out)
    }

    /// Every dot-separated group of `area`, zero-padded on the left to width
    /// 2 — padding only adds digits, never truncates — rejoined with dots.
    pub fn format_area_id(area: &str) -> (r: String)
        ensures
            r@ == crate::netstr::format_groups(area@),
        decreases area@.len(),
    {
        proof {
            lemma_first_dot_le(area@);
        }
        let len = area.unicode_len();
        let d = find_first_dot(area);
        if d == len {
            pad_group(area)
        } else {
            let g = area.substring_char(0, d);
            let rest = area.substring_char(d + 1, len);
            let mut out = pad_group(g);
            out.append(".");
            let tail = Self::format_area_id(rest);
            out.append(tail.as_str());
            proof {
                reveal_strlit(".");
                assert(out@ =~= crate::netstr::format_groups(area@));
            }
            out
        }
    }

    /// Assemble one point-to-point Hello frame for this simulator's System
    /// ID, Area ID and router address. Fails with `InvalidAddress` exactly
    /// when the configured router address is not four dot-separated decimal
    /// octets; nothing else can fail.
    pub fn craft_hello_packet(&self) -> (r: Result<Vec<u8>, IsisError>)
        requires
            self.wf(),
        ensures
            r is Ok <==> router_ip_valid(self.config.router_ip@),
            r is Ok ==> r->Ok_0@ == hello_packet_bytes(
                self.system_id@,
                self.area_id@,
                ip_octets(self.config.router_ip@),
            ),
            r is Err ==> r->Err_0 == IsisError::InvalidAddress,
    {
        let octets = match parse_dotted_octets(self.config.router_ip.as_str()) {
            None => {
                return Err(IsisError::InvalidAddress);
            },
            Some(o) => o,
        };
        if octets.len() != 4 {
            return Err(IsisError::InvalidAddress);
        }
        proof {
            assert(octets@ =~= ip_octets(self.config.router_ip@));
        }
        let mut builder = ISISPacketBuilder::new();
        builder.add_ethernet_header();
        builder.add_isis_header(PDUType::P2PHello);
        let sid_str = self.system_id.as_str();
        proof {
            lemma_str_bytes_are_chars(sid_str);
            lemma_strip_dots_ascii(self.system_id@);
            lemma_all_hex_ascii(strip_dots(self.system_id@));
            assert(strip_dot_bytes(sid_str.spec_bytes()) == char_bytes(
                strip_dots(self.system_id@),
            ));
            assert(char_bytes(strip_dots(self.system_id@)).len() == 12);
        }
        let mut packet = match builder.add_system_id(sid_str) {
            Ok(()) => builder.build(),
            Err(_) => unreached(),
        };
        packet.push(0x00);
        packet.push(30);
        packet.push(0x01);
        let area_str = self.area_id.as_str();
        let alen = area_str.unicode_len();
        packet.push(alen as u8);
        proof {
            lemma_str_bytes_are_chars(area_str);
        }
        push_bytes(&mut packet, area_str.as_bytes());
        packet.push(0x81);
        packet.push(0x01);
        packet.push(0xCC);
        packet.push(0x8E);
        packet.push(0x04);
        push_bytes(&mut packet, octets.as_slice());
        packet.push(0xFF);
        packet.push(0xFF);
        let ghost before_padding = packet@;
        let mut j: usize = 0;
        while j < 255
            invariant
                0 <= j <= 255,
                packet@ == before_padding + crate::builder::zero_bytes(j as nat),
            decreases 255 - j,
        {
            packet.push(0x00);
            proof {
                assert(before_padding + crate::builder::zero_bytes(j as nat + 1) =~= (
                before_padding + crate::builder::zero_bytes(j as nat)).push(0u8));
            }
            j = j + 1;
        }
        proof {
            assert(packet@ =~= hello_packet_bytes(
                self.system_id@,
                self.area_id@,
                ip_octets(self.config.router_ip@),
            ));
        }
        Ok(packet)
    }

    /// Structurally validate the ISIS payload of a received frame: it must
    /// be long enough to carry both checked fields — the circuit type sits at
    /// offset 8, so anything shorter fails closed — with a recognized Hello
    /// PDU type at offset 4 and a recognized circuit type at offset 8.
    pub fn verify_isis_payload(&self, payload: &[u8]) -> (r: bool)
        ensures
            r == payload_valid(payload@),
    {
        if payload.len() < 9 {
            return false;
        }
        let pdu = PDUType::from_byte(*slice_index_get(payload, 4));
        match pdu {
            None => false,
            Some(_) => {
                let circuit = CircuitType::from_byte(*slice_index_get(payload, 8));
                match circuit {
                    None => false,
                    Some(_) => true,
                }
            },
        }
    }

    /// Structurally validate a received frame: classify its framing by the
    /// 16-bit field at offset 12 — at most 1500 is a legacy length field and
    /// demands the IS-IS LLC service access points, anything else must be the
    /// IS-IS EtherType — then validate the ISIS payload behind the header.
    /// Fails closed: it returns false on malformed input, it never panics.
    pub fn verify_response(&self, _sent_packet: &[u8], received_packet: &[u8]) -> (r: bool)
        ensures
            r == frame_valid(received_packet@),
    {
        let n = received_packet.len();
        if n < 14 {
            return false;
        }
        let b12 = *slice_index_get(received_packet, 12);
        let b13 = *slice_index_get(received_packet, 13);
        let field: u32 = (b12 as u32) * 256 + (b13 as u32);
        if field <= 1500 {
            if n < 17 {
                return false;
            }
            let dsap = *slice_index_get(received_packet, 14);
            let ssap = *slice_index_get(received_packet, 15);
            if dsap != 0xFE || ssap != 0xFE {
                return false;
            }
            let payload = slice_subrange(received_packet, 17, n);
            proof {
                assert(payload@ =~= received_packet@.skip(17));
            }
            self.verify_isis_payload(payload)
        } else {
            if field != 0x83FE {
                return false;
            }
            let payload = slice_subrange(received_packet, 14, n);
            proof {
                assert(payload@ =~= received_packet@.skip(14));
            }
            self.verify_isis_payload(payload)
        }
    }

    /// One Running iteration's verdict on what the receive step yielded: a
    /// valid neighbor, a frame that failed verification, or no response.
    pub fn evaluate_exchange(&self, _sent_packet: &[u8], received: &Option<Vec<u8>>) -> (v:
        ExchangeOutcome)
        ensures
            v == exchange_verdict(
                match received {
                    Some(f) => Some(f@),
                    None => None,
                },
            ),
    {
        match received {
            Some(f) => {
                if self.verify_response(_sent_packet, f.as_slice()) {
                    ExchangeOutcome::ValidNeighbor
                } else {
                    ExchangeOutcome::FailedVerification
                }
            },
            None => ExchangeOutcome::NoResponse,
        }
    }
}

} // verus!
