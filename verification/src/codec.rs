//! The frame codec: building ARP request frames and parsing candidate
//! reply frames, byte for byte.
//!
//! A request frame is a 14-byte Ethernet header (broadcast destination,
//! source hardware address, ARP ethertype) followed by a 28-byte ARP body
//! (Ethernet hardware type, IPv4 protocol type, a request operation, the
//! sender pair, an all-zero target hardware address and the target
//! protocol address) — 42 bytes in all.  A reply is accepted from any
//! frame long enough to carry that layout whose ethertype is ARP and
//! whose operation is a reply; everything else is silently dropped.

use vstd::prelude::*;

use crate::addr::Ipv4Addr;
use crate::addr::MacAddr;

verus! {

/// Length of a full frame: 14-byte Ethernet header + 28-byte ARP body.
pub const FRAME_LEN: usize = 42;

/// One responsive host: its IPv4 address and the hardware address it
/// answered with.
#[derive(Clone, Copy, PartialEq, Eq, Structural, Debug)]
pub struct ArpScanResult {
    pub ip: Ipv4Addr,
    pub mac: MacAddr,
}

/// The byte at offset `i` of the request frame built from the given
/// source pair and target address.
pub open spec fn request_frame_byte(
    source_mac: MacAddr,
    source_ip: Ipv4Addr,
    target_ip: Ipv4Addr,
    i: int,
) -> u8 {
    if i < 6 {
        0xff  // Ethernet destination: link broadcast
    } else if i < 12 {
        source_mac.bytes()[i - 6]  // Ethernet source
    } else if i == 12 {
        0x08  // ethertype: ARP, high byte
    } else if i == 13 {
        0x06  // ethertype: ARP, low byte
    } else if i == 14 {
        0x00  // hardware type: Ethernet, high byte
    } else if i == 15 {
        0x01  // hardware type: Ethernet, low byte
    } else if i == 16 {
        0x08  // protocol type: IPv4, high byte
    } else if i == 17 {
        0x00  // protocol type: IPv4, low byte
    } else if i == 18 {
        6  // hardware address length
    } else if i == 19 {
        4  // protocol address length
    } else if i == 20 {
        0x00  // operation: request, high byte
    } else if i == 21 {
        0x01  // operation: request, low byte
    } else if i < 28 {
        source_mac.bytes()[i - 22]  // sender hardware address
    } else if i < 32 {
        source_ip.octets()[i - 28]  // sender protocol address
    } else if i < 38 {
        0x00  // target hardware address: unknown
    } else if i < 42 {
        target_ip.octets()[i - 38]  // target protocol address
    } else {
        0
    }
}

/// `f` is exactly the request frame for this source pair and target.
pub open spec fn is_request_frame(
    f: Seq<u8>,
    source_mac: MacAddr,
    source_ip: Ipv4Addr,
    target_ip: Ipv4Addr,
) -> bool {
    f.len() == 42 && forall|i: int|
        0 <= i < 42 ==> f[i] == request_frame_byte(source_mac, source_ip, target_ip, i)
}

/// `f` decodes as an ARP reply: long enough for the Ethernet + ARP
/// layout, ethertype ARP, operation reply.
pub open spec fn reply_frame_ok(f: Seq<u8>) -> bool {
    &&& f.len() >= 42
    &&& f[12] == 0x08 && f[13] == 0x06
    &&& f[20] == 0x00 && f[21] == 0x02
}

/// The sender hardware address carried by an ARP frame.
pub open spec fn reply_sender_mac(f: Seq<u8>) -> Seq<u8> {
    f.subrange(22, 28)
}

/// The sender protocol address carried by an ARP frame.
pub open spec fn reply_sender_ip(f: Seq<u8>) -> Seq<u8> {
    f.subrange(28, 32)
}

/// Build the broadcast ARP request probing `target_ip` on behalf of the
/// given source pair.  The result is always exactly 42 bytes.
pub fn build_arp_request(source_mac: MacAddr, source_ip: Ipv4Addr, target_ip: Ipv4Addr) -> (frame:
    Vec<u8>)
    ensures
        frame@.len() == 42,
        is_request_frame(frame@, source_mac, source_ip, target_ip),
{
    let mut f: Vec<u8> = Vec::new();
    // Ethernet header
    f.push(0xff);
    f.push(0xff);
    f.push(0xff);
    f.push(0xff);
    f.push(0xff);
    f.push(0xff);
    f.push(source_mac.b0);
    f.push(source_mac.b1);
    f.push(source_mac.b2);
    f.push(source_mac.b3);
    f.push(source_mac.b4);
    f.push(source_mac.b5);
    f.push(0x08);
    f.push(0x06);
    // ARP body
    f.push(0x00);
    f.push(0x01);
    f.push(0x08);
    f.push(0x00);
    f.push(6);
    f.push(4);
    f.push(0x00);
    f.push(0x01);
    f.push(source_mac.b0);
    f.push(source_mac.b1);
    f.push(source_mac.b2);
    f.push(source_mac.b3);
    f.push(source_mac.b4);
    f.push(source_mac.b5);
    f.push(source_ip.o0);
    f.push(source_ip.o1);
    f.push(source_ip.o2);
    f.push(source_ip.o3);
    f.push(0x00);
    f.push(0x00);
    f.push(0x00);
    f.push(0x00);
    f.push(0x00);
    f.push(0x00);
    f.push(target_ip.o0);
    f.push(target_ip.o1);
    f.push(target_ip.o2);
    f.push(target_ip.o3);
    f
}

/// The scan entry an accepted reply frame decodes to.
pub open spec fn reply_result(f: Seq<u8>) -> ArpScanResult {
    ArpScanResult {
        ip: crate::addr::ip_from_octets(reply_sender_ip(f)),
        mac: crate::addr::mac_from_bytes(reply_sender_mac(f)),
    }
}

/// A request frame carries a request operation, so the reply parser
/// never accepts it.
pub proof fn lemma_request_is_not_reply(
    f: Seq<u8>,
    source_mac: MacAddr,
    source_ip: Ipv4Addr,
    target_ip: Ipv4Addr,
)
    requires
        is_request_frame(f, source_mac, source_ip, target_ip),
    ensures
        !reply_frame_ok(f),
{
    assert(f[21] == 0x01);
}

/// Round trip: a built request whose operation field is flipped to a
/// reply parses as a reply, and the sender pair it reports is exactly
/// the source pair the request was built with.
pub proof fn lemma_request_reply_round_trip(
    f: Seq<u8>,
    source_mac: MacAddr,
    source_ip: Ipv4Addr,
    target_ip: Ipv4Addr,
)
    requires
        is_request_frame(f, source_mac, source_ip, target_ip),
    ensures
        reply_frame_ok(f.update(21, 0x02u8)),
        reply_sender_mac(f.update(21, 0x02u8)) == source_mac.bytes(),
        reply_sender_ip(f.update(21, 0x02u8)) == source_ip.octets(),
{
    let g = f.update(21, 0x02u8);
    assert(g[12] == 0x08 && g[13] == 0x06 && g[20] == 0x00);
    assert(reply_sender_mac(g) =~= source_mac.bytes());
    assert(reply_sender_ip(g) =~= source_ip.octets());
}

/// Parse a captured frame as an ARP reply.  Returns the sender pair
/// exactly as encoded, or nothing for any frame that is not an ARP
/// reply — truncated and unrelated frames are dropped, never errors.
pub fn parse_arp_reply(frame: &[u8]) -> (r: Option<ArpScanResult>)
    ensures
        r is Some <==> reply_frame_ok(frame@),
        r matches Some(h) ==> h.mac.bytes() == reply_sender_mac(frame@) && h.ip.octets()
            == reply_sender_ip(frame@),
        r matches Some(h) ==> h == reply_result(frame@),
{
    if frame.len() < 42 {
        return None;
    }
    if frame[12] != 0x08 || frame[13] != 0x06 {
        return None;
    }
    if frame[20] != 0x00 || frame[21] != 0x02 {
        return None;
    }
    let mac = MacAddr::new(frame[22], frame[23], frame[24], frame[25], frame[26], frame[27]);
    let ip = Ipv4Addr::new(frame[28], frame[29], frame[30], frame[31]);
    Some(ArpScanResult { ip, mac })
}

} // verus!
