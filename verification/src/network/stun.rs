//! STUN (RFC 5389) message handling for NAT discovery: binding requests and
//! the mapped-address attributes of responses.
use vstd::prelude::*;
use crate::crypto::primitives::random_bytes_12;
use crate::wire::{from_be16, read_be16};

verus! {

pub const STUN_CLASS_REQUEST: u16 = 0x0001;

pub const STUN_METHOD_BINDING: u16 = 0x0001;

pub const STUN_CLASS_RESPONSE: u16 = 0x0100;

pub const ATTR_MAPPED_ADDRESS: u16 = 0x0001;

pub const ATTR_XOR_MAPPED_ADDRESS: u16 = 0x0020;

pub const STUN_TRANSACTION_ID_LEN: usize = 12;

/// Size of a binding request.
pub const BINDING_REQUEST_LEN: usize = 28;

/// Offset of the first attribute in a message.
pub const STUN_HEADER_LEN: usize = 20;

/// The high 16 bits of the magic cookie 0x2112A442, the key of an x-port.
pub const MAGIC_COOKIE_HIGH: u16 = 0x2112;

/// An IPv4 transport address.
#[derive(Debug, Clone, Copy, PartialEq, Eq)]
pub struct MappedAddress {
    pub ip: [u8; 4],
    pub port: u16,
}

/// Binding request: type 0x0001, method 0x0001, zero length, the
/// transaction id, then zero bytes up to 28 bytes.
pub open spec fn binding_request_bytes(tid: Seq<u8>) -> Seq<u8> {
    seq![0x00u8, 0x01u8, 0x00u8, 0x01u8, 0x00u8, 0x00u8] + tid + Seq::new(10, |i: int| 0u8)
}

/// Build a STUN binding request.
pub fn build_binding_request(transaction_id: &[u8; 12]) -> (r: Vec<u8>)
    ensures
        r@ == binding_request_bytes(transaction_id@),
        r@.len() == BINDING_REQUEST_LEN,
{
    let mut msg: Vec<u8> = Vec::with_capacity(28);
    msg.push(0x00u8);
    msg.push(0x01u8);
    msg.push(0x00u8);
    msg.push(0x01u8);
    msg.push(0x00u8);
    msg.push(0x00u8);
    let mut i: usize = 0;
    while i < 12
        invariant
            i <= 12,
            msg@ == seq![0x00u8, 0x01u8, 0x00u8, 0x01u8, 0x00u8, 0x00u8] + transaction_id@.subrange(0, i as int),
        decreases 12 - i,
    {
        msg.push(transaction_id[i]);
        i = i + 1;
        assert(msg@ =~= seq![0x00u8, 0x01u8, 0x00u8, 0x01u8, 0x00u8, 0x00u8] + transaction_id@.subrange(0, i as int));
    }
    let mut k: usize = 0;
    while k < 10
        invariant
            k <= 10,
            msg@ == seq![0x00u8, 0x01u8, 0x00u8, 0x01u8, 0x00u8, 0x00u8] + transaction_id@ + Seq::new(k as nat, |j: int| 0u8),
        decreases 10 - k,
    {
        msg.push(0u8);
        k = k + 1;
        assert(msg@ =~= seq![0x00u8, 0x01u8, 0x00u8, 0x01u8, 0x00u8, 0x00u8] + transaction_id@ + Seq::new(k as nat, |j: int| 0u8));
    }
    msg
}

/// `x` rounded up to a multiple of four.
pub open spec fn align4(x: int) -> int {
    if x % 4 == 0 {
        x
    } else {
        x + (4 - x % 4)
    }
}

/// Rounding up moves by less than four.
pub proof fn lemma_align4(x: int)
    ensures
        x <= align4(x) < x + 4,
        align4(x) % 4 == 0,
{
}

/// Type and length of the attribute at `offset`.
pub open spec fn attr_type(s: Seq<u8>, offset: int) -> u16 {
    from_be16(s[offset], s[offset + 1])
}

pub open spec fn attr_len(s: Seq<u8>, offset: int) -> u16 {
    from_be16(s[offset + 2], s[offset + 3])
}

/// The first IPv4 MAPPED-ADDRESS found scanning attributes from `offset`:
/// attribute value = reserved(1) | family(1) | port(2) | address(4), with
/// family 0x01 for IPv4. Scanning stops at an attribute that does not fit.
pub open spec fn scan_mapped(s: Seq<u8>, offset: int) -> Option<MappedAddress>
    decreases s.len() + 4 - offset,
{
    if offset < 0 || offset + 4 > s.len() {
        None
    } else if offset + 4 + attr_len(s, offset) > s.len() {
        None
    } else if attr_type(s, offset) == ATTR_MAPPED_ADDRESS && attr_len(s, offset) >= 8 && s[offset + 5]
        == 0x01 {
        Some(
            MappedAddress {
                ip: [s[offset + 8], s[offset + 9], s[offset + 10], s[offset + 11]],
                port: from_be16(s[offset + 6], s[offset + 7]),
            },
        )
    } else {
        proof {
            lemma_align4(offset + 4 + attr_len(s, offset));
        }
        scan_mapped(s, align4(offset + 4 + attr_len(s, offset)))
    }
}

/// The first IPv4 XOR-MAPPED-ADDRESS found scanning attributes from
/// `offset`: attribute value = reserved(1) | family(1) | x-port(2) |
/// x-address(4), family 0x01. The port is xored with the high half of the
/// magic cookie 0x2112A442 and the address with the whole cookie.
pub open spec fn scan_xor_mapped(s: Seq<u8>, offset: int) -> Option<MappedAddress>
    decreases s.len() + 4 - offset,
{
    if offset < 0 || offset + 4 > s.len() {
        None
    } else if offset + 4 + attr_len(s, offset) > s.len() {
        None
    } else if attr_type(s, offset) == ATTR_XOR_MAPPED_ADDRESS && attr_len(s, offset) >= 8 && s[offset
        + 5] == 0x01 {
        Some(
            MappedAddress {
                ip: [
                    s[offset + 8] ^ 0x21u8,
                    s[offset + 9] ^ 0x12u8,
                    s[offset + 10] ^ 0xA4u8,
                    s[offset + 11] ^ 0x42u8,
                ],
                port: from_be16(s[offset + 6], s[offset + 7]) ^ MAGIC_COOKIE_HIGH,
            },
        )
    } else {
        proof {
            lemma_align4(offset + 4 + attr_len(s, offset));
        }
        scan_xor_mapped(s, align4(offset + 4 + attr_len(s, offset)))
    }
}

/// Whether `s` is a Binding success response whose declared attribute
/// length fits the message.
pub open spec fn is_binding_response(s: Seq<u8>) -> bool {
    let t = from_be16(s[0], s[1]);
    &&& t & 0x01F0 == STUN_CLASS_RESPONSE
    &&& t & 0x000F == STUN_METHOD_BINDING
    &&& s.len() >= STUN_HEADER_LEN + from_be16(s[2], s[3])
}

/// The mapped address of a Binding response.
pub open spec fn spec_mapped_address(s: Seq<u8>) -> Option<MappedAddress> {
    if s.len() < STUN_HEADER_LEN {
        None
    } else if !is_binding_response(s) {
        None
    } else {
        scan_mapped(s, STUN_HEADER_LEN as int)
    }
}

fn next_attr_offset(offset: usize, len: usize) -> (r: usize)
    requires
        offset + 7 <= usize::MAX,
    ensures
        r == align4(offset as int),
{
    if offset % 4 == 0 {
        offset
    } else {
        offset + (4 - offset % 4)
    }
}

/// Parse a STUN response and extract its IPv4 MAPPED-ADDRESS.
pub fn parse_mapped_address(response: &[u8]) -> (r: Option<MappedAddress>)
    requires
        response@.len() + 8 <= usize::MAX,
    ensures
        r == spec_mapped_address(response@),
{
    if response.len() < STUN_HEADER_LEN {
        return None;
    }
    let msg_type = read_be16(response, 0);
    let msg_class = msg_type & 0x01F0;
    let msg_method = msg_type & 0x000F;
    if msg_class != STUN_CLASS_RESPONSE || msg_method != STUN_METHOD_BINDING {
        return None;
    }
    let total_attr_len = read_be16(response, 2) as usize;
    if response.len() - STUN_HEADER_LEN < total_attr_len {
        return None;
    }
    let s = Ghost(response@);
    let mut offset: usize = STUN_HEADER_LEN;
    while offset <= response.len() && response.len() - offset >= 4
        invariant
            s@ == response@,
            response@.len() + 8 <= usize::MAX,
            spec_mapped_address(s@) == scan_mapped(s@, offset as int),
        decreases response@.len() + 4 - offset,
    {
        let at = read_be16(response, offset);
        let al = read_be16(response, offset + 2) as usize;
        if response.len() - offset - 4 < al {
            return None;
        }
        if at == ATTR_MAPPED_ADDRESS && al >= 8 && response[offset + 5] == 0x01 {
            let port = read_be16(response, offset + 6);
            let ip: [u8; 4] = [response[offset + 8], response[offset + 9], response[offset + 10], response[offset + 11]];
            proof {
                assert(ip =~= [s@[offset + 8], s@[offset + 9], s@[offset + 10], s@[offset + 11]]);
            }
            return Some(MappedAddress { ip, port });
        }
        offset = next_attr_offset(offset + 4 + al, response.len());
    }
    None
}

/// Parse the IPv4 XOR-MAPPED-ADDRESS (RFC 5389) of a STUN response. The
/// transaction id enters the xor only for IPv6 addresses, which this parser
/// does not report, so an IPv4 result does not depend on it.
pub fn parse_xor_mapped_address(response: &[u8], transaction_id: &[u8; 12]) -> (r: Option<MappedAddress>)
    requires
        response@.len() + 8 <= usize::MAX,
    ensures
        response@.len() < STUN_HEADER_LEN ==> r is None,
        response@.len() >= STUN_HEADER_LEN ==> r == scan_xor_mapped(response@, STUN_HEADER_LEN as int),
{
    if response.len() < STUN_HEADER_LEN {
        return None;
    }
    let s = Ghost(response@);
    let mut offset: usize = STUN_HEADER_LEN;
    while offset <= response.len() && response.len() - offset >= 4
        invariant
            s@ == response@,
            response@.len() + 8 <= usize::MAX,
            scan_xor_mapped(s@, STUN_HEADER_LEN as int) == scan_xor_mapped(s@, offset as int),
        decreases response@.len() + 4 - offset,
    {
        let at = read_be16(response, offset);
        let al = read_be16(response, offset + 2) as usize;
        if response.len() - offset - 4 < al {
            return None;
        }
        if at == ATTR_XOR_MAPPED_ADDRESS && al >= 8 && response[offset + 5] == 0x01 {
            let port = read_be16(response, offset + 6) ^ MAGIC_COOKIE_HIGH;
            let ip: [u8; 4] = [
                response[offset + 8] ^ 0x21u8,
                response[offset + 9] ^ 0x12u8,
                response[offset + 10] ^ 0xA4u8,
                response[offset + 11] ^ 0x42u8,
            ];
            proof {
                assert(ip =~= [s@[offset + 8] ^ 0x21u8, s@[offset + 9] ^ 0x12u8, s@[offset + 10] ^ 0xA4u8, s@[offset + 11] ^ 0x42u8]);
            }
            return Some(MappedAddress { ip, port });
        }
        offset = next_attr_offset(offset + 4 + al, response.len());
    }
    None
}

/// The address a STUN response reports: its MAPPED-ADDRESS when it has
/// one, else its XOR-MAPPED-ADDRESS.
pub fn response_address(response: &[u8], transaction_id: &[u8; 12]) -> (r: Option<MappedAddress>)
    requires
        response@.len() + 8 <= usize::MAX,
    ensures
        spec_mapped_address(response@) is Some ==> r == spec_mapped_address(response@),
        spec_mapped_address(response@) is None && response@.len() >= STUN_HEADER_LEN ==> r == scan_xor_mapped(
            response@,
            STUN_HEADER_LEN as int,
        ),
        spec_mapped_address(response@) is None && response@.len() < STUN_HEADER_LEN ==> r is None,
{
    match parse_mapped_address(response) {
        Some(a) => Some(a),
        None => parse_xor_mapped_address(response, transaction_id),
    }
}

/// A random transaction id.
pub fn generate_transaction_id() -> (r: [u8; 12]) {
    random_bytes_12()
}

/// NAT type detection result.
#[derive(Debug, Clone, Copy, PartialEq, Eq, Structural)]
pub enum NatType {
    OpenInternet,
    FullCone,
    RestrictedCone,
    PortRestrictedCone,
    Symmetric,
}

/// One NAT test: the address the server saw, if any.
#[derive(Debug, Clone, Copy)]
pub struct NatTestCase {
    pub response_addr: Option<MappedAddress>,
    pub expected_same: bool,
}

impl NatType {
    /// Result given when too few tests were run.
    #[allow(non_upper_case_globals)]
    pub const Unknown: NatType = NatType::OpenInternet;

    /// Full cone when the first two tests saw the same address, symmetric
    /// otherwise; unknown with fewer than two tests.
    pub fn detect(cases: &[NatTestCase]) -> (r: NatType)
        ensures
            cases@.len() < 2 ==> r == NatType::OpenInternet,
            cases@.len() >= 2 ==> r == (if cases@[0].response_addr == cases@[1].response_addr {
                NatType::FullCone
            } else {
                NatType::Symmetric
            }),
    {
        if cases.len() < 2 {
            return NatType::Unknown;
        }
        let same = match (cases[0].response_addr, cases[1].response_addr) {
            (None, None) => true,
            (Some(a), Some(b)) => a.ip[0] == b.ip[0] && a.ip[1] == b.ip[1] && a.ip[2] == b.ip[2]
                && a.ip[3] == b.ip[3] && a.port == b.port,
            _ => false,
        };
        proof {
            if let (Some(a), Some(b)) = (cases@[0].response_addr, cases@[1].response_addr) {
                if a.ip[0] == b.ip[0] && a.ip[1] == b.ip[1] && a.ip[2] == b.ip[2] && a.ip[3] == b.ip[3] {
                    assert(a.ip =~= b.ip);
                }
            }
        }
        if same {
            NatType::FullCone
        } else {
            NatType::Symmetric
        }
    }
}

} // verus!
