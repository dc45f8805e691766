use vstd::prelude::*;
use crate::error::{ErrorKind, IoError};

verus! {

/// Address family of IPv4 on this platform.
pub const AF_INET: u8 = 2;

/// Address family of IPv6 on this platform.
pub const AF_INET6: u8 = 24;

/// Size of the OS form of an IPv4 endpoint.
pub const SOCKADDR_IN_LEN: u8 = 16;

/// Size of the OS form of an IPv6 endpoint.
pub const SOCKADDR_IN6_LEN: u8 = 28;

/// Both families use the platform's BSD-style layout: a length byte at
/// offset 0 and the family byte at offset 1, as its `sockaddr`,
/// `sockaddr_storage` and `sockaddr_in` declare. Reading the family at
/// offset 1 is what the generic storage form requires of every address.
///
/// An IPv4 or IPv6 endpoint. Addresses are held as the integer whose
/// big-endian bytes are the address; the IPv6 flow label and scope are in
/// host order.
#[derive(Clone, Copy, Debug, PartialEq, Eq, Structural, Hash)]
pub enum SockAddr {
    V4 { ip: u32, port: u16 },
    V6 { ip: u128, port: u16, flowinfo: u32, scope_id: u32 },
}

pub open spec fn be16(x: u16) -> Seq<u8> {
    seq![((x >> 8u16) & 0xff) as u8, (x & 0xff) as u8]
}

pub open spec fn be32(x: u32) -> Seq<u8> {
    seq![
        ((x >> 24u32) & 0xff) as u8,
        ((x >> 16u32) & 0xff) as u8,
        ((x >> 8u32) & 0xff) as u8,
        (x & 0xff) as u8,
    ]
}

/// The host (little-endian) bytes of `x`.
pub open spec fn le32(x: u32) -> Seq<u8> {
    seq![
        (x & 0xff) as u8,
        ((x >> 8u32) & 0xff) as u8,
        ((x >> 16u32) & 0xff) as u8,
        ((x >> 24u32) & 0xff) as u8,
    ]
}

pub open spec fn be128(x: u128) -> Seq<u8> {
    be32((x >> 96u128) as u32) + be32((x >> 64u128) as u32) + be32((x >> 32u128) as u32) + be32(
        x as u32,
    )
}

/// The OS form of `a`: length, family, port, address and, for IPv6, flow
/// label and scope, with IPv4 padded by eight zero bytes.
pub open spec fn encode_spec(a: SockAddr) -> Seq<u8> {
    match a {
        SockAddr::V4 { ip, port } => seq![SOCKADDR_IN_LEN, AF_INET] + be16(port) + be32(ip) + seq![
            0u8,
            0u8,
            0u8,
            0u8,
            0u8,
            0u8,
            0u8,
            0u8,
        ],
        SockAddr::V6 { ip, port, flowinfo, scope_id } => seq![SOCKADDR_IN6_LEN, AF_INET6] + be16(
            port,
        ) + le32(flowinfo) + be128(ip) + le32(scope_id),
    }
}

pub open spec fn from_be16(b: Seq<u8>, i: int) -> u16 {
    ((b[i] as u16) << 8u16) | (b[i + 1] as u16)
}

pub open spec fn from_be32(b: Seq<u8>, i: int) -> u32 {
    ((b[i] as u32) << 24u32) | ((b[i + 1] as u32) << 16u32) | ((b[i + 2] as u32) << 8u32) | (b[i
        + 3] as u32)
}

pub open spec fn from_le32(b: Seq<u8>, i: int) -> u32 {
    ((b[i + 3] as u32) << 24u32) | ((b[i + 2] as u32) << 16u32) | ((b[i + 1] as u32) << 8u32) | (b[i] as u32)
}

pub open spec fn from_be128(b: Seq<u8>, i: int) -> u128 {
    ((from_be32(b, i) as u128) << 96u128) | ((from_be32(b, i + 4) as u128) << 64u128) | ((from_be32(
        b,
        i + 8,
    ) as u128) << 32u128) | (from_be32(b, i + 12) as u128)
}

/// The error for bytes that hold no endpoint of a known family.
pub open spec fn invalid_address() -> IoError {
    IoError::SimpleMessage(ErrorKind::InvalidInput, "invalid argument")
}

/// The endpoint that the OS form `b` holds, read by its family byte.
pub open spec fn decode_spec(b: Seq<u8>) -> Result<SockAddr, IoError> {
    if b.len() >= SOCKADDR_IN_LEN && b[1] == AF_INET {
        Ok(SockAddr::V4 { ip: from_be32(b, 4), port: from_be16(b, 2) })
    } else if b.len() >= SOCKADDR_IN6_LEN && b[1] == AF_INET6 {
        Ok(
            SockAddr::V6 {
                ip: from_be128(b, 8),
                port: from_be16(b, 2),
                flowinfo: from_le32(b, 4),
                scope_id: from_le32(b, 24),
            },
        )
    } else {
        Err(invalid_address())
    }
}

fn push_be32(out: &mut Vec<u8>, x: u32)
    ensures
        final(out)@ == old(out)@ + be32(x),
{
    out.push(((x >> 24u32) & 0xff) as u8);
    out.push(((x >> 16u32) & 0xff) as u8);
    out.push(((x >> 8u32) & 0xff) as u8);
    out.push((x & 0xff) as u8);
    assert(final(out)@ =~= old(out)@ + be32(x));
}

fn push_le32(out: &mut Vec<u8>, x: u32)
    ensures
        final(out)@ == old(out)@ + le32(x),
{
    out.push((x & 0xff) as u8);
    out.push(((x >> 8u32) & 0xff) as u8);
    out.push(((x >> 16u32) & 0xff) as u8);
    out.push(((x >> 24u32) & 0xff) as u8);
    assert(final(out)@ =~= old(out)@ + le32(x));
}

/// The OS form of `a`.
pub fn encode(a: &SockAddr) -> (r: Vec<u8>)
    ensures
        r@ == encode_spec(*a),
{
    let mut out: Vec<u8> = Vec::new();
    match *a {
        SockAddr::V4 { ip, port } => {
            out.push(SOCKADDR_IN_LEN);
            out.push(AF_INET);
            out.push(((port >> 8u16) & 0xff) as u8);
            out.push((port & 0xff) as u8);
            push_be32(&mut out, ip);
            let mut i: usize = 0;
            while i < 8
                invariant
                    i <= 8,
                    out@ =~= seq![SOCKADDR_IN_LEN, AF_INET] + be16(port) + be32(ip) + Seq::new(
                        i as nat,
                        |j: int| 0u8,
                    ),
                decreases 8 - i,
            {
                out.push(0u8);
                i = i + 1;
            }
            assert(out@ =~= encode_spec(*a));
        },
        SockAddr::V6 { ip, port, flowinfo, scope_id } => {
            out.push(SOCKADDR_IN6_LEN);
            out.push(AF_INET6);
            out.push(((port >> 8u16) & 0xff) as u8);
            out.push((port & 0xff) as u8);
            push_le32(&mut out, flowinfo);
            push_be32(&mut out, (ip >> 96u128) as u32);
            push_be32(&mut out, (ip >> 64u128) as u32);
            push_be32(&mut out, (ip >> 32u128) as u32);
            push_be32(&mut out, ip as u32);
            push_le32(&mut out, scope_id);
            assert(out@ =~= encode_spec(*a));
        },
    }
    out
}

fn read_be32(b: &[u8], i: usize) -> (r: u32)
    requires
        i + 4 <= b@.len(),
    ensures
        r == from_be32(b@, i as int),
{
    let _n = b.len();
    ((b[i] as u32) << 24u32) | ((b[i + 1] as u32) << 16u32) | ((b[i + 2] as u32) << 8u32) | (b[i
        + 3] as u32)
}

fn read_le32(b: &[u8], i: usize) -> (r: u32)
    requires
        i + 4 <= b@.len(),
    ensures
        r == from_le32(b@, i as int),
{
    let _n = b.len();
    ((b[i + 3] as u32) << 24u32) | ((b[i + 2] as u32) << 16u32) | ((b[i + 1] as u32) << 8u32) | (
    b[i] as u32)
}

/// The endpoint that the OS form `b` holds; bytes too short for their
/// family, or of another family, are invalid.
pub fn decode(b: &[u8]) -> (r: Result<SockAddr, IoError>)
    ensures
        r == decode_spec(b@),
{
    let n = b.len();
    if n >= SOCKADDR_IN_LEN as usize && b[1] == AF_INET {
        let port: u16 = ((b[2] as u16) << 8u16) | (b[3] as u16);
        Ok(SockAddr::V4 { ip: read_be32(b, 4), port })
    } else if n >= SOCKADDR_IN6_LEN as usize && b[1] == AF_INET6 {
        let port: u16 = ((b[2] as u16) << 8u16) | (b[3] as u16);
        let ip: u128 = ((read_be32(b, 8) as u128) << 96u128) | ((read_be32(b, 12) as u128)
            << 64u128) | ((read_be32(b, 16) as u128) << 32u128) | (read_be32(b, 20) as u128);
        Ok(
            SockAddr::V6 {
                ip,
                port,
                flowinfo: read_le32(b, 4),
                scope_id: read_le32(b, 24),
            },
        )
    } else {
        Err(IoError::SimpleMessage(ErrorKind::InvalidInput, "invalid argument"))
    }
}

proof fn lemma_be16(b: Seq<u8>, i: int, x: u16)
    requires
        0 <= i,
        i + 2 <= b.len(),
        b[i] == be16(x)[0],
        b[i + 1] == be16(x)[1],
    ensures
        from_be16(b, i) == x,
{
    assert(((((x >> 8u16) & 0xff) as u8) as u16) << 8u16 | (((x & 0xff) as u8) as u16) == x)
        by (bit_vector);
}

proof fn lemma_be32(b: Seq<u8>, i: int, x: u32)
    requires
        0 <= i,
        i + 4 <= b.len(),
        forall|k: int| 0 <= k < 4 ==> b[i + k] == #[trigger] be32(x)[k],
    ensures
        from_be32(b, i) == x,
{
    assert(b[i] == be32(x)[0]);
    assert(b[i + 1] == be32(x)[1]);
    assert(b[i + 2] == be32(x)[2]);
    assert(b[i + 3] == be32(x)[3]);
    assert(((((x >> 24u32) & 0xff) as u8) as u32) << 24u32 | ((((x >> 16u32) & 0xff) as u8) as u32)
        << 16u32 | ((((x >> 8u32) & 0xff) as u8) as u32) << 8u32 | (((x & 0xff) as u8) as u32) == x)
        by (bit_vector);
}

proof fn lemma_le32(b: Seq<u8>, i: int, x: u32)
    requires
        0 <= i,
        i + 4 <= b.len(),
        forall|k: int| 0 <= k < 4 ==> b[i + k] == #[trigger] le32(x)[k],
    ensures
        from_le32(b, i) == x,
{
    assert(b[i] == le32(x)[0]);
    assert(b[i + 1] == le32(x)[1]);
    assert(b[i + 2] == le32(x)[2]);
    assert(b[i + 3] == le32(x)[3]);
    assert(((((x >> 24u32) & 0xff) as u8) as u32) << 24u32 | ((((x >> 16u32) & 0xff) as u8) as u32)
        << 16u32 | ((((x >> 8u32) & 0xff) as u8) as u32) << 8u32 | (((x & 0xff) as u8) as u32) == x)
        by (bit_vector);
}

proof fn lemma_be128(b: Seq<u8>, i: int, x: u128)
    requires
        0 <= i,
        i + 16 <= b.len(),
        forall|k: int| 0 <= k < 16 ==> b[i + k] == #[trigger] be128(x)[k],
    ensures
        from_be128(b, i) == x,
{
    let w0 = (x >> 96u128) as u32;
    let w1 = (x >> 64u128) as u32;
    let w2 = (x >> 32u128) as u32;
    let w3 = x as u32;
    assert forall|k: int| 0 <= k < 4 implies b[i + k] == #[trigger] be32(w0)[k] by {
        assert(b[i + k] == be128(x)[k]);
    }
    assert forall|k: int| 0 <= k < 4 implies b[i + 4 + k] == #[trigger] be32(w1)[k] by {
        assert(b[i + (4 + k)] == be128(x)[4 + k]);
    }
    assert forall|k: int| 0 <= k < 4 implies b[i + 8 + k] == #[trigger] be32(w2)[k] by {
        assert(b[i + (8 + k)] == be128(x)[8 + k]);
    }
    assert forall|k: int| 0 <= k < 4 implies b[i + 12 + k] == #[trigger] be32(w3)[k] by {
        assert(b[i + (12 + k)] == be128(x)[12 + k]);
    }
    lemma_be32(b, i, w0);
    lemma_be32(b, i + 4, w1);
    lemma_be32(b, i + 8, w2);
    lemma_be32(b, i + 12, w3);
    assert(((((x >> 96u128) as u32) as u128) << 96u128) | ((((x >> 64u128) as u32) as u128)
        << 64u128) | ((((x >> 32u128) as u32) as u128) << 32u128) | ((x as u32) as u128) == x)
        by (bit_vector);
}

/// Decoding the OS form of an endpoint gives back the endpoint.
pub proof fn lemma_decode_encode(a: SockAddr)
    ensures
        decode_spec(encode_spec(a)) == Ok::<SockAddr, IoError>(a),
{
    let b = encode_spec(a);
    match a {
        SockAddr::V4 { ip, port } => {
            assert(b.len() == 16);
            lemma_be16(b, 2, port);
            assert forall|k: int| 0 <= k < 4 implies b[4 + k] == #[trigger] be32(ip)[k] by {}
            lemma_be32(b, 4, ip);
        },
        SockAddr::V6 { ip, port, flowinfo, scope_id } => {
            assert(b.len() == 28);
            lemma_be16(b, 2, port);
            assert forall|k: int| 0 <= k < 4 implies b[4 + k] == #[trigger] le32(flowinfo)[k] by {}
            lemma_le32(b, 4, flowinfo);
            assert forall|k: int| 0 <= k < 16 implies b[8 + k] == #[trigger] be128(ip)[k] by {}
            lemma_be128(b, 8, ip);
            assert forall|k: int| 0 <= k < 4 implies b[24 + k] == #[trigger] le32(scope_id)[k] by {}
            lemma_le32(b, 24, scope_id);
        },
    }
}

} // verus!
