use horizon_pal::addr::{decode, encode, SockAddr, AF_INET, AF_INET6};
use horizon_pal::error::{ErrorKind, IoError};

fn invalid() -> IoError {
    IoError::SimpleMessage(ErrorKind::InvalidInput, "invalid argument")
}

#[test]
fn ipv4_layout() {
    let a = SockAddr::V4 { ip: 0x7f00_0001, port: 8080 };
    let b = encode(&a);
    assert_eq!(b, vec![16, AF_INET, 0x1f, 0x90, 127, 0, 0, 1, 0, 0, 0, 0, 0, 0, 0, 0]);
    assert_eq!(decode(&b), Ok(a));
}

#[test]
fn ipv6_layout() {
    let a = SockAddr::V6 {
        ip: 0x2001_0db8_0000_0000_0000_0000_0000_0001,
        port: 443,
        flowinfo: 0x0102_0304,
        scope_id: 7,
    };
    let b = encode(&a);
    assert_eq!(b.len(), 28);
    assert_eq!(&b[..4], &[28, AF_INET6, 0x01, 0xbb]);
    assert_eq!(&b[4..8], &[4, 3, 2, 1]);
    assert_eq!(&b[8..12], &[0x20, 0x01, 0x0d, 0xb8]);
    assert_eq!(&b[20..24], &[0, 0, 0, 1]);
    assert_eq!(&b[24..], &[7, 0, 0, 0]);
    assert_eq!(decode(&b), Ok(a));
}

#[test]
fn decode_reads_larger_storage() {
    let a = SockAddr::V4 { ip: 0xc0a8_0102, port: 1 };
    let mut b = encode(&a);
    b.resize(128, 0xee);
    assert_eq!(decode(&b), Ok(a));
}

#[test]
fn decode_rejects_bad_input() {
    assert_eq!(decode(&[]), Err(invalid()));
    assert_eq!(decode(&[16, AF_INET, 0, 80]), Err(invalid()));
    let mut b = encode(&SockAddr::V4 { ip: 1, port: 2 });
    b[1] = 99;
    assert_eq!(decode(&b), Err(invalid()));
    let v6 = encode(&SockAddr::V6 { ip: 1, port: 2, flowinfo: 0, scope_id: 0 });
    assert_eq!(decode(&v6[..27]), Err(invalid()));
}
