use horizon_pal::target::{target, PanicStrategy, RelroLevel};
use horizon_pal::error::{
    decode_error_kind, error_string, is_interrupted, unsupported, unsupported_err, ErrorKind,
    IoError, EINTR,
};
use horizon_pal::path::{is_absolute, is_sep_byte, is_verbatim_sep, parse_prefix};
use horizon_pal::status::{cvt, cvt_nz, cvt_r_step, IsMinusOne, IsNegative};

#[test]
fn error_strings() {
    assert_eq!(error_string(0), "operation successful");
    assert_eq!(error_string(5), "unknown error");
    assert_eq!(error_string(-1), "unknown error");
}

#[test]
fn error_kinds() {
    assert_eq!(decode_error_kind(EINTR), ErrorKind::Uncategorized);
    assert_eq!(IoError::Os(12).kind(), ErrorKind::Uncategorized);
    assert_eq!(IoError::Os(12).raw_os_error(), Some(12));
    assert_eq!(IoError::Simple(ErrorKind::NetworkDown).raw_os_error(), None);
    assert_eq!(IoError::Custom(ErrorKind::TimedOut, "x".to_string()).kind(), ErrorKind::TimedOut);
    assert!(is_interrupted(4));
    assert!(!is_interrupted(5));
    assert!(IoError::Os(4).is_interrupted());
    assert!(!IoError::Simple(ErrorKind::Other).is_interrupted());
}

#[test]
fn unsupported_is_an_error() {
    assert_eq!(unsupported_err().kind(), ErrorKind::Unsupported);
    assert_eq!(unsupported::<u8>(), Err(unsupported_err()));
}

#[test]
fn cvt_negative_is_os_error() {
    assert_eq!(cvt(-5i32), Err(IoError::Os(5)));
    assert_eq!(cvt(-110i64), Err(IoError::Os(110)));
    assert_eq!(cvt(-3i8), Err(IoError::Os(3)));
    assert_eq!(cvt(-4isize), Err(IoError::Os(4)));
    assert_eq!(cvt(-9i16), Err(IoError::Os(9)));
    assert_eq!(cvt(0i32), Ok(0));
    assert_eq!(cvt(42isize), Ok(42));
}

#[test]
fn sign_traits() {
    assert!((-1i32).is_minus_one());
    assert!(!(-2i64).is_minus_one());
    assert!((-2i64).is_negative());
    assert_eq!((-2i64).negate(), 2);
    assert!(!0i8.is_negative());
}

#[test]
fn cvt_nz_zero_is_success() {
    assert_eq!(cvt_nz(0), Ok(()));
    assert_eq!(cvt_nz(22), Err(IoError::Os(22)));
}

#[test]
fn cvt_r_retries_three_interrupts() {
    let results: [i32; 4] = [-EINTR, -EINTR, -EINTR, 17];
    let mut calls = 0usize;
    let outcome = loop {
        let t = results[calls];
        calls += 1;
        if let Some(r) = cvt_r_step(t) {
            break r;
        }
    };
    assert_eq!(calls - 1, 3);
    assert_eq!(outcome, Ok(17));
}

#[test]
fn cvt_r_step_passes_other_errors() {
    assert_eq!(cvt_r_step(-5i32), Some(Err(IoError::Os(5))));
    assert_eq!(cvt_r_step(-(EINTR as i64)), None);
    assert_eq!(cvt_r_step(3i64), Some(Ok(3)));
}

#[test]
fn path_predicates() {
    assert!(is_sep_byte(b'/'));
    assert!(!is_sep_byte(b'\\'));
    assert!(is_verbatim_sep(b'/'));
    assert!(!is_verbatim_sep(b':'));
    assert!(parse_prefix(b"sd:/x").is_none());
    assert!(is_absolute(b"sd:/switch/app.nro"));
    assert!(!is_absolute(b"/switch/app.nro"));
    assert!(!is_absolute(b""));
}

#[test]
fn console_target_description() {
    let t = target();
    assert_eq!(t.llvm_target, "aarch64-unknown-none");
    assert_eq!(t.pointer_width, 64);
    assert_eq!(t.panic_strategy, PanicStrategy::Abort);
    assert_eq!(t.relro_level, RelroLevel::Off);
    assert!(t.dynamic_linking && t.position_independent_executables);
    assert_eq!(t.max_atomic_width, 128);
}
