use vstd::prelude::*;
use crate::error::{interrupted, IoError};

verus! {

/// Integer return values where `-1` marks failure.
pub trait IsMinusOne {
    spec fn spec_is_minus_one(&self) -> bool;

    fn is_minus_one(&self) -> (r: bool)
        ensures
            r == self.spec_is_minus_one(),
    ;
}

impl IsMinusOne for i8 {
    open spec fn spec_is_minus_one(&self) -> bool {
        *self == -1
    }

    fn is_minus_one(&self) -> (r: bool) {
        *self == -1
    }
}

impl IsMinusOne for i16 {
    open spec fn spec_is_minus_one(&self) -> bool {
        *self == -1
    }

    fn is_minus_one(&self) -> (r: bool) {
        *self == -1
    }
}

impl IsMinusOne for i32 {
    open spec fn spec_is_minus_one(&self) -> bool {
        *self == -1
    }

    fn is_minus_one(&self) -> (r: bool) {
        *self == -1
    }
}

impl IsMinusOne for i64 {
    open spec fn spec_is_minus_one(&self) -> bool {
        *self == -1
    }

    fn is_minus_one(&self) -> (r: bool) {
        *self == -1
    }
}

impl IsMinusOne for isize {
    open spec fn spec_is_minus_one(&self) -> bool {
        *self == -1
    }

    fn is_minus_one(&self) -> (r: bool) {
        *self == -1
    }
}

/// Signed integer return values where a negative value is the negated OS
/// error code.
pub trait IsNegative: Sized {
    spec fn spec_value(&self) -> int;

    fn is_negative(&self) -> (r: bool)
        ensures
            r == (self.spec_value() < 0),
    ;

    /// The error code that a negative value carries.
    fn negate(&self) -> (r: i32)
        requires
            self.spec_value() < 0,
            -self.spec_value() <= i32::MAX,
        ensures
            r == -self.spec_value(),
    ;
}

impl IsNegative for i8 {
    open spec fn spec_value(&self) -> int {
        *self as int
    }

    fn is_negative(&self) -> (r: bool) {
        *self < 0
    }

    fn negate(&self) -> (r: i32) {
        (-(*self as i64)) as i32
    }
}

impl IsNegative for i16 {
    open spec fn spec_value(&self) -> int {
        *self as int
    }

    fn is_negative(&self) -> (r: bool) {
        *self < 0
    }

    fn negate(&self) -> (r: i32) {
        (-(*self as i64)) as i32
    }
}

impl IsNegative for i32 {
    open spec fn spec_value(&self) -> int {
        *self as int
    }

    fn is_negative(&self) -> (r: bool) {
        *self < 0
    }

    fn negate(&self) -> (r: i32) {
        -*self
    }
}

impl IsNegative for i64 {
    open spec fn spec_value(&self) -> int {
        *self as int
    }

    fn is_negative(&self) -> (r: bool) {
        *self < 0
    }

    fn negate(&self) -> (r: i32) {
        (-(*self as i128)) as i32
    }
}

impl IsNegative for isize {
    open spec fn spec_value(&self) -> int {
        *self as int
    }

    fn is_negative(&self) -> (r: bool) {
        *self < 0
    }

    fn negate(&self) -> (r: i32) {
        (-(*self as i128)) as i32
    }
}

/// What `cvt` makes of the return value `t`.
pub open spec fn cvt_spec<T: IsNegative>(t: T) -> Result<T, IoError> {
    if t.spec_value() < 0 {
        Err(IoError::Os((-t.spec_value()) as i32))
    } else {
        Ok(t)
    }
}

/// A negative return value fails with the OS error it carries; any other
/// passes through.
pub fn cvt<T: IsNegative>(t: T) -> (r: Result<T, IoError>)
    requires
        -t.spec_value() <= i32::MAX,
    ensures
        r == cvt_spec(t),
{
    if t.is_negative() {
        Err(IoError::from_raw_os_error(t.negate()))
    } else {
        Ok(t)
    }
}

/// One round of the retry-on-interrupt policy: `None` where `t` reports an
/// interrupted call and the call is to be made again, and otherwise the
/// outcome `cvt` gives.
pub fn cvt_r_step<T: IsNegative>(t: T) -> (r: Option<Result<T, IoError>>)
    requires
        -t.spec_value() <= i32::MAX,
    ensures
        r is None <==> (cvt_spec(t) matches Err(e) && interrupted(e)),
        r matches Some(x) ==> x == cvt_spec(t),
{
    let res = cvt(t);
    match res {
        Err(e) => {
            if e.is_interrupted() {
                None
            } else {
                Some(Err(e))
            }
        },
        Ok(v) => Some(Ok(v)),
    }
}

/// Zero is success and any other value is a raw OS error code.
pub fn cvt_nz(error: i32) -> (r: Result<(), IoError>)
    ensures
        error == 0 ==> r == Ok::<(), IoError>(()),
        error != 0 ==> r == Err::<(), IoError>(IoError::Os(error)),
{
    if error == 0 {
        Ok(())
    } else {
        Err(IoError::from_raw_os_error(error))
    }
}

} // verus!
