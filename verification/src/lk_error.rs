use vstd::prelude::*;

verus! {

/// The status code of a successful LK kernel call.
pub const NO_ERROR: i32 = 0;

/// An error status of the LK kernel.
///
/// Each named variant stands for one of the kernel's negative status codes;
/// `Other` carries any nonzero status outside that table unchanged, so that
/// no status a kernel call returns is lost on the way through this type.
#[allow(non_camel_case_types)]
#[derive(Clone, Copy, Debug, PartialEq, Eq, Structural)]
pub enum LkError {
    ERR_GENERIC,
    ERR_NOT_FOUND,
    ERR_NOT_READY,
    ERR_NO_MSG,
    ERR_NO_MEMORY,
    ERR_ALREADY_STARTED,
    ERR_NOT_VALID,
    ERR_INVALID_ARGS,
    ERR_NOT_ENOUGH_BUFFER,
    ERR_NOT_SUSPENDED,
    ERR_OBJECT_DESTROYED,
    ERR_NOT_BLOCKED,
    ERR_TIMED_OUT,
    ERR_ALREADY_EXISTS,
    ERR_CHANNEL_CLOSED,
    ERR_OFFLINE,
    ERR_NOT_ALLOWED,
    ERR_BAD_PATH,
    ERR_ALREADY_MOUNTED,
    ERR_IO,
    ERR_NOT_DIR,
    ERR_NOT_FILE,
    ERR_RECURSE_TOO_DEEP,
    ERR_NOT_SUPPORTED,
    ERR_TOO_BIG,
    ERR_CANCELLED,
    ERR_NOT_IMPLEMENTED,
    ERR_CHECKSUM_FAIL,
    ERR_CRC_FAIL,
    ERR_CMD_UNKNOWN,
    ERR_BAD_STATE,
    ERR_BAD_LEN,
    ERR_BUSY,
    ERR_THREAD_DETACHED,
    ERR_I2C_NACK,
    ERR_ALREADY_EXPIRED,
    ERR_OUT_OF_RANGE,
    ERR_NOT_CONFIGURED,
    ERR_NOT_MOUNTED,
    ERR_FAULT,
    ERR_NO_RESOURCES,
    ERR_BAD_HANDLE,
    ERR_ACCESS_DENIED,
    ERR_PARTIAL_WRITE,
    Other(i32),
}

/// The kernel status code of each named error.
pub open spec fn named_code(e: LkError) -> i32 {
    match e {
        LkError::ERR_GENERIC => -1i32,
        LkError::ERR_NOT_FOUND => -2i32,
        LkError::ERR_NOT_READY => -3i32,
        LkError::ERR_NO_MSG => -4i32,
        LkError::ERR_NO_MEMORY => -5i32,
        LkError::ERR_ALREADY_STARTED => -6i32,
        LkError::ERR_NOT_VALID => -7i32,
        LkError::ERR_INVALID_ARGS => -8i32,
        LkError::ERR_NOT_ENOUGH_BUFFER => -9i32,
        LkError::ERR_NOT_SUSPENDED => -10i32,
        LkError::ERR_OBJECT_DESTROYED => -11i32,
        LkError::ERR_NOT_BLOCKED => -12i32,
        LkError::ERR_TIMED_OUT => -13i32,
        LkError::ERR_ALREADY_EXISTS => -14i32,
        LkError::ERR_CHANNEL_CLOSED => -15i32,
        LkError::ERR_OFFLINE => -16i32,
        LkError::ERR_NOT_ALLOWED => -17i32,
        LkError::ERR_BAD_PATH => -18i32,
        LkError::ERR_ALREADY_MOUNTED => -19i32,
        LkError::ERR_IO => -20i32,
        LkError::ERR_NOT_DIR => -21i32,
        LkError::ERR_NOT_FILE => -22i32,
        LkError::ERR_RECURSE_TOO_DEEP => -23i32,
        LkError::ERR_NOT_SUPPORTED => -24i32,
        LkError::ERR_TOO_BIG => -25i32,
        LkError::ERR_CANCELLED => -26i32,
        LkError::ERR_NOT_IMPLEMENTED => -27i32,
        LkError::ERR_CHECKSUM_FAIL => -28i32,
        LkError::ERR_CRC_FAIL => -29i32,
        LkError::ERR_CMD_UNKNOWN => -30i32,
        LkError::ERR_BAD_STATE => -31i32,
        LkError::ERR_BAD_LEN => -32i32,
        LkError::ERR_BUSY => -33i32,
        LkError::ERR_THREAD_DETACHED => -34i32,
        LkError::ERR_I2C_NACK => -35i32,
        LkError::ERR_ALREADY_EXPIRED => -36i32,
        LkError::ERR_OUT_OF_RANGE => -37i32,
        LkError::ERR_NOT_CONFIGURED => -38i32,
        LkError::ERR_NOT_MOUNTED => -39i32,
        LkError::ERR_FAULT => -40i32,
        LkError::ERR_NO_RESOURCES => -41i32,
        LkError::ERR_BAD_HANDLE => -42i32,
        LkError::ERR_ACCESS_DENIED => -43i32,
        LkError::ERR_PARTIAL_WRITE => -44i32,
        LkError::Other(c) => c,
    }
}

/// The error that stands for a nonzero kernel status code.
pub open spec fn error_of_code(c: i32) -> LkError {
    if c == -1i32 {
        LkError::ERR_GENERIC
    } else if c == -2i32 {
        LkError::ERR_NOT_FOUND
    } else if c == -3i32 {
        LkError::ERR_NOT_READY
    } else if c == -4i32 {
        LkError::ERR_NO_MSG
    } else if c == -5i32 {
        LkError::ERR_NO_MEMORY
    } else if c == -6i32 {
        LkError::ERR_ALREADY_STARTED
    } else if c == -7i32 {
        LkError::ERR_NOT_VALID
    } else if c == -8i32 {
        LkError::ERR_INVALID_ARGS
    } else if c == -9i32 {
        LkError::ERR_NOT_ENOUGH_BUFFER
    } else if c == -10i32 {
        LkError::ERR_NOT_SUSPENDED
    } else if c == -11i32 {
        LkError::ERR_OBJECT_DESTROYED
    } else if c == -12i32 {
        LkError::ERR_NOT_BLOCKED
    } else if c == -13i32 {
        LkError::ERR_TIMED_OUT
    } else if c == -14i32 {
        LkError::ERR_ALREADY_EXISTS
    } else if c == -15i32 {
        LkError::ERR_CHANNEL_CLOSED
    } else if c == -16i32 {
        LkError::ERR_OFFLINE
    } else if c == -17i32 {
        LkError::ERR_NOT_ALLOWED
    } else if c == -18i32 {
        LkError::ERR_BAD_PATH
    } else if c == -19i32 {
        LkError::ERR_ALREADY_MOUNTED
    } else if c == -20i32 {
        LkError::ERR_IO
    } else if c == -21i32 {
        LkError::ERR_NOT_DIR
    } else if c == -22i32 {
        LkError::ERR_NOT_FILE
    } else if c == -23i32 {
        LkError::ERR_RECURSE_TOO_DEEP
    } else if c == -24i32 {
        LkError::ERR_NOT_SUPPORTED
    } else if c == -25i32 {
        LkError::ERR_TOO_BIG
    } else if c == -26i32 {
        LkError::ERR_CANCELLED
    } else if c == -27i32 {
        LkError::ERR_NOT_IMPLEMENTED
    } else if c == -28i32 {
        LkError::ERR_CHECKSUM_FAIL
    } else if c == -29i32 {
        LkError::ERR_CRC_FAIL
    } else if c == -30i32 {
        LkError::ERR_CMD_UNKNOWN
    } else if c == -31i32 {
        LkError::ERR_BAD_STATE
    } else if c == -32i32 {
        LkError::ERR_BAD_LEN
    } else if c == -33i32 {
        LkError::ERR_BUSY
    } else if c == -34i32 {
        LkError::ERR_THREAD_DETACHED
    } else if c == -35i32 {
        LkError::ERR_I2C_NACK
    } else if c == -36i32 {
        LkError::ERR_ALREADY_EXPIRED
    } else if c == -37i32 {
        LkError::ERR_OUT_OF_RANGE
    } else if c == -38i32 {
        LkError::ERR_NOT_CONFIGURED
    } else if c == -39i32 {
        LkError::ERR_NOT_MOUNTED
    } else if c == -40i32 {
        LkError::ERR_FAULT
    } else if c == -41i32 {
        LkError::ERR_NO_RESOURCES
    } else if c == -42i32 {
        LkError::ERR_BAD_HANDLE
    } else if c == -43i32 {
        LkError::ERR_ACCESS_DENIED
    } else if c == -44i32 {
        LkError::ERR_PARTIAL_WRITE
    } else {
        LkError::Other(c)
    }
}

impl LkError {
    /// The kernel status code of this error (the conversion into `i32`).
    pub fn code(self) -> (r: i32)
        ensures
            r == named_code(self),
    {
        match self {
            LkError::ERR_GENERIC => -1,
            LkError::ERR_NOT_FOUND => -2,
            LkError::ERR_NOT_READY => -3,
            LkError::ERR_NO_MSG => -4,
            LkError::ERR_NO_MEMORY => -5,
            LkError::ERR_ALREADY_STARTED => -6,
            LkError::ERR_NOT_VALID => -7,
            LkError::ERR_INVALID_ARGS => -8,
            LkError::ERR_NOT_ENOUGH_BUFFER => -9,
            LkError::ERR_NOT_SUSPENDED => -10,
            LkError::ERR_OBJECT_DESTROYED => -11,
            LkError::ERR_NOT_BLOCKED => -12,
            LkError::ERR_TIMED_OUT => -13,
            LkError::ERR_ALREADY_EXISTS => -14,
            LkError::ERR_CHANNEL_CLOSED => -15,
            LkError::ERR_OFFLINE => -16,
            LkError::ERR_NOT_ALLOWED => -17,
            LkError::ERR_BAD_PATH => -18,
            LkError::ERR_ALREADY_MOUNTED => -19,
            LkError::ERR_IO => -20,
            LkError::ERR_NOT_DIR => -21,
            LkError::ERR_NOT_FILE => -22,
            LkError::ERR_RECURSE_TOO_DEEP => -23,
            LkError::ERR_NOT_SUPPORTED => -24,
            LkError::ERR_TOO_BIG => -25,
            LkError::ERR_CANCELLED => -26,
            LkError::ERR_NOT_IMPLEMENTED => -27,
            LkError::ERR_CHECKSUM_FAIL => -28,
            LkError::ERR_CRC_FAIL => -29,
            LkError::ERR_CMD_UNKNOWN => -30,
            LkError::ERR_BAD_STATE => -31,
            LkError::ERR_BAD_LEN => -32,
            LkError::ERR_BUSY => -33,
            LkError::ERR_THREAD_DETACHED => -34,
            LkError::ERR_I2C_NACK => -35,
            LkError::ERR_ALREADY_EXPIRED => -36,
            LkError::ERR_OUT_OF_RANGE => -37,
            LkError::ERR_NOT_CONFIGURED => -38,
            LkError::ERR_NOT_MOUNTED => -39,
            LkError::ERR_FAULT => -40,
            LkError::ERR_NO_RESOURCES => -41,
            LkError::ERR_BAD_HANDLE => -42,
            LkError::ERR_ACCESS_DENIED => -43,
            LkError::ERR_PARTIAL_WRITE => -44,
            LkError::Other(c) => c,
        }
    }

    /// The error for a nonzero kernel status code.
    pub fn from_code(c: i32) -> (r: LkError)
        ensures
            r == error_of_code(c),
    {
        match c {
            -1 => LkError::ERR_GENERIC,
            -2 => LkError::ERR_NOT_FOUND,
            -3 => LkError::ERR_NOT_READY,
            -4 => LkError::ERR_NO_MSG,
            -5 => LkError::ERR_NO_MEMORY,
            -6 => LkError::ERR_ALREADY_STARTED,
            -7 => LkError::ERR_NOT_VALID,
            -8 => LkError::ERR_INVALID_ARGS,
            -9 => LkError::ERR_NOT_ENOUGH_BUFFER,
            -10 => LkError::ERR_NOT_SUSPENDED,
            -11 => LkError::ERR_OBJECT_DESTROYED,
            -12 => LkError::ERR_NOT_BLOCKED,
            -13 => LkError::ERR_TIMED_OUT,
            -14 => LkError::ERR_ALREADY_EXISTS,
            -15 => LkError::ERR_CHANNEL_CLOSED,
            -16 => LkError::ERR_OFFLINE,
            -17 => LkError::ERR_NOT_ALLOWED,
            -18 => LkError::ERR_BAD_PATH,
            -19 => LkError::ERR_ALREADY_MOUNTED,
            -20 => LkError::ERR_IO,
            -21 => LkError::ERR_NOT_DIR,
            -22 => LkError::ERR_NOT_FILE,
            -23 => LkError::ERR_RECURSE_TOO_DEEP,
            -24 => LkError::ERR_NOT_SUPPORTED,
            -25 => LkError::ERR_TOO_BIG,
            -26 => LkError::ERR_CANCELLED,
            -27 => LkError::ERR_NOT_IMPLEMENTED,
            -28 => LkError::ERR_CHECKSUM_FAIL,
            -29 => LkError::ERR_CRC_FAIL,
            -30 => LkError::ERR_CMD_UNKNOWN,
            -31 => LkError::ERR_BAD_STATE,
            -32 => LkError::ERR_BAD_LEN,
            -33 => LkError::ERR_BUSY,
            -34 => LkError::ERR_THREAD_DETACHED,
            -35 => LkError::ERR_I2C_NACK,
            -36 => LkError::ERR_ALREADY_EXPIRED,
            -37 => LkError::ERR_OUT_OF_RANGE,
            -38 => LkError::ERR_NOT_CONFIGURED,
            -39 => LkError::ERR_NOT_MOUNTED,
            -40 => LkError::ERR_FAULT,
            -41 => LkError::ERR_NO_RESOURCES,
            -42 => LkError::ERR_BAD_HANDLE,
            -43 => LkError::ERR_ACCESS_DENIED,
            -44 => LkError::ERR_PARTIAL_WRITE,
            _ => LkError::Other(c),
        }
    }

    /// Turns a kernel status into a `Result`: `NO_ERROR` is success, any other
    /// status is the error that stands for it.
    pub fn from_lk(rc: i32) -> (r: Result<(), LkError>)
        ensures
            rc == NO_ERROR ==> r == Ok::<(), LkError>(()),
            rc != NO_ERROR ==> r == Err::<(), LkError>(error_of_code(rc)),
    {
        if rc == NO_ERROR {
            Ok(())
        } else {
            Err(LkError::from_code(rc))
        }
    }
}

/// Converting a nonzero status into an error and back gives the status again.
pub proof fn lemma_code_round_trip(c: i32)
    requires
        c != NO_ERROR,
    ensures
        named_code(error_of_code(c)) == c,
{
}

/// The kernel's status codes, as its `err.h` numbers them: `ERR_GENERIC` is
/// -1, and each named error after it one less, down to `ERR_PARTIAL_WRITE` at
/// -44; each of these codes reads back as its own error.
pub proof fn lemma_kernel_status_codes()
    ensures
        named_code(LkError::ERR_GENERIC) == -1i32,
        named_code(LkError::ERR_NOT_FOUND) == -2i32,
        named_code(LkError::ERR_NOT_READY) == -3i32,
        named_code(LkError::ERR_NO_MSG) == -4i32,
        named_code(LkError::ERR_NO_MEMORY) == -5i32,
        named_code(LkError::ERR_ALREADY_STARTED) == -6i32,
        named_code(LkError::ERR_NOT_VALID) == -7i32,
        named_code(LkError::ERR_INVALID_ARGS) == -8i32,
        named_code(LkError::ERR_NOT_ENOUGH_BUFFER) == -9i32,
        named_code(LkError::ERR_NOT_SUSPENDED) == -10i32,
        named_code(LkError::ERR_OBJECT_DESTROYED) == -11i32,
        named_code(LkError::ERR_NOT_BLOCKED) == -12i32,
        named_code(LkError::ERR_TIMED_OUT) == -13i32,
        named_code(LkError::ERR_ALREADY_EXISTS) == -14i32,
        named_code(LkError::ERR_CHANNEL_CLOSED) == -15i32,
        named_code(LkError::ERR_OFFLINE) == -16i32,
        named_code(LkError::ERR_NOT_ALLOWED) == -17i32,
        named_code(LkError::ERR_BAD_PATH) == -18i32,
        named_code(LkError::ERR_ALREADY_MOUNTED) == -19i32,
        named_code(LkError::ERR_IO) == -20i32,
        named_code(LkError::ERR_NOT_DIR) == -21i32,
        named_code(LkError::ERR_NOT_FILE) == -22i32,
        named_code(LkError::ERR_RECURSE_TOO_DEEP) == -23i32,
        named_code(LkError::ERR_NOT_SUPPORTED) == -24i32,
        named_code(LkError::ERR_TOO_BIG) == -25i32,
        named_code(LkError::ERR_CANCELLED) == -26i32,
        named_code(LkError::ERR_NOT_IMPLEMENTED) == -27i32,
        named_code(LkError::ERR_CHECKSUM_FAIL) == -28i32,
        named_code(LkError::ERR_CRC_FAIL) == -29i32,
        named_code(LkError::ERR_CMD_UNKNOWN) == -30i32,
        named_code(LkError::ERR_BAD_STATE) == -31i32,
        named_code(LkError::ERR_BAD_LEN) == -32i32,
        named_code(LkError::ERR_BUSY) == -33i32,
        named_code(LkError::ERR_THREAD_DETACHED) == -34i32,
        named_code(LkError::ERR_I2C_NACK) == -35i32,
        named_code(LkError::ERR_ALREADY_EXPIRED) == -36i32,
        named_code(LkError::ERR_OUT_OF_RANGE) == -37i32,
        named_code(LkError::ERR_NOT_CONFIGURED) == -38i32,
        named_code(LkError::ERR_NOT_MOUNTED) == -39i32,
        named_code(LkError::ERR_FAULT) == -40i32,
        named_code(LkError::ERR_NO_RESOURCES) == -41i32,
        named_code(LkError::ERR_BAD_HANDLE) == -42i32,
        named_code(LkError::ERR_ACCESS_DENIED) == -43i32,
        named_code(LkError::ERR_PARTIAL_WRITE) == -44i32,
        error_of_code(-1i32) == LkError::ERR_GENERIC,
        error_of_code(-2i32) == LkError::ERR_NOT_FOUND,
        error_of_code(-3i32) == LkError::ERR_NOT_READY,
        error_of_code(-4i32) == LkError::ERR_NO_MSG,
        error_of_code(-5i32) == LkError::ERR_NO_MEMORY,
        error_of_code(-6i32) == LkError::ERR_ALREADY_STARTED,
        error_of_code(-7i32) == LkError::ERR_NOT_VALID,
        error_of_code(-8i32) == LkError::ERR_INVALID_ARGS,
        error_of_code(-9i32) == LkError::ERR_NOT_ENOUGH_BUFFER,
        error_of_code(-10i32) == LkError::ERR_NOT_SUSPENDED,
        error_of_code(-11i32) == LkError::ERR_OBJECT_DESTROYED,
        error_of_code(-12i32) == LkError::ERR_NOT_BLOCKED,
        error_of_code(-13i32) == LkError::ERR_TIMED_OUT,
        error_of_code(-14i32) == LkError::ERR_ALREADY_EXISTS,
        error_of_code(-15i32) == LkError::ERR_CHANNEL_CLOSED,
        error_of_code(-16i32) == LkError::ERR_OFFLINE,
        error_of_code(-17i32) == LkError::ERR_NOT_ALLOWED,
        error_of_code(-18i32) == LkError::ERR_BAD_PATH,
        error_of_code(-19i32) == LkError::ERR_ALREADY_MOUNTED,
        error_of_code(-20i32) == LkError::ERR_IO,
        error_of_code(-21i32) == LkError::ERR_NOT_DIR,
        error_of_code(-22i32) == LkError::ERR_NOT_FILE,
        error_of_code(-23i32) == LkError::ERR_RECURSE_TOO_DEEP,
        error_of_code(-24i32) == LkError::ERR_NOT_SUPPORTED,
        error_of_code(-25i32) == LkError::ERR_TOO_BIG,
        error_of_code(-26i32) == LkError::ERR_CANCELLED,
        error_of_code(-27i32) == LkError::ERR_NOT_IMPLEMENTED,
        error_of_code(-28i32) == LkError::ERR_CHECKSUM_FAIL,
        error_of_code(-29i32) == LkError::ERR_CRC_FAIL,
        error_of_code(-30i32) == LkError::ERR_CMD_UNKNOWN,
        error_of_code(-31i32) == LkError::ERR_BAD_STATE,
        error_of_code(-32i32) == LkError::ERR_BAD_LEN,
        error_of_code(-33i32) == LkError::ERR_BUSY,
        error_of_code(-34i32) == LkError::ERR_THREAD_DETACHED,
        error_of_code(-35i32) == LkError::ERR_I2C_NACK,
        error_of_code(-36i32) == LkError::ERR_ALREADY_EXPIRED,
        error_of_code(-37i32) == LkError::ERR_OUT_OF_RANGE,
        error_of_code(-38i32) == LkError::ERR_NOT_CONFIGURED,
        error_of_code(-39i32) == LkError::ERR_NOT_MOUNTED,
        error_of_code(-40i32) == LkError::ERR_FAULT,
        error_of_code(-41i32) == LkError::ERR_NO_RESOURCES,
        error_of_code(-42i32) == LkError::ERR_BAD_HANDLE,
        error_of_code(-43i32) == LkError::ERR_ACCESS_DENIED,
        error_of_code(-44i32) == LkError::ERR_PARTIAL_WRITE,
{
}

/// Every named error has a code of its own between -44 and -1, and reads back
/// from it; any other nonzero code is carried unchanged as `Other`.
pub proof fn lemma_named_codes_distinct(e: LkError, f: LkError)
    ensures
        !(e is Other) ==> -44 <= named_code(e) <= -1 && error_of_code(named_code(e)) == e,
        !(e is Other) && !(f is Other) && e != f ==> named_code(e) != named_code(f),
        forall|c: i32| c != 0 && !(-44 <= c <= -1) ==> #[trigger] error_of_code(c) == LkError::Other(c),
{
}

} // verus!
