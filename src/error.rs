use vstd::prelude::*;

verus! {

/// Brings an errno value to the sign convention of the engine's status codes,
/// which are always negative on failure.
pub open spec fn normalized_errno(errno: int) -> int {
    if errno < 0 {
        errno
    } else {
        -errno
    }
}

/// Whether `code` is the engine's "try again" status, given the platform's
/// `EAGAIN` value in either sign convention.
pub open spec fn is_again_code(code: int, again_errno: int) -> bool {
    code == normalized_errno(again_errno)
}

/// A status code reported by the engine.
#[derive(Debug, Clone, Copy, PartialEq, Eq)]
pub struct Error(pub i32);

impl Error {
    /// The native status code carried by this error.
    pub fn code(&self) -> (r: i32)
        ensures
            r == self.0,
    {
        self.0
    }

    /// Whether this error only means "not ready yet, try again".
    ///
    /// `again_errno` is the platform's `EAGAIN`; some platforms give it
    /// negative, others positive, and both are accepted.
    pub fn is_again(&self, again_errno: i32) -> (r: bool)
        requires
            again_errno != i32::MIN,
        ensures
            r == is_again_code(self.0 as int, again_errno as int),
    {
        let normalized: i32 = if again_errno < 0 {
            again_errno
        } else {
            -again_errno
        };
        self.0 == normalized
    }
}

/// Turns a status returned by the engine into a result: negative codes are
/// errors carrying the code, zero and positive codes are success.
pub fn check_status(ret: i32) -> (r: Result<(), Error>)
    ensures
        ret < 0 <==> r is Err,
        r is Err ==> r == Err::<(), Error>(Error(ret)),
{
    if ret < 0 {
        Err(Error(ret))
    } else {
        Ok(())
    }
}

} // verus!
