//! Interpretation of the raw signed result word of a syscall.
//!
//! The kernel returns one signed 64-bit integer: a non-negative value is the
//! call's result (a byte count, a file descriptor), a negative value is the
//! negated error code.  `classify` splits that overloaded word into an
//! explicit success/failure type so callers can decide fatality themselves.

use vstd::prelude::*;

verus! {

/// The outcome of a syscall, with the sign convention made explicit:
/// `Success` carries a non-negative result value, `Failure` carries the
/// raw negative return word (whose magnitude is the kernel error code).
#[derive(Clone, Copy, Debug, PartialEq, Eq, Structural)]
pub enum SysOutcome {
    Success(u64),
    Failure(i64),
}

impl SysOutcome {
    /// A well-formed outcome: a success value fits in the non-negative half
    /// of `i64` (it came from one), and a failure word is strictly negative.
    pub open spec fn wf(self) -> bool {
        match self {
            SysOutcome::Success(v) => v <= i64::MAX,
            SysOutcome::Failure(e) => e < 0,
        }
    }

    /// True exactly when the outcome is a success.
    pub fn is_success(&self) -> (r: bool)
        ensures
            r == (self is Success),
    {
        match self {
            SysOutcome::Success(_) => true,
            SysOutcome::Failure(_) => false,
        }
    }

    /// The magnitude of the kernel error code, or `None` on success.
    pub fn error_code(&self) -> (r: Option<u64>)
        requires
            self.wf(),
        ensures
            match *self {
                SysOutcome::Success(_) => r is None,
                SysOutcome::Failure(e) => r == Some((-(e as int)) as u64),
            },
    {
        match self {
            SysOutcome::Success(_) => None,
            SysOutcome::Failure(e) => {
                if *e == i64::MIN {
                    Some(i64::MAX as u64 + 1)
                } else {
                    Some((-*e) as u64)
                }
            },
        }
    }
}

/// Splits a raw syscall return word by the kernel's sign convention:
/// non-negative is the successful result, negative is the error word,
/// both carried through unmodified.
pub fn classify(raw: i64) -> (r: SysOutcome)
    ensures
        raw >= 0 ==> r == SysOutcome::Success(raw as u64),
        raw < 0 ==> r == SysOutcome::Failure(raw),
        r.wf(),
{
    if raw >= 0 {
        SysOutcome::Success(raw as u64)
    } else {
        SysOutcome::Failure(raw)
    }
}

} // verus!
