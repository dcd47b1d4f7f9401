//! Standard/minimal main loop implementation based on poll().
//!
//! The main loop object lives at the application's edge, where it calls the system library; what
//! each call is handed and what its raw result means is decided here.

use vstd::prelude::*;
use crate::def::Retval;
use crate::error::{PAErr, Code, error_of_code};
use crate::time::MicroSeconds;

verus! {

/// Return type for the main loop's `iterate()`.
#[derive(Debug, Copy, Clone, PartialEq, Eq, Structural)]
pub enum IterateResult {
    /// Success, with number of sources dispatched.
    Success(u32),
    /// Quit was called, with quit’s retval.
    Quit(Retval),
    /// An error occurred, with error value.
    Error(PAErr),
}

impl IterateResult {
    /// Checks if the result is a `Success` value (returns `true` if so).
    pub fn is_success(&self) -> (r: bool)
        ensures
            r == (*self is Success),
    {
        match *self {
            IterateResult::Success(_) => true,
            _ => false,
        }
    }

    /// Checks if the result is a `Quit` value (returns `true` if so).
    pub fn is_quit(&self) -> (r: bool)
        ensures
            r == (*self is Quit),
    {
        match *self {
            IterateResult::Quit(_) => true,
            _ => false,
        }
    }

    /// Checks if the result is an `Error` value (returns `true` if so).
    pub fn is_error(&self) -> (r: bool)
        ensures
            r == (*self is Error),
    {
        match *self {
            IterateResult::Error(_) => true,
            _ => false,
        }
    }

    /// Interprets what one iteration of the main loop returned: the return value `ret` and the
    /// quit value `retval`. A non-negative return is the number of sources dispatched, `-2`
    /// means quit was called, anything else is an error.
    pub fn from_query(ret: i32, retval: i32) -> (r: Self)
        ensures
            ret >= 0 ==> r == IterateResult::Success(ret as u32),
            ret == -2 ==> r == IterateResult::Quit(Retval(retval)),
            ret < 0 && ret != -2 ==> r == IterateResult::Error(PAErr(ret)),
    {
        if ret >= 0 {
            IterateResult::Success(ret as u32)
        } else if ret == -2 {
            IterateResult::Quit(Retval(retval))
        } else {
            IterateResult::Error(PAErr(ret))
        }
    }
}

/// The timeout handed to the main loop's `prepare()`: `-1` (block) for no timeout, the number of
/// microseconds where it fits in an `i32`, and the ‘too large’ error otherwise.
pub fn prepare_timeout(timeout: Option<MicroSeconds>) -> (r: Result<i32, PAErr>)
    ensures
        timeout is None ==> r == Ok::<i32, PAErr>(-1i32),
        timeout is Some && (timeout->0).0 <= i32::MAX ==> r == Ok::<i32, PAErr>(
            (timeout->0).0 as i32,
        ),
        timeout is Some && (timeout->0).0 > i32::MAX ==> r == Err::<i32, PAErr>(
            error_of_code(Code::TooLarge),
        ),
{
    match timeout {
        None => Ok(-1),
        Some(t) => if t.0 <= 0x7fff_ffffu64 {
            Ok(t.0 as i32)
        } else {
            Err(PAErr::from(Code::TooLarge))
        },
    }
}

/// Interprets what polling or dispatching returned: a non-negative count, or an error.
pub fn count_from_query(ret: i32) -> (r: Result<u32, PAErr>)
    ensures
        ret >= 0 ==> r == Ok::<u32, PAErr>(ret as u32),
        ret < 0 ==> r == Err::<u32, PAErr>(PAErr(ret)),
{
    if ret >= 0 {
        Ok(ret as u32)
    } else {
        Err(PAErr(ret))
    }
}

/// Interprets what running the main loop returned: the return value `ret` and the quit value
/// `retval`, which is handed back in either case.
pub fn run_from_query(ret: i32, retval: i32) -> (r: Result<Retval, (PAErr, Retval)>)
    ensures
        ret >= 0 ==> r == Ok::<Retval, (PAErr, Retval)>(Retval(retval)),
        ret < 0 ==> r == Err::<Retval, (PAErr, Retval)>((PAErr(ret), Retval(retval))),
{
    if ret >= 0 {
        Ok(Retval(retval))
    } else {
        Err((PAErr(ret), Retval(retval)))
    }
}

} // verus!
