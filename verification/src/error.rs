//! Error management.

use vstd::prelude::*;

verus! {

/// A wrapper around integer errors returned by PulseAudio. Can be converted to a `Code` variant for
/// comparison purposes if desired.
#[derive(Debug, Copy, Clone, PartialEq, Eq, Structural)]
pub struct PAErr(pub i32);

/// These represent errors returned by many of the underlying PulseAudio C functions.
///
/// Each variant has a number, its position in the list starting from zero; an error value as
/// returned by the C functions is the negated number.
#[derive(Debug, Copy, Clone, PartialEq, Eq, Structural)]
pub enum Code {
    /// No error.
    OK,
    /// Access failure.
    Access,
    /// Unknown command.
    Command,
    /// Invalid argument.
    Invalid,
    /// Entity exists.
    Exist,
    /// No such entity.
    NoEntity,
    /// Connection refused.
    ConnectionRefused,
    /// Protocol error.
    Protocol,
    /// Timeout.
    Timeout,
    /// No authentication key.
    AuthKey,
    /// Internal.
    Internal,
    /// Connection terminated.
    ConnectionTerminated,
    /// Entity killed.
    Killed,
    /// Invalid server.
    InvalidServer,
    /// Module init failed.
    ModInitFailed,
    /// Bad state.
    BadState,
    /// No data.
    NoData,
    /// Incompatible protocol version.
    Version,
    /// Data too large.
    TooLarge,
    /// Operation not supported.
    NotSupported,
    /// The error code was unknown to the client.
    Unknown,
    /// Extension does not exist.
    NoExtension,
    /// Obsolete functionality.
    Obsolete,
    /// Missing implementation.
    NotImplemented,
    /// The caller forked without calling execve() and tried to reuse the context.
    Forked,
    /// An IO error happened.
    IO,
    /// Device or resource busy.
    Busy,
}

/// The number of an error code (its position in the list, from zero).
pub open spec fn code_number(c: Code) -> i32 {
    match c {
        Code::OK => 0,
        Code::Access => 1,
        Code::Command => 2,
        Code::Invalid => 3,
        Code::Exist => 4,
        Code::NoEntity => 5,
        Code::ConnectionRefused => 6,
        Code::Protocol => 7,
        Code::Timeout => 8,
        Code::AuthKey => 9,
        Code::Internal => 10,
        Code::ConnectionTerminated => 11,
        Code::Killed => 12,
        Code::InvalidServer => 13,
        Code::ModInitFailed => 14,
        Code::BadState => 15,
        Code::NoData => 16,
        Code::Version => 17,
        Code::TooLarge => 18,
        Code::NotSupported => 19,
        Code::Unknown => 20,
        Code::NoExtension => 21,
        Code::Obsolete => 22,
        Code::NotImplemented => 23,
        Code::Forked => 24,
        Code::IO => 25,
        Code::Busy => 26,
    }
}

/// The error code with the given number, if there is one.
pub open spec fn code_of_number(n: i32) -> Option<Code> {
    match n {
        0 => Some(Code::OK),
        1 => Some(Code::Access),
        2 => Some(Code::Command),
        3 => Some(Code::Invalid),
        4 => Some(Code::Exist),
        5 => Some(Code::NoEntity),
        6 => Some(Code::ConnectionRefused),
        7 => Some(Code::Protocol),
        8 => Some(Code::Timeout),
        9 => Some(Code::AuthKey),
        10 => Some(Code::Internal),
        11 => Some(Code::ConnectionTerminated),
        12 => Some(Code::Killed),
        13 => Some(Code::InvalidServer),
        14 => Some(Code::ModInitFailed),
        15 => Some(Code::BadState),
        16 => Some(Code::NoData),
        17 => Some(Code::Version),
        18 => Some(Code::TooLarge),
        19 => Some(Code::NotSupported),
        20 => Some(Code::Unknown),
        21 => Some(Code::NoExtension),
        22 => Some(Code::Obsolete),
        23 => Some(Code::NotImplemented),
        24 => Some(Code::Forked),
        25 => Some(Code::IO),
        26 => Some(Code::Busy),
        _ => None,
    }
}

/// The error value of a `Code`: its number, negated.
pub open spec fn error_of_code(c: Code) -> PAErr {
    PAErr((-code_number(c)) as i32)
}

/// What converting an error value to a `Code` gives: the code whose number is the negated value,
/// or `Err(())` where there is none.
pub open spec fn code_from_error(e: PAErr) -> Result<Code, ()> {
    if e.0 == i32::MIN {
        Err(())
    } else {
        match code_of_number((-e.0) as i32) {
            Some(c) => Ok(c),
            None => Err(()),
        }
    }
}

/// Error code numbers are the values of the C enumeration of error codes (`pa_error_code_t`):
/// no error `0`, access failure `1`, unknown command `2`, invalid argument `3`, entity exists `4`,
/// no such entity `5`, connection refused `6`, protocol error `7`, timeout `8`, no authentication
/// key `9`, internal error `10`, connection terminated `11`, entity killed `12`, invalid server
/// `13`, module initialization failed `14`, bad state `15`, no data `16`, incompatible protocol
/// version `17`, data too large `18`, operation not supported `19`, unknown error `20`, extension
/// does not exist `21`, obsolete functionality `22`, missing implementation `23`, forked `24`,
/// input/output error `25` and device busy `26`; so an error value of the C API converts to the
/// code whose number is its negation.
pub proof fn lemma_code_numbers_are_c_values(e: PAErr, c: Code)
    ensures
        code_number(Code::OK) == 0,
        code_number(Code::Access) == 1,
        code_number(Code::Command) == 2,
        code_number(Code::Invalid) == 3,
        code_number(Code::Exist) == 4,
        code_number(Code::NoEntity) == 5,
        code_number(Code::ConnectionRefused) == 6,
        code_number(Code::Protocol) == 7,
        code_number(Code::Timeout) == 8,
        code_number(Code::AuthKey) == 9,
        code_number(Code::Internal) == 10,
        code_number(Code::ConnectionTerminated) == 11,
        code_number(Code::Killed) == 12,
        code_number(Code::InvalidServer) == 13,
        code_number(Code::ModInitFailed) == 14,
        code_number(Code::BadState) == 15,
        code_number(Code::NoData) == 16,
        code_number(Code::Version) == 17,
        code_number(Code::TooLarge) == 18,
        code_number(Code::NotSupported) == 19,
        code_number(Code::Unknown) == 20,
        code_number(Code::NoExtension) == 21,
        code_number(Code::Obsolete) == 22,
        code_number(Code::NotImplemented) == 23,
        code_number(Code::Forked) == 24,
        code_number(Code::IO) == 25,
        code_number(Code::Busy) == 26,
        code_from_error(e) == Ok::<Code, ()>(c) <==> e.0 == -code_number(c),
{
}

/// Converting a `Code` to an error value and back gives the same `Code`.
pub proof fn lemma_code_error_round_trip(c: Code)
    ensures
        code_from_error(error_of_code(c)) == Ok::<Code, ()>(c),
        error_of_code(c).0 <= 0,
{
}

/// An error value that converts to a `Code` is exactly the value that this `Code` converts back
/// to; the values that convert are those from `-26` to `0`.
pub proof fn lemma_error_code_round_trip(e: PAErr)
    ensures
        code_from_error(e) is Ok <==> -26 <= e.0 <= 0,
        code_from_error(e) matches Ok(c) ==> error_of_code(c) == e,
{
}

impl Code {
    /// The number of this code (its position in the list, from zero).
    pub fn number(self) -> (r: i32)
        ensures
            r == code_number(self),
    {
        match self {
            Code::OK => 0,
            Code::Access => 1,
            Code::Command => 2,
            Code::Invalid => 3,
            Code::Exist => 4,
            Code::NoEntity => 5,
            Code::ConnectionRefused => 6,
            Code::Protocol => 7,
            Code::Timeout => 8,
            Code::AuthKey => 9,
            Code::Internal => 10,
            Code::ConnectionTerminated => 11,
            Code::Killed => 12,
            Code::InvalidServer => 13,
            Code::ModInitFailed => 14,
            Code::BadState => 15,
            Code::NoData => 16,
            Code::Version => 17,
            Code::TooLarge => 18,
            Code::NotSupported => 19,
            Code::Unknown => 20,
            Code::NoExtension => 21,
            Code::Obsolete => 22,
            Code::NotImplemented => 23,
            Code::Forked => 24,
            Code::IO => 25,
            Code::Busy => 26,
        }
    }

    /// The code with the given number, if there is one.
    pub fn from_number(n: i32) -> (r: Option<Code>)
        ensures
            r == code_of_number(n),
    {
        match n {
            0 => Some(Code::OK),
            1 => Some(Code::Access),
            2 => Some(Code::Command),
            3 => Some(Code::Invalid),
            4 => Some(Code::Exist),
            5 => Some(Code::NoEntity),
            6 => Some(Code::ConnectionRefused),
            7 => Some(Code::Protocol),
            8 => Some(Code::Timeout),
            9 => Some(Code::AuthKey),
            10 => Some(Code::Internal),
            11 => Some(Code::ConnectionTerminated),
            12 => Some(Code::Killed),
            13 => Some(Code::InvalidServer),
            14 => Some(Code::ModInitFailed),
            15 => Some(Code::BadState),
            16 => Some(Code::NoData),
            17 => Some(Code::Version),
            18 => Some(Code::TooLarge),
            19 => Some(Code::NotSupported),
            20 => Some(Code::Unknown),
            21 => Some(Code::NoExtension),
            22 => Some(Code::Obsolete),
            23 => Some(Code::NotImplemented),
            24 => Some(Code::Forked),
            25 => Some(Code::IO),
            26 => Some(Code::Busy),
            _ => None,
        }
    }
}

impl TryFrom<PAErr> for Code {
    type Error = ();

    /// Attempts to convert the wrapped integer error value to a `Code` variant.
    ///
    /// Error values are negative, and `Code` numbers are positive: the value is negated and looked
    /// up. Returns `Err(())` if the value cannot be mapped, `i32::MIN` (whose negation does not
    /// fit) among them.
    fn try_from(e: PAErr) -> (r: Result<Code, ()>) {
        if e.0 == i32::MIN {
            return Err(());
        }
        let abs = -e.0;
        match Code::from_number(abs) {
            Some(c) => Ok(c),
            None => Err(()),
        }
    }
}

impl vstd::std_specs::convert::TryFromSpecImpl<PAErr> for Code {
    open spec fn obeys_try_from_spec() -> bool {
        true
    }

    open spec fn try_from_spec(e: PAErr) -> Result<Code, ()> {
        code_from_error(e)
    }
}

impl From<Code> for PAErr {
    /// Error values are negative, `Code` numbers are positive.
    fn from(c: Code) -> (r: Self) {
        PAErr(-c.number())
    }
}

impl vstd::std_specs::convert::FromSpecImpl<Code> for PAErr {
    open spec fn obeys_from_spec() -> bool {
        true
    }

    open spec fn from_spec(c: Code) -> PAErr {
        error_of_code(c)
    }
}

} // verus!
