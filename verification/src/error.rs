//! What can go wrong with a device.

use vstd::prelude::*;

verus! {

/// Why identifying the namespace failed.
#[derive(Clone, Copy, Debug, PartialEq, Eq, Structural)]
pub enum IdentifyFault {
    /// A control request failed with this errno.
    Request(u32),
    /// The device reported a block size that this machine cannot express.
    Geometry,
}

/// Why a transfer was turned down before any command was built.
#[derive(Clone, Copy, Debug, PartialEq, Eq, Structural)]
pub enum RequestFault {
    /// The buffer is empty.
    ZeroLength,
    /// The offset or the length is no multiple of the logical block size.
    Misaligned,
    /// The length does not fit the command's 32-bit length field.
    TooLong,
}

/// A failure of the device or of a request to it.
#[derive(Clone, Copy, Debug, PartialEq, Eq, Structural)]
pub enum DeviceError {
    /// The device could not be opened; the errno says why.
    OpenFailed(u32),
    /// The namespace could not be identified.
    IdentifyFailed(IdentifyFault),
    /// A data-path command completed with this errno.
    IoFailed(u32),
    /// The transfer was not attempted.
    InvalidRequest(RequestFault),
}

/// The character of the decimal digit `d`.
pub open spec fn digit(d: nat) -> char {
    if d == 0 {
        '0'
    } else if d == 1 {
        '1'
    } else if d == 2 {
        '2'
    } else if d == 3 {
        '3'
    } else if d == 4 {
        '4'
    } else if d == 5 {
        '5'
    } else if d == 6 {
        '6'
    } else if d == 7 {
        '7'
    } else if d == 8 {
        '8'
    } else {
        '9'
    }
}

/// `n` in decimal, without leading zeros.
pub open spec fn decimal(n: nat) -> Seq<char>
    decreases n,
{
    if n < 10 {
        seq![digit(n)]
    } else {
        decimal(n / 10).push(digit(n % 10))
    }
}

/// The one-character string of the decimal digit `d`.
fn digit_str(d: u32) -> (s: &'static str)
    requires
        d < 10,
    ensures
        s@ == seq![digit(d as nat)],
{
    proof {
        reveal_strlit("0");
        reveal_strlit("1");
        reveal_strlit("2");
        reveal_strlit("3");
        reveal_strlit("4");
        reveal_strlit("5");
        reveal_strlit("6");
        reveal_strlit("7");
        reveal_strlit("8");
        reveal_strlit("9");
    }
    let s = if d == 0 {
        "0"
    } else if d == 1 {
        "1"
    } else if d == 2 {
        "2"
    } else if d == 3 {
        "3"
    } else if d == 4 {
        "4"
    } else if d == 5 {
        "5"
    } else if d == 6 {
        "6"
    } else if d == 7 {
        "7"
    } else if d == 8 {
        "8"
    } else {
        "9"
    };
    assert(s@ =~= seq![digit(d as nat)]);
    s
}

/// Appends `n` in decimal to `text`.
fn push_decimal(text: &mut String, n: u32)
    ensures
        final(text)@ == old(text)@ + decimal(n as nat),
    decreases n,
{
    if n >= 10 {
        push_decimal(text, n / 10);
    }
    text.append(digit_str(n % 10));
    assert(text@ =~= old(text)@ + decimal(n as nat));
}

impl DeviceError {
    /// The error in words.
    pub open spec fn spec_message(self) -> Seq<char> {
        match self {
            DeviceError::OpenFailed(errno) => "open failed, errno "@ + decimal(errno as nat),
            DeviceError::IdentifyFailed(IdentifyFault::Request(errno)) => "identify failed, errno "@
                + decimal(errno as nat),
            DeviceError::IdentifyFailed(IdentifyFault::Geometry) =>
                "identify failed, block size out of range"@,
            DeviceError::IoFailed(errno) => "I/O error, errno "@ + decimal(errno as nat),
            DeviceError::InvalidRequest(RequestFault::ZeroLength) =>
                "invalid request, empty buffer"@,
            DeviceError::InvalidRequest(RequestFault::Misaligned) =>
                "invalid request, not block aligned"@,
            DeviceError::InvalidRequest(RequestFault::TooLong) => "invalid request, too long"@,
        }
    }

    /// The error in words.
    pub fn message(&self) -> (text: String)
        ensures
            text@ == self.spec_message(),
    {
        match self {
            DeviceError::OpenFailed(errno) => {
                let mut text = String::from_str("open failed, errno ");
                push_decimal(&mut text, *errno);
                text
            },
            DeviceError::IdentifyFailed(IdentifyFault::Request(errno)) => {
                let mut text = String::from_str("identify failed, errno ");
                push_decimal(&mut text, *errno);
                text
            },
            DeviceError::IdentifyFailed(IdentifyFault::Geometry) => String::from_str(
                "identify failed, block size out of range",
            ),
            DeviceError::IoFailed(errno) => {
                let mut text = String::from_str("I/O error, errno ");
                push_decimal(&mut text, *errno);
                text
            },
            DeviceError::InvalidRequest(RequestFault::ZeroLength) => String::from_str(
                "invalid request, empty buffer",
            ),
            DeviceError::InvalidRequest(RequestFault::Misaligned) => String::from_str(
                "invalid request, not block aligned",
            ),
            DeviceError::InvalidRequest(RequestFault::TooLong) => String::from_str(
                "invalid request, too long",
            ),
        }
    }
}

} // verus!
