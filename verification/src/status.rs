//! Status-byte interpretation and the client's failure taxonomy.
//!
//! After every command the board answers with exactly one raw byte. The
//! mapping from byte to typed outcome is a closed table held in one place
//! (`status_outcome`) so that a protocol-revision shift is a one-place
//! edit. Any byte outside the table maps to `UnknownStatus` rather than
//! failing to decode.

use vstd::prelude::*;

verus! {

/// Every way a client operation can fail.
///
/// The first four variants are local input-validation failures, reported
/// before any byte reaches the wire. `BoardRefused` is a non-zero status
/// during the applet-creation handshake. The remaining variants mirror the
/// board's status-byte table for ordinary writes.
#[derive(Clone, Copy, Debug, PartialEq, Eq, Structural)]
pub enum InterfaceError {
    /// Applet number above the valid range at session creation.
    InvalidAppletNumber,
    /// Row index out of range in a point update.
    InvalidRowIndex,
    /// Column index out of range in a point update.
    InvalidColumnIndex,
    /// Separator write on a session whose separator kind is not Variable.
    SeparatorNotVariable,
    /// The board answered the creation handshake with a non-zero status.
    BoardRefused,
    /// Status 10: the board failed to read data from the stream.
    StreamReadFailed,
    /// Status 20: the board could not parse the stream data as UTF-8.
    NotUtf8,
    /// Status 21: the board could not parse the stream data as JSON.
    NotJson,
    /// Status 30: the command used an invalid applet number.
    BadAppletNumber,
    /// Status 31: the command targeted an applet this connection did not create.
    WrongApplet,
    /// Status 32: the command was rejected for this applet.
    CommandFailed,
    /// Status 33: an applet already existed during a create command.
    AppletExists,
    /// Status 40: invalid separator value at applet creation.
    BadSeparatorValue,
    /// Any status byte outside the table.
    UnknownStatus,
}

/// The status-byte table for ordinary write commands: byte in, typed
/// outcome out, total over all 256 byte values.
pub open spec fn status_outcome(b: u8) -> Result<(), InterfaceError> {
    if b == 0 {
        Ok(())
    } else if b == 10 {
        Err(InterfaceError::StreamReadFailed)
    } else if b == 20 {
        Err(InterfaceError::NotUtf8)
    } else if b == 21 {
        Err(InterfaceError::NotJson)
    } else if b == 30 {
        Err(InterfaceError::BadAppletNumber)
    } else if b == 31 {
        Err(InterfaceError::WrongApplet)
    } else if b == 32 {
        Err(InterfaceError::CommandFailed)
    } else if b == 33 {
        Err(InterfaceError::AppletExists)
    } else if b == 40 {
        Err(InterfaceError::BadSeparatorValue)
    } else {
        Err(InterfaceError::UnknownStatus)
    }
}

/// Map the status byte of a grid or separator write through the table.
pub fn decode_status(b: u8) -> (r: Result<(), InterfaceError>)
    ensures
        r == status_outcome(b),
{
    match b {
        0 => Ok(()),
        10 => Err(InterfaceError::StreamReadFailed),
        20 => Err(InterfaceError::NotUtf8),
        21 => Err(InterfaceError::NotJson),
        30 => Err(InterfaceError::BadAppletNumber),
        31 => Err(InterfaceError::WrongApplet),
        32 => Err(InterfaceError::CommandFailed),
        33 => Err(InterfaceError::AppletExists),
        40 => Err(InterfaceError::BadSeparatorValue),
        _ => Err(InterfaceError::UnknownStatus),
    }
}

/// The handshake's reading of the status byte: anything but success is a
/// refusal of the connection, reported distinctly from later write errors.
pub open spec fn handshake_outcome(b: u8) -> Result<(), InterfaceError> {
    if b == 0 {
        Ok(())
    } else {
        Err(InterfaceError::BoardRefused)
    }
}

/// Map the status byte of the applet-creation handshake.
pub fn decode_handshake(b: u8) -> (r: Result<(), InterfaceError>)
    ensures
        r == handshake_outcome(b),
{
    if b == 0 {
        Ok(())
    } else {
        Err(InterfaceError::BoardRefused)
    }
}

} // verus!
