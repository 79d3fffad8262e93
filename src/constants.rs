//! Protocol constants: sizes, opcodes, transfer modes and error codes.

use crate::errors::TftprsError;
use vstd::prelude::*;

verus! {

/// The largest datagram that the protocol allows.
pub const MAX_PACKET_SIZE: usize = 512;

/// The bytes of a request that are not filename or mode: the opcode and two terminators.
pub const FIXED_REQUEST_BYTES: usize = 4;

/// The header of a data packet: the opcode and the block number.
pub const FIXED_DATA_BYTES: usize = 4;

/// The payload capacity of one data packet.
pub const MAX_DATA_SIZE: usize = MAX_PACKET_SIZE - FIXED_DATA_BYTES;

/// The largest block number; a transfer never reuses a block number.
pub const MAX_BLOCK: u16 = 65535;

/// The five kinds of packet. The header of a packet starts with its opcode.
#[derive(Debug, PartialEq, Eq, Structural, Clone, Copy)]
pub enum OpCode {
    ReadRequest,
    WriteRequest,
    Data,
    Acknowledgement,
    Error,
}

/// The opcode that stands for `value` on the wire, if any.
pub open spec fn opcode_of(value: u16) -> Option<OpCode> {
    if value == 1 {
        Some(OpCode::ReadRequest)
    } else if value == 2 {
        Some(OpCode::WriteRequest)
    } else if value == 3 {
        Some(OpCode::Data)
    } else if value == 4 {
        Some(OpCode::Acknowledgement)
    } else if value == 5 {
        Some(OpCode::Error)
    } else {
        None
    }
}

impl OpCode {
    /// The wire value of the opcode.
    pub open spec fn spec_code(self) -> u16 {
        match self {
            OpCode::ReadRequest => 1,
            OpCode::WriteRequest => 2,
            OpCode::Data => 3,
            OpCode::Acknowledgement => 4,
            OpCode::Error => 5,
        }
    }

    #[verifier::when_used_as_spec(spec_code)]
    pub fn code(self) -> (r: u16)
        ensures
            r == self.spec_code(),
    {
        match self {
            OpCode::ReadRequest => 1,
            OpCode::WriteRequest => 2,
            OpCode::Data => 3,
            OpCode::Acknowledgement => 4,
            OpCode::Error => 5,
        }
    }

    /// Reads an opcode off the wire; any value but the five legal ones is a malformed packet.
    pub fn from_code(value: u16) -> (r: Result<OpCode, TftprsError>)
        ensures
            r matches Ok(op) ==> opcode_of(value) == Some(op),
            r matches Err(e) ==> opcode_of(value) is None && e == TftprsError::BadPacketReceived,
    {
        match value {
            1 => Ok(OpCode::ReadRequest),
            2 => Ok(OpCode::WriteRequest),
            3 => Ok(OpCode::Data),
            4 => Ok(OpCode::Acknowledgement),
            5 => Ok(OpCode::Error),
            _ => Err(TftprsError::BadPacketReceived),
        }
    }
}

/// The representation of a transfer. On the wire it is the string "netascii" or
/// "octet", in any combination of upper and lower case.
#[derive(Debug, Copy, Clone, Default, PartialEq, Eq, Structural)]
pub enum Mode {
    /// A host which receives netascii mode data converts it to its own format.
    Text,
    /// The 8-bit format of the machine from which the file is being transferred.
    #[default]
    Binary,
}

/// The mode string that a request carries: "NETASCII" or "OCTET".
pub open spec fn mode_name(mode: Mode) -> Seq<u8> {
    match mode {
        Mode::Text => seq![0x4Eu8, 0x45, 0x54, 0x41, 0x53, 0x43, 0x49, 0x49],
        Mode::Binary => seq![0x4Fu8, 0x43, 0x54, 0x45, 0x54],
    }
}

impl Mode {
    /// The mode string that a request carries for this mode.
    pub fn name_bytes(self) -> (r: Vec<u8>)
        ensures
            r@ == mode_name(self),
    {
        let r = match self {
            Mode::Text => vec![0x4Eu8, 0x45, 0x54, 0x41, 0x53, 0x43, 0x49, 0x49],
            Mode::Binary => vec![0x4Fu8, 0x43, 0x54, 0x45, 0x54],
        };
        assert(r@ =~= mode_name(self));
        r
    }

    /// The length of the mode string.
    pub fn name_len(self) -> (r: usize)
        ensures
            r == mode_name(self).len(),
    {
        match self {
            Mode::Text => 8,
            Mode::Binary => 5,
        }
    }
}

/// The two kinds of request: to read a file from a peer, or to write one to it.
#[derive(Debug, Copy, Clone, PartialEq, Eq, Structural)]
pub enum RequestType {
    Read,
    Write,
}

impl RequestType {
    /// The opcode of a request of this kind.
    pub open spec fn spec_opcode(self) -> OpCode {
        match self {
            RequestType::Read => OpCode::ReadRequest,
            RequestType::Write => OpCode::WriteRequest,
        }
    }

    #[verifier::when_used_as_spec(spec_opcode)]
    pub fn opcode(self) -> (r: OpCode)
        ensures
            r == self.spec_opcode(),
    {
        match self {
            RequestType::Read => OpCode::ReadRequest,
            RequestType::Write => OpCode::WriteRequest,
        }
    }
}

/// The error codes that an error packet carries.
#[derive(Debug, Copy, Clone, PartialEq, Eq, Structural)]
pub enum ErrorCode {
    Undefined,
    FileNotFound,
    AccessViolation,
    DiskFull,
    IllegalOperation,
    UnknownTransferId,
    FileAlreadyExists,
    NoSuchUser,
}

/// The error code that `value` stands for; unknown values fall back to `Undefined`.
pub open spec fn error_code_of(value: u16) -> ErrorCode {
    if value == 1 {
        ErrorCode::FileNotFound
    } else if value == 2 {
        ErrorCode::AccessViolation
    } else if value == 3 {
        ErrorCode::DiskFull
    } else if value == 4 {
        ErrorCode::IllegalOperation
    } else if value == 5 {
        ErrorCode::UnknownTransferId
    } else if value == 6 {
        ErrorCode::FileAlreadyExists
    } else if value == 7 {
        ErrorCode::NoSuchUser
    } else {
        ErrorCode::Undefined
    }
}

impl ErrorCode {
    /// The wire value of the error code.
    pub open spec fn spec_code(self) -> u16 {
        match self {
            ErrorCode::Undefined => 0,
            ErrorCode::FileNotFound => 1,
            ErrorCode::AccessViolation => 2,
            ErrorCode::DiskFull => 3,
            ErrorCode::IllegalOperation => 4,
            ErrorCode::UnknownTransferId => 5,
            ErrorCode::FileAlreadyExists => 6,
            ErrorCode::NoSuchUser => 7,
        }
    }

    #[verifier::when_used_as_spec(spec_code)]
    pub fn code(self) -> (r: u16)
        ensures
            r == self.spec_code(),
    {
        match self {
            ErrorCode::Undefined => 0,
            ErrorCode::FileNotFound => 1,
            ErrorCode::AccessViolation => 2,
            ErrorCode::DiskFull => 3,
            ErrorCode::IllegalOperation => 4,
            ErrorCode::UnknownTransferId => 5,
            ErrorCode::FileAlreadyExists => 6,
            ErrorCode::NoSuchUser => 7,
        }
    }

    /// Reads an error code off the wire.
    pub fn from_code(value: u16) -> (r: ErrorCode)
        ensures
            r == error_code_of(value),
    {
        match value {
            1 => ErrorCode::FileNotFound,
            2 => ErrorCode::AccessViolation,
            3 => ErrorCode::DiskFull,
            4 => ErrorCode::IllegalOperation,
            5 => ErrorCode::UnknownTransferId,
            6 => ErrorCode::FileAlreadyExists,
            7 => ErrorCode::NoSuchUser,
            _ => ErrorCode::Undefined,
        }
    }
}

/// Every error code reads back as itself.
pub proof fn lemma_error_code_round_trip(code: ErrorCode)
    ensures
        error_code_of(code.spec_code()) == code,
{
}

/// Every opcode reads back as itself.
pub proof fn lemma_opcode_round_trip(op: OpCode)
    ensures
        opcode_of(op.spec_code()) == Some(op),
{
}

} // verus!
