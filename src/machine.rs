//! The transfer engine: a state machine that drives one read or write transfer.

use crate::constants::ErrorCode;
use crate::constants::Mode;
use crate::constants::OpCode;
use crate::constants::RequestType;
use crate::constants::FIXED_DATA_BYTES;
use crate::constants::MAX_BLOCK;
use crate::constants::MAX_DATA_SIZE;
use crate::constants::MAX_PACKET_SIZE;
use crate::errors::TftprsError;
use crate::serial::ack_from_wire;
use crate::serial::ack_wire;
use crate::serial::block_offset;
use crate::serial::data_from_wire;
use crate::serial::data_wire;
use crate::serial::decode_ack;
use crate::serial::decode_data;
use crate::serial::decode_opcode;
use crate::serial::decode_request;
use crate::serial::error_wire;
use crate::serial::field16;
use crate::serial::holds_prefix;
use crate::serial::lemma_nothing_written;
use crate::serial::packet_opcode;
use crate::serial::read_u16;
use crate::serial::request_fits;
use crate::serial::request_from_wire;
use crate::serial::request_wire;
use crate::serial::text_bytes;
use crate::serial::Ack;
use crate::serial::Data;
use crate::serial::ErrorResponse;
use crate::serial::Request;
use vstd::prelude::*;

verus! {

/// The largest file that a transfer can carry: every block number once, each block full.
pub const MAX_FILE_SIZE: usize = 65535 * MAX_DATA_SIZE;

/// The message of an error packet when the caller gives none.
pub const UNKNOWN_ERROR: &'static str = "Unknown error";

/// The state of the engine, as the contracts see it.
pub struct EngineState {
    /// `Read`: expects data and sends acknowledgements; `Write`: the other way round.
    pub role: Option<RequestType>,
    /// The block number that the next accepted packet must carry.
    pub block: u16,
    /// The representation of the transfer.
    pub mode: Mode,
    /// The contents of the file being sent.
    pub source: Option<Seq<u8>>,
    /// The contents of the file being filled.
    pub sink: Option<Seq<u8>>,
}

/// The state after a reset.
pub open spec fn idle_state(mode: Mode) -> EngineState {
    EngineState { role: None, block: 0, mode, source: None, sink: None }
}

/// The local role that answers a peer's request: a read request makes this side the writer.
pub open spec fn answering_role(kind: RequestType) -> RequestType {
    match kind {
        RequestType::Read => RequestType::Write,
        RequestType::Write => RequestType::Read,
    }
}

/// What a writer does with a received acknowledgement: on the expected block
/// it moves to the next block and sends it, or ends the transfer when the file
/// is exhausted or the block numbers are.
pub open spec fn ack_step(s: EngineState, b: Seq<u8>, length: int) -> (
    EngineState,
    Result<Seq<u8>, TftprsError>,
) {
    match ack_from_wire(b, length) {
        None => (s, Err(TftprsError::BadPacketReceived)),
        Some(k) => if k != s.block {
            (s, Err(TftprsError::BadPacketReceived))
        } else if s.source is None {
            (s, Err(TftprsError::NoFile))
        } else if k == MAX_BLOCK || block_offset((k + 1) as u16) > s.source->0.len() {
            (idle_state(s.mode), Ok(seq![]))
        } else {
            (
                EngineState { block: (k + 1) as u16, ..s },
                Ok(data_wire((k + 1) as u16, s.source->0)),
            )
        },
    }
}

/// The payload of a data packet of `length` bytes.
pub open spec fn payload(b: Seq<u8>, length: int) -> Seq<u8> {
    b.subrange(4, length)
}

/// What a reader does with a received data packet: on the expected block it
/// appends the payload and acknowledges the block; a short block, or the last
/// block number, ends the transfer.
pub open spec fn data_step(s: EngineState, b: Seq<u8>, length: int) -> (
    EngineState,
    Result<Seq<u8>, TftprsError>,
) {
    match data_from_wire(b, length) {
        None => (s, Err(TftprsError::BadPacketReceived)),
        Some((k, n)) => if k != s.block {
            (s, Err(TftprsError::BadPacketReceived))
        } else if s.sink is None {
            (s, Err(TftprsError::NoFile))
        } else if n < MAX_DATA_SIZE || k == MAX_BLOCK {
            (idle_state(s.mode), Ok(ack_wire(k)))
        } else {
            (
                EngineState {
                    block: (k + 1) as u16,
                    sink: Some(s.sink->0 + payload(b, length)),
                    ..s
                },
                Ok(ack_wire(k)),
            )
        },
    }
}

/// One step of the engine on a received packet of `length` bytes: the next
/// state, and either the packet to send (empty: send nothing) or the error
/// that rejects the packet, which leaves the state as it was.
pub open spec fn step(s: EngineState, b: Seq<u8>, length: int) -> (
    EngineState,
    Result<Seq<u8>, TftprsError>,
) {
    if s.role is None {
        (s, Err(TftprsError::NoConnection))
    } else if length > MAX_PACKET_SIZE {
        (idle_state(s.mode), Ok(error_wire(ErrorCode::IllegalOperation, UNKNOWN_ERROR@)))
    } else {
        match packet_opcode(b) {
            None => (s, Err(TftprsError::BadPacketReceived)),
            Some(OpCode::Error) => (idle_state(s.mode), Ok(seq![])),
            Some(OpCode::Acknowledgement) => if s.role == Some(RequestType::Write) {
                ack_step(s, b, length)
            } else {
                (s, Err(TftprsError::Busy))
            },
            Some(OpCode::Data) => if s.role == Some(RequestType::Read) {
                data_step(s, b, length)
            } else {
                (s, Err(TftprsError::Busy))
            },
            _ => (s, Err(TftprsError::Busy)),
        }
    }
}

/// What the file being filled holds after a step: an accepted data packet
/// appends its payload.
pub open spec fn sink_after(s: EngineState, b: Seq<u8>, length: int) -> Seq<u8> {
    let held = match s.sink {
        Some(c) => c,
        None => seq![],
    };
    if s.role == Some(RequestType::Read) && length <= MAX_PACKET_SIZE && packet_opcode(b) == Some(
        OpCode::Data,
    ) && step(s, b, length).1 is Ok {
        held + payload(b, length)
    } else {
        held
    }
}

/// What an idle engine does with a packet that may be a request from a peer:
/// it takes the role that answers the request and the mode that the request
/// names, and yields the filename.
pub open spec fn listen_step(s: EngineState, b: Seq<u8>) -> (
    EngineState,
    Result<Seq<char>, TftprsError>,
) {
    if s.role is Some {
        (s, Err(TftprsError::Busy))
    } else {
        match packet_opcode(b) {
            None => (s, Err(TftprsError::BadPacketReceived)),
            Some(OpCode::ReadRequest) | Some(OpCode::WriteRequest) => match request_from_wire(b) {
                None => (s, Err(TftprsError::BadPacketReceived)),
                Some((kind, name, mode)) => (
                    EngineState { role: Some(answering_role(kind)), mode, ..s },
                    Ok(name),
                ),
            },
            _ => (s, Err(TftprsError::NoConnection)),
        }
    }
}

/// The message that an error packet sent by the caller carries.
pub open spec fn error_text(message: Option<String>) -> Seq<char> {
    match message {
        Some(m) => m@,
        None => UNKNOWN_ERROR@,
    }
}

/// This machine is the transfer engine for the protocol. It initiates
/// transfers, answers requests from a peer, and turns each received packet
/// into the next packet to send.
///
/// It is synchronous and network-agnostic: the caller performs the network
/// sends and receives, handles the timing between messages, provides the
/// file to send or to fill, and manages the byte buffers.
#[derive(Debug)]
pub struct Machine<'a> {
    request_type: Option<RequestType>,
    incoming_file: Option<&'a mut Vec<u8>>,
    outgoing_file: Option<&'a Vec<u8>>,
    mode: Mode,
    block: u16,
}

/// Block sequencing: a writer's block counter moves only on an acknowledgement
/// of the block it expects, and then to the next block; an acknowledgement of
/// any other block is rejected and leaves the state as it was.
pub proof fn lemma_block_sequencing(s: EngineState, b: Seq<u8>, length: int)
    requires
        s.role == Some(RequestType::Write),
    ensures
        ack_from_wire(b, length) is Some && ack_from_wire(b, length)->0 != s.block ==> step(
            s,
            b,
            length,
        ) == (s, Err::<Seq<u8>, TftprsError>(TftprsError::BadPacketReceived)),
        step(s, b, length).0.role is Some && step(s, b, length).0.block != s.block ==> ack_from_wire(
            b,
            length,
        ) == Some(s.block) && step(s, b, length).0.block == s.block + 1,
{
}

/// Termination rule: a reader that accepts a data packet ends the transfer
/// exactly when the payload is shorter than a full block, or the block number
/// is the last one; a full block never ends it by itself.
pub proof fn lemma_termination_rule(s: EngineState, b: Seq<u8>, length: int)
    requires
        s.role == Some(RequestType::Read),
        s.sink is Some,
        data_from_wire(b, length) is Some,
        (data_from_wire(b, length)->0).0 == s.block,
    ensures
        step(s, b, length).1 == Ok::<Seq<u8>, TftprsError>(ack_wire(s.block)),
        step(s, b, length).0.role is None <==> (length - FIXED_DATA_BYTES < MAX_DATA_SIZE
            || s.block == MAX_BLOCK),
{
}

/// An error packet from the peer ends any active transfer: the engine is idle
/// and sends nothing.
pub proof fn lemma_error_packet_resets(s: EngineState, b: Seq<u8>, length: int)
    requires
        s.role is Some,
        length <= MAX_PACKET_SIZE,
        packet_opcode(b) == Some(OpCode::Error),
    ensures
        step(s, b, length) == (idle_state(s.mode), Ok::<Seq<u8>, TftprsError>(seq![])),
{
}

impl<'a> Default for Machine<'a> {
    fn default() -> (r: Self)
        ensures
            r@ == idle_state(Mode::Binary),
            r.sink() is None,
    {
        Machine::new()
    }
}

impl<'a> View for Machine<'a> {
    type V = EngineState;

    closed spec fn view(&self) -> EngineState {
        EngineState {
            role: self.request_type,
            block: self.block,
            mode: self.mode,
            source: match self.outgoing_file {
                Some(f) => Some(f@),
                None => None,
            },
            sink: match self.incoming_file {
                Some(f) => Some((*f)@),
                None => None,
            },
        }
    }
}

impl<'a> Machine<'a> {
    /// An idle machine holds no file; a reader holds no file to send and a
    /// writer no file to fill.
    #[verifier::type_invariant]
    spec fn inv(&self) -> bool {
        match self.request_type {
            None => self.incoming_file is None && self.outgoing_file is None,
            Some(RequestType::Read) => self.outgoing_file is None,
            Some(RequestType::Write) => self.incoming_file is None,
        }
    }

    /// The file that received data is appended to.
    pub closed spec fn sink(&self) -> Option<&'a mut Vec<u8>> {
        self.incoming_file
    }

    /// An idle machine, in binary mode.
    pub fn new() -> (r: Machine<'a>)
        ensures
            r@ == idle_state(Mode::Binary),
            r.sink() is None,
    {
        Machine {
            request_type: None,
            incoming_file: None,
            outgoing_file: None,
            mode: Mode::Binary,
            block: 0,
        }
    }

    /// Resets the machine to an idle state. A file that was being filled is
    /// handed back with what it holds.
    pub fn reset(&mut self)
        ensures
            final(self)@ == idle_state(old(self)@.mode),
            final(self).sink() is None,
            old(self).sink() matches Some(f) ==> *final(f) == *f,
    {
        let mode = self.mode;
        *self = Machine {
            request_type: None,
            incoming_file: None,
            outgoing_file: None,
            mode,
            block: 0,
        };
    }

    /// Sets the file mode. This can only be done when no transfer is being performed.
    pub fn set_mode(&mut self, mode: Mode) -> (r: Result<(), TftprsError>)
        ensures
            old(self)@.role is Some ==> r == Err::<(), TftprsError>(TftprsError::Busy)
                && *final(self) == *old(self),
            old(self)@.role is None ==> r is Ok && final(self)@ == idle_state(mode)
                && final(self).sink() is None,
    {
        proof {
            use_type_invariant(&*self);
        }
        if self.is_busy() {
            return Err(TftprsError::Busy);
        }
        *self = Machine {
            request_type: None,
            incoming_file: None,
            outgoing_file: None,
            mode,
            block: 0,
        };
        Ok(())
    }

    /// Indicates whether a transfer is being performed.
    pub fn is_busy(&self) -> (r: bool)
        ensures
            r == self@.role is Some,
    {
        self.request_type.is_some()
    }

    /// The kind of transfer from the caller's side. A write request from the
    /// peer shows as a read, and the other way round: after receiving a
    /// request, the caller checks it to decide whether to send or to receive.
    pub fn request_type(&self) -> (r: Option<RequestType>)
        ensures
            r == self@.role,
    {
        self.request_type
    }

    /// The representation of the file being transferred; binary by default.
    pub fn mode(&self) -> (r: Mode)
        ensures
            r == self@.mode,
    {
        self.mode
    }

    /// Sends a request to the remote peer to write `file` out to that peer.
    /// The machine then expects the acknowledgement of block 0.
    pub fn request_send_file(
        &mut self,
        filename: String,
        file: &'a Vec<u8>,
        outgoing: &mut [u8; MAX_PACKET_SIZE],
    ) -> (r: Result<usize, TftprsError>)
        ensures
            old(self)@.role is Some ==> r == Err::<usize, TftprsError>(TftprsError::Busy),
            old(self)@.role is None && (file@.len() > MAX_FILE_SIZE || !request_fits(
                old(self)@.mode,
                text_bytes(filename@).len() as int,
            )) ==> r == Err::<usize, TftprsError>(TftprsError::BadRequestAttempted),
            old(self)@.role is None && file@.len() <= MAX_FILE_SIZE && request_fits(
                old(self)@.mode,
                text_bytes(filename@).len() as int,
            ) ==> r is Ok,
            r is Err ==> *final(self) == *old(self) && final(outgoing)@ == old(outgoing)@,
            r matches Ok(n) ==> {
                let wire = request_wire(RequestType::Write, filename@, old(self)@.mode);
                &&& n == wire.len()
                &&& holds_prefix(final(outgoing)@, old(outgoing)@, wire)
                &&& final(self)@ == (EngineState {
                    role: Some(RequestType::Write),
                    block: 0,
                    source: Some(file@),
                    ..idle_state(old(self)@.mode)
                })
                &&& final(self).sink() is None
            },
    {
        proof {
            use_type_invariant(&*self);
        }
        // Do not send a request if a transfer is already taking place.
        if self.is_busy() {
            return Err(TftprsError::Busy);
        }
        // Do not allow files that are too large for the block field.
        if file.len() > MAX_FILE_SIZE {
            return Err(TftprsError::BadRequestAttempted);
        }
        let request = match Request::new(RequestType::Write, self.mode, filename) {
            Ok(request) => request,
            Err(e) => return Err(e),
        };
        let count = request.serialize(outgoing);
        // Expect an acknowledgement of block 0.
        *self = Machine {
            request_type: Some(RequestType::Write),
            incoming_file: None,
            outgoing_file: Some(file),
            mode: self.mode,
            block: 0,
        };
        Ok(count)
    }

    /// Sends a request to the remote peer to read a file from that peer into
    /// `file`. The machine then expects data block 1.
    pub fn request_receive_file(
        &mut self,
        filename: String,
        file: &'a mut Vec<u8>,
        outgoing: &mut [u8; MAX_PACKET_SIZE],
    ) -> (r: Result<usize, TftprsError>)
        ensures
            old(self)@.role is Some ==> r == Err::<usize, TftprsError>(TftprsError::Busy),
            old(self)@.role is None && (old(file)@.len() > MAX_FILE_SIZE || !request_fits(
                old(self)@.mode,
                text_bytes(filename@).len() as int,
            )) ==> r == Err::<usize, TftprsError>(TftprsError::BadRequestAttempted),
            old(self)@.role is None && old(file)@.len() <= MAX_FILE_SIZE && request_fits(
                old(self)@.mode,
                text_bytes(filename@).len() as int,
            ) ==> r is Ok,
            r is Err ==> *final(self) == *old(self) && final(outgoing)@ == old(outgoing)@
                && *final(file) == *old(file),
            r matches Ok(n) ==> {
                let wire = request_wire(RequestType::Read, filename@, old(self)@.mode);
                &&& n == wire.len()
                &&& holds_prefix(final(outgoing)@, old(outgoing)@, wire)
                &&& final(self)@ == (EngineState {
                    role: Some(RequestType::Read),
                    block: 1,
                    sink: Some(old(file)@),
                    ..idle_state(old(self)@.mode)
                })
                &&& final(self).sink() matches Some(g) && *final(g) == *final(file)
            },
    {
        proof {
            use_type_invariant(&*self);
        }
        // Do not send a request if a transfer is already taking place.
        if self.is_busy() {
            return Err(TftprsError::Busy);
        }
        // Do not allow files that are too large for the block field.
        if file.len() > MAX_FILE_SIZE {
            return Err(TftprsError::BadRequestAttempted);
        }
        let request = match Request::new(RequestType::Read, self.mode, filename) {
            Ok(request) => request,
            Err(e) => return Err(e),
        };
        let count = request.serialize(outgoing);
        // Expect the first block of data in response.
        *self = Machine {
            request_type: Some(RequestType::Read),
            incoming_file: Some(file),
            outgoing_file: None,
            mode: self.mode,
            block: 1,
        };
        Ok(count)
    }

    /// Answers a peer's read request: attaches `file` and sends its first block.
    pub fn reply_send_file(
        &mut self,
        file: &'a Vec<u8>,
        outgoing: &mut [u8; MAX_PACKET_SIZE],
    ) -> (r: Result<usize, TftprsError>)
        ensures
            old(self)@.role != Some(RequestType::Write) ==> r == Err::<usize, TftprsError>(
                TftprsError::NoConnection,
            ) && *final(self) == *old(self) && final(outgoing)@ == old(outgoing)@,
            old(self)@.role == Some(RequestType::Write) ==> r == Ok::<usize, TftprsError>(
                data_wire(1, file@).len() as usize,
            ) && holds_prefix(final(outgoing)@, old(outgoing)@, data_wire(1, file@)) && final(self)@ == (EngineState { block: 1, source: Some(file@), ..old(self)@ }) && final(self).sink() is None,
    {
        proof {
            use_type_invariant(&*self);
        }
        match self.request_type {
            Some(RequestType::Write) => {},
            _ => return Err(TftprsError::NoConnection),
        }
        *self = Machine {
            request_type: Some(RequestType::Write),
            incoming_file: None,
            outgoing_file: Some(file),
            mode: self.mode,
            block: 1,
        };
        self.send_block(outgoing)
    }

    /// Answers a peer's write request: attaches `file` to be filled and
    /// acknowledges block 0, which asks the peer for data block 1.
    pub fn reply_receive_file(
        &mut self,
        file: &'a mut Vec<u8>,
        outgoing: &mut [u8; MAX_PACKET_SIZE],
    ) -> (r: Result<usize, TftprsError>)
        ensures
            old(self)@.role != Some(RequestType::Read) ==> r == Err::<usize, TftprsError>(
                TftprsError::NoConnection,
            ) && *final(self) == *old(self) && final(outgoing)@ == old(outgoing)@
                && *final(file) == *old(file),
            old(self)@.role == Some(RequestType::Read) ==> r == Ok::<usize, TftprsError>(
                ack_wire(0).len() as usize,
            ) && holds_prefix(final(outgoing)@, old(outgoing)@, ack_wire(0)) && final(self)@ == (
            EngineState { block: 1, sink: Some(old(file)@), ..old(self)@ })
                && (final(self).sink() matches Some(g) && *final(g) == *final(file))
                && (old(self).sink() matches Some(f) ==> *final(f) == *f),
    {
        proof {
            use_type_invariant(&*self);
        }
        match self.request_type {
            Some(RequestType::Read) => {},
            _ => return Err(TftprsError::NoConnection),
        }
        let count = Ack::new(0).serialize(outgoing);
        *self = Machine {
            request_type: Some(RequestType::Read),
            incoming_file: Some(file),
            outgoing_file: None,
            mode: self.mode,
            block: 1,
        };
        Ok(count)
    }

    /// Parses a received packet as a request from a remote peer. On a request,
    /// the machine takes the role that answers it and the mode it names, and
    /// returns the filename for the caller to resolve.
    pub fn listen_for_request(&mut self, received: &[u8; MAX_PACKET_SIZE]) -> (r: Result<
        String,
        TftprsError,
    >)
        ensures
            r matches Ok(f) ==> listen_step(old(self)@, received@) == (
                final(self)@,
                Ok::<Seq<char>, TftprsError>(f@),
            ) && final(self).sink() is None,
            r matches Err(e) ==> listen_step(old(self)@, received@) == (
                old(self)@,
                Err::<Seq<char>, TftprsError>(e),
            ) && *final(self) == *old(self),
    {
        proof {
            use_type_invariant(&*self);
        }
        if self.is_busy() {
            return Err(TftprsError::Busy);
        }
        let opcode = match decode_opcode(received) {
            Ok(op) => op,
            Err(e) => return Err(e),
        };
        match opcode {
            // A peer's write request makes this side the reader, and the other way round.
            OpCode::WriteRequest | OpCode::ReadRequest => {
                let request = match decode_request(received) {
                    Ok(request) => request,
                    Err(e) => return Err(e),
                };
                let role = match request.request {
                    RequestType::Read => RequestType::Write,
                    RequestType::Write => RequestType::Read,
                };
                *self = Machine {
                    request_type: Some(role),
                    incoming_file: None,
                    outgoing_file: None,
                    mode: request.mode,
                    block: self.block,
                };
                Ok(request.filename)
            },
            // Transfer packets, or an error, with no transfer pending.
            _ => Err(TftprsError::NoConnection),
        }
    }

    /// Processes a received packet of `length` bytes while a transfer is
    /// active, whoever initiated it, and writes the reply to `outgoing`.
    /// Returns the length of the reply; 0 when there is nothing to send.
    pub fn process(
        &mut self,
        received: &[u8; MAX_PACKET_SIZE],
        length: usize,
        outgoing: &mut [u8; MAX_PACKET_SIZE],
    ) -> (r: Result<usize, TftprsError>)
        ensures
            r matches Ok(n) ==> step(old(self)@, received@, length as int).1 matches Ok(p) && n
                == p.len() && holds_prefix(final(outgoing)@, old(outgoing)@, p) && final(self)@
                == step(old(self)@, received@, length as int).0,
            r matches Err(e) ==> step(old(self)@, received@, length as int) == (
                old(self)@,
                Err::<Seq<u8>, TftprsError>(e),
            ) && *final(self) == *old(self) && final(outgoing)@ == old(outgoing)@,
            old(self).sink() matches Some(f) ==> if final(self)@.sink is Some {
                final(self).sink() matches Some(g) && *final(g) == *final(f)
            } else {
                final(self).sink() is None && (*final(f))@ == sink_after(
                    old(self)@,
                    received@,
                    length as int,
                )
            },
    {
        proof {
            use_type_invariant(&*self);
            lemma_nothing_written(outgoing@);
        }
        // Drop packets that arrive with no transfer active.
        if !self.is_busy() {
            return Err(TftprsError::NoConnection);
        }
        if length > MAX_PACKET_SIZE {
            return self.send_error(ErrorCode::IllegalOperation, outgoing, None);
        }
        let opcode = match decode_opcode(received) {
            Ok(op) => op,
            Err(e) => return Err(e),
        };
        match opcode {
            OpCode::Acknowledgement => match self.request_type {
                Some(RequestType::Write) => self.handle_ack_and_send_next_block(
                    received,
                    length,
                    outgoing,
                ),
                _ => Err(TftprsError::Busy),
            },
            OpCode::Data => match self.request_type {
                Some(RequestType::Read) => self.handle_data_and_send_ack(received, length, outgoing),
                _ => Err(TftprsError::Busy),
            },
            // The peer ended the transfer; an error is never answered.
            OpCode::Error => {
                self.reset();
                Ok(0)
            },
            // A request while a transfer is active.
            _ => Err(TftprsError::Busy),
        }
    }

    /// Writes an error packet to `outgoing` and resets the machine. The caller
    /// can do this at any time.
    pub fn send_error(
        &mut self,
        code: ErrorCode,
        outgoing: &mut [u8; MAX_PACKET_SIZE],
        message: Option<String>,
    ) -> (r: Result<usize, TftprsError>)
        ensures
            r == Ok::<usize, TftprsError>(error_wire(code, error_text(message)).len() as usize),
            holds_prefix(final(outgoing)@, old(outgoing)@, error_wire(code, error_text(message))),
            final(self)@ == idle_state(old(self)@.mode),
            final(self).sink() is None,
            old(self).sink() matches Some(f) ==> *final(f) == *f,
    {
        let text = match message {
            Some(m) => m,
            None => UNKNOWN_ERROR.to_owned(),
        };
        let error_message = ErrorResponse::new(code, text);
        let count = error_message.serialize(outgoing);
        self.reset();
        Ok(count)
    }

    /// Checks that a received packet carries the expected block number.
    fn check_block_on_message(&self, received: &[u8; MAX_PACKET_SIZE]) -> (r: Result<
        (),
        TftprsError,
    >)
        ensures
            r is Ok <==> field16(received@, 2) == self@.block,
            r is Err ==> r == Err::<(), TftprsError>(TftprsError::BadPacketReceived),
    {
        if read_u16(received, 2) != self.block {
            return Err(TftprsError::BadPacketReceived);
        }
        Ok(())
    }

    /// Writes the current block of the file being sent. Past the end of the
    /// file the transfer is complete: the machine resets and sends nothing.
    fn send_block(&mut self, outgoing: &mut [u8; MAX_PACKET_SIZE]) -> (r: Result<
        usize,
        TftprsError,
    >)
        ensures
            old(self)@.source is None ==> r == Err::<usize, TftprsError>(TftprsError::NoFile)
                && *final(self) == *old(self) && final(outgoing)@ == old(outgoing)@,
            old(self)@.source is Some && 1 <= old(self)@.block && block_offset(old(self)@.block)
                <= old(self)@.source->0.len() ==> r == Ok::<usize, TftprsError>(
                data_wire(old(self)@.block, old(self)@.source->0).len() as usize,
            ) && holds_prefix(
                final(outgoing)@,
                old(outgoing)@,
                data_wire(old(self)@.block, old(self)@.source->0),
            ) && *final(self) == *old(self),
            old(self)@.source is Some && (old(self)@.block == 0 || block_offset(old(self)@.block)
                > old(self)@.source->0.len()) ==> r == Ok::<usize, TftprsError>(0) && final(self)@
                == idle_state(old(self)@.mode) && final(self).sink() is None && final(outgoing)@
                == old(outgoing)@ && (old(self).sink() matches Some(f) ==> *final(f) == *f),
    {
        match self.outgoing_file {
            Some(file) => match Data::new(self.block, file) {
                Some(data) => Ok(data.serialize(outgoing)),
                None => {
                    self.reset();
                    Ok(0)
                },
            },
            None => Err(TftprsError::NoFile),
        }
    }

    /// Checks a received acknowledgement, then sends the next block.
    fn handle_ack_and_send_next_block(
        &mut self,
        received: &[u8; MAX_PACKET_SIZE],
        length: usize,
        outgoing: &mut [u8; MAX_PACKET_SIZE],
    ) -> (r: Result<usize, TftprsError>)
        requires
            old(self)@.role == Some(RequestType::Write),
        ensures
            r matches Ok(n) ==> ack_step(old(self)@, received@, length as int).1 matches Ok(p)
                && n == p.len() && holds_prefix(final(outgoing)@, old(outgoing)@, p) && final(self)@ == ack_step(old(self)@, received@, length as int).0,
            r matches Err(e) ==> ack_step(old(self)@, received@, length as int) == (
                old(self)@,
                Err::<Seq<u8>, TftprsError>(e),
            ) && *final(self) == *old(self) && final(outgoing)@ == old(outgoing)@,
            final(self).sink() is None,
    {
        proof {
            use_type_invariant(&*self);
            lemma_nothing_written(outgoing@);
        }
        match decode_ack(received, length) {
            Ok(_) => {},
            Err(e) => return Err(e),
        }
        match self.check_block_on_message(received) {
            Ok(()) => {},
            Err(e) => return Err(e),
        }
        if self.outgoing_file.is_none() {
            return Err(TftprsError::NoFile);
        }
        if self.block == MAX_BLOCK {
            // Never reuse a block number: end the transfer.
            self.reset();
            return Ok(0);
        }
        // Advance the block for the next write.
        self.block = self.block + 1;
        self.send_block(outgoing)
    }

    /// Writes an acknowledgement of the current block.
    fn send_ack(&self, outgoing: &mut [u8; MAX_PACKET_SIZE]) -> (r: usize)
        ensures
            r == ack_wire(self@.block).len(),
            holds_prefix(final(outgoing)@, old(outgoing)@, ack_wire(self@.block)),
    {
        Ack::new(self.block).serialize(outgoing)
    }

    /// Checks a received data packet, appends its payload to the file, then
    /// acknowledges it.
    fn handle_data_and_send_ack(
        &mut self,
        received: &[u8; MAX_PACKET_SIZE],
        length: usize,
        outgoing: &mut [u8; MAX_PACKET_SIZE],
    ) -> (r: Result<usize, TftprsError>)
        requires
            old(self)@.role == Some(RequestType::Read),
        ensures
            r matches Ok(n) ==> data_step(old(self)@, received@, length as int).1 matches Ok(p)
                && n == p.len() && holds_prefix(final(outgoing)@, old(outgoing)@, p) && final(self)@ == data_step(old(self)@, received@, length as int).0,
            r matches Err(e) ==> data_step(old(self)@, received@, length as int) == (
                old(self)@,
                Err::<Seq<u8>, TftprsError>(e),
            ) && *final(self) == *old(self) && final(outgoing)@ == old(outgoing)@,
            r is Ok ==> (old(self).sink() matches Some(f) && if final(self)@.sink is Some {
                final(self).sink() matches Some(g) && *final(g) == *final(f)
            } else {
                final(self).sink() is None && (*final(f))@ == (*f)@ + payload(
                    received@,
                    length as int,
                )
            }),
    {
        proof {
            use_type_invariant(&*self);
        }
        let count = match decode_data(received, length) {
            Ok((_, count)) => count,
            Err(e) => return Err(e),
        };
        match self.check_block_on_message(received) {
            Ok(()) => {},
            Err(e) => return Err(e),
        }
        if self.incoming_file.is_none() {
            return Err(TftprsError::NoFile);
        }
        // Take the file out of the machine, append the payload, and put it back.
        let mut current = Machine::new();
        core::mem::swap(self, &mut current);
        proof {
            use_type_invariant(&current);
        }
        let Machine { request_type, incoming_file, outgoing_file, mode, block } = current;
        if let Some(file) = incoming_file {
            append_payload(&mut *file, received, count);
            *self = Machine { request_type, incoming_file: Some(file), outgoing_file, mode, block };
        }
        // Acknowledge the received block.
        let response = self.send_ack(outgoing);
        if count < MAX_DATA_SIZE || self.block == MAX_BLOCK {
            // No more data is coming.
            self.reset();
        } else {
            self.block = self.block + 1;
        }
        Ok(response)
    }
}

/// Appends the payload of a data packet, `count` bytes after its header, to `file`.
fn append_payload(file: &mut Vec<u8>, received: &[u8; MAX_PACKET_SIZE], count: usize)
    requires
        FIXED_DATA_BYTES + count <= MAX_PACKET_SIZE,
    ensures
        final(file)@ == old(file)@ + received@.subrange(4, 4 + count),
{
    let mut i: usize = 0;
    while i < count
        invariant
            FIXED_DATA_BYTES + count <= MAX_PACKET_SIZE,
            i <= count,
            file@ == old(file)@ + received@.subrange(4, 4 + i),
        decreases count - i,
    {
        file.push(received[FIXED_DATA_BYTES + i]);
        i += 1;
        assert(file@ =~= old(file)@ + received@.subrange(4, 4 + i));
    }
}

} // verus!
