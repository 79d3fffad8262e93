//! Encoding and decoding of packets.
//!
//! Every packet is written into, or read from, a buffer of `MAX_PACKET_SIZE`
//! bytes. All multi-byte integers are big-endian.

use crate::constants::error_code_of;
use crate::constants::mode_name;
use crate::constants::opcode_of;
use crate::constants::ErrorCode;
use crate::constants::Mode;
use crate::constants::OpCode;
use crate::constants::RequestType;
use crate::constants::FIXED_REQUEST_BYTES;
use crate::constants::MAX_DATA_SIZE;
use crate::constants::MAX_PACKET_SIZE;
use crate::errors::TftprsError;
use vstd::prelude::*;
use vstd::slice::slice_subrange;
use vstd::utf8::encode_utf8;
use vstd::utf8::is_ascii_chars;
use vstd::utf8::is_ascii_chars_encode_utf8;
use vstd::utf8::is_ascii_chars_nat_bound;

verus! {

/// The longest error message that fits in an error packet with its terminator.
pub const MAX_MESSAGE_SIZE: usize = MAX_PACKET_SIZE - 5;

/// The two bytes of `v`, most significant first.
pub open spec fn be16(v: u16) -> Seq<u8> {
    seq![(v / 256) as u8, (v % 256) as u8]
}

/// The 16-bit value stored big-endian at `at` in `b`.
pub open spec fn field16(b: Seq<u8>, at: int) -> u16 {
    (b[at] as int * 256 + b[at + 1] as int) as u16
}

/// The bytes that stand for a string on the wire: its UTF-8 encoding.
pub open spec fn text_bytes(s: Seq<char>) -> Seq<u8> {
    encode_utf8(s)
}

/// The characters read from the wire, one for each byte.
pub open spec fn byte_chars(b: Seq<u8>) -> Seq<char> {
    b.map_values(|x: u8| x as char)
}

/// Whether a request with a filename of `len` bytes fits in one packet.
pub open spec fn request_fits(mode: Mode, len: int) -> bool {
    2 + len + 1 + mode_name(mode).len() + 1 <= MAX_PACKET_SIZE
}

/// A request: `opcode | filename | 0 | mode | 0`.
pub open spec fn request_wire(kind: RequestType, filename: Seq<char>, mode: Mode) -> Seq<u8> {
    be16(kind.spec_opcode().spec_code()) + text_bytes(filename) + seq![0u8] + mode_name(mode)
        + seq![0u8]
}

/// Where block `block` (counted from 1) starts in a file.
pub open spec fn block_offset(block: u16) -> int {
    (block - 1) * MAX_DATA_SIZE
}

/// The part of `file` that block `block` carries: at most `MAX_DATA_SIZE` bytes.
pub open spec fn data_payload(file: Seq<u8>, block: u16) -> Seq<u8> {
    let start = block_offset(block);
    let end = if start + MAX_DATA_SIZE <= file.len() {
        start + MAX_DATA_SIZE
    } else {
        file.len() as int
    };
    file.subrange(start, end)
}

/// A data packet: `3 | block | payload`.
pub open spec fn data_wire(block: u16, file: Seq<u8>) -> Seq<u8> {
    be16(OpCode::Data.spec_code()) + be16(block) + data_payload(file, block)
}

/// An acknowledgement: `4 | block`.
pub open spec fn ack_wire(block: u16) -> Seq<u8> {
    be16(OpCode::Acknowledgement.spec_code()) + be16(block)
}

/// The bytes of an error message that fit in one packet.
pub open spec fn message_bytes(message: Seq<char>) -> Seq<u8> {
    let b = text_bytes(message);
    if b.len() <= MAX_MESSAGE_SIZE {
        b
    } else {
        b.take(MAX_MESSAGE_SIZE as int)
    }
}

/// An error packet: `5 | code | message | 0`.
pub open spec fn error_wire(code: ErrorCode, message: Seq<char>) -> Seq<u8> {
    be16(OpCode::Error.spec_code()) + be16(code.spec_code()) + message_bytes(message) + seq![0u8]
}

/// `new` is `old` with its first bytes replaced by `bytes`.
pub open spec fn holds_prefix(new: Seq<u8>, old: Seq<u8>, bytes: Seq<u8>) -> bool {
    &&& bytes.len() <= old.len()
    &&& new == bytes + old.subrange(bytes.len() as int, old.len() as int)
}

/// Writing nothing leaves a buffer as it was.
pub proof fn lemma_nothing_written(b: Seq<u8>)
    ensures
        holds_prefix(b, b, seq![]),
{
    assert(b =~= seq![] + b.subrange(0, b.len() as int));
}

/// Relies on String::push: the string gains `c` at its end.
#[verifier::external_body]
fn push_char(s: &mut String, c: char)
    ensures
        final(s)@ == old(s)@.push(c),
{
    s.push(c)
}

/// Writes `source` into `buffer` at `*head` and advances `*head` past it.
fn write_bytes(buffer: &mut [u8; MAX_PACKET_SIZE], head: &mut usize, source: &[u8])
    requires
        *old(head) + source@.len() <= MAX_PACKET_SIZE,
    ensures
        *final(head) == *old(head) + source@.len(),
        final(buffer)@ == old(buffer)@.subrange(0, *old(head) as int) + source@ + old(buffer)@.subrange(*final(head) as int, MAX_PACKET_SIZE as int),
{
    let count = source.len();
    let start = *head;
    let mut i: usize = 0;
    while i < count
        invariant
            count == source@.len(),
            start == *old(head),
            start + count <= MAX_PACKET_SIZE,
            i <= count,
            buffer@ == old(buffer)@.subrange(0, start as int) + source@.subrange(0, i as int) + old(buffer)@.subrange(start + i, MAX_PACKET_SIZE as int),
        decreases count - i,
    {
        buffer[start + i] = source[i];
        i += 1;
        assert(buffer@ =~= old(buffer)@.subrange(0, start as int) + source@.subrange(0, i as int)
            + old(buffer)@.subrange(start + i, MAX_PACKET_SIZE as int));
    }
    assert(source@.subrange(0, count as int) =~= source@);
    *head = start + count;
}

/// Writes `v` big-endian into `buffer` at `*head` and advances `*head` past it.
fn write_u16(buffer: &mut [u8; MAX_PACKET_SIZE], head: &mut usize, v: u16)
    requires
        *old(head) + 2 <= MAX_PACKET_SIZE,
    ensures
        *final(head) == *old(head) + 2,
        final(buffer)@ == old(buffer)@.subrange(0, *old(head) as int) + be16(v) + old(buffer)@.subrange(*final(head) as int, MAX_PACKET_SIZE as int),
{
    let h = *head;
    buffer[h] = (v / 256) as u8;
    buffer[h + 1] = (v % 256) as u8;
    *head = h + 2;
    assert(buffer@ =~= old(buffer)@.subrange(0, h as int) + be16(v) + old(buffer)@.subrange(
        h + 2,
        MAX_PACKET_SIZE as int,
    ));
}

/// Writes one byte into `buffer` at `*head` and advances `*head` past it.
fn write_byte(buffer: &mut [u8; MAX_PACKET_SIZE], head: &mut usize, v: u8)
    requires
        *old(head) + 1 <= MAX_PACKET_SIZE,
    ensures
        *final(head) == *old(head) + 1,
        final(buffer)@ == old(buffer)@.subrange(0, *old(head) as int) + seq![v] + old(buffer)@.subrange(*final(head) as int, MAX_PACKET_SIZE as int),
{
    let h = *head;
    buffer[h] = v;
    *head = h + 1;
    assert(buffer@ =~= old(buffer)@.subrange(0, h as int) + seq![v] + old(buffer)@.subrange(
        h + 1,
        MAX_PACKET_SIZE as int,
    ));
}

/// Any transfer begins with a request to read or write a file, which also
/// serves to request a connection.
#[derive(Debug, Clone)]
pub struct Request {
    /// Read (RRQ) or write (WRQ).
    pub request: RequestType,
    /// The name of the file.
    pub filename: String,
    /// The representation of the transfer.
    pub mode: Mode,
}

impl Request {
    /// Whether a request with this filename fits in one packet:
    /// `2 + filename + 1 + mode string + 1 <= MAX_PACKET_SIZE`.
    pub fn filename_fits(mode: Mode, filename: &str) -> (r: bool)
        ensures
            r == request_fits(mode, text_bytes(filename@).len() as int),
    {
        let mode_size = mode.name_len();
        let max_filename_size = MAX_PACKET_SIZE - FIXED_REQUEST_BYTES - mode_size;
        filename.as_bytes().len() <= max_filename_size
    }

    /// A request, if its filename fits in one packet.
    pub fn new(request: RequestType, mode: Mode, filename: String) -> (r: Result<Self, TftprsError>)
        ensures
            request_fits(mode, text_bytes(filename@).len() as int) ==> r == Ok::<
                Request,
                TftprsError,
            >((Request { request, filename, mode })),
            !request_fits(mode, text_bytes(filename@).len() as int) ==> r == Err::<
                Request,
                TftprsError,
            >(TftprsError::BadRequestAttempted),
    {
        if Request::filename_fits(mode, filename.as_str()) {
            Ok(Self { request, filename, mode })
        } else {
            Err(TftprsError::BadRequestAttempted)
        }
    }

    /// The bytes of this request on the wire; none if it does not fit.
    pub open spec fn spec_wire(&self) -> Seq<u8> {
        if request_fits(self.mode, text_bytes(self.filename@).len() as int) {
            request_wire(self.request, self.filename@, self.mode)
        } else {
            seq![]
        }
    }

    /// Writes the request at the start of `buffer` and returns its length, or
    /// writes nothing and returns 0 if it does not fit.
    pub fn serialize(&self, buffer: &mut [u8; MAX_PACKET_SIZE]) -> (count: usize)
        ensures
            count == self.spec_wire().len(),
            holds_prefix(final(buffer)@, old(buffer)@, self.spec_wire()),
    {
        if !Request::filename_fits(self.mode, self.filename.as_str()) {
            assert(old(buffer)@.subrange(0, MAX_PACKET_SIZE as int) =~= old(buffer)@);
            return 0;
        }
        let ghost start = buffer@;
        let mut head: usize = 0;
        write_u16(buffer, &mut head, self.request.opcode().code());
        write_bytes(buffer, &mut head, self.filename.as_str().as_bytes());
        write_byte(buffer, &mut head, 0);
        let mode_string = self.mode.name_bytes();
        write_bytes(buffer, &mut head, mode_string.as_slice());
        write_byte(buffer, &mut head, 0);
        assert(buffer@ =~= self.spec_wire() + start.subrange(head as int, MAX_PACKET_SIZE as int));
        head
    }
}

/// One block of a file that is being sent.
#[derive(Debug, Clone)]
pub struct Data<'a> {
    /// The block number, counted from 1.
    pub block: u16,
    /// The whole file.
    pub data: &'a Vec<u8>,
}

impl<'a> Data<'a> {
    /// The block is numbered from 1 and does not start past the end of the file.
    pub open spec fn wf(&self) -> bool {
        &&& self.block >= 1
        &&& block_offset(self.block) <= self.data@.len()
    }

    /// Block `block` of `data`, if it is numbered from 1 and does not start past
    /// the end of the file.
    pub fn new(block: u16, data: &'a Vec<u8>) -> (r: Option<Self>)
        ensures
            r is None <==> (block == 0 || block_offset(block) > data@.len()),
            r matches Some(d) ==> d.block == block && d.data == data && d.wf(),
    {
        if block == 0 {
            return None;
        }
        if (block - 1) as usize * MAX_DATA_SIZE > data.len() {
            return None;
        }
        Some(Self { block, data })
    }

    /// Where this block starts in the file.
    pub fn offset(&self) -> (r: usize)
        requires
            self.wf(),
        ensures
            r == block_offset(self.block),
    {
        (self.block - 1) as usize * MAX_DATA_SIZE
    }

    /// The bytes of this data packet on the wire.
    pub open spec fn spec_wire(&self) -> Seq<u8> {
        data_wire(self.block, self.data@)
    }

    /// Writes the data packet at the start of `buffer` and returns its length.
    pub fn serialize(&self, buffer: &mut [u8; MAX_PACKET_SIZE]) -> (count: usize)
        requires
            self.wf(),
        ensures
            count == self.spec_wire().len(),
            holds_prefix(final(buffer)@, old(buffer)@, self.spec_wire()),
    {
        let ghost start = buffer@;
        let mut head: usize = 0;
        write_u16(buffer, &mut head, OpCode::Data.code());
        write_u16(buffer, &mut head, self.block);
        let offset = self.offset();
        let remaining = self.data.len() - offset;
        let count = if remaining < MAX_DATA_SIZE {
            remaining
        } else {
            MAX_DATA_SIZE
        };
        write_bytes(
            buffer,
            &mut head,
            slice_subrange(self.data.as_slice(), offset, offset + count),
        );
        assert(buffer@ =~= self.spec_wire() + start.subrange(head as int, MAX_PACKET_SIZE as int));
        head
    }
}

/// An acknowledgement of one block; block 0 acknowledges a write request.
#[derive(Debug, Clone, Copy, PartialEq, Eq, Structural)]
pub struct Ack {
    /// The block acknowledged.
    pub block: u16,
}

impl Ack {
    pub fn new(block: u16) -> (r: Self)
        ensures
            r.block == block,
    {
        Self { block }
    }

    /// The bytes of this acknowledgement on the wire.
    pub open spec fn spec_wire(&self) -> Seq<u8> {
        ack_wire(self.block)
    }

    /// Writes the acknowledgement at the start of `buffer` and returns its length.
    pub fn serialize(&self, buffer: &mut [u8; MAX_PACKET_SIZE]) -> (count: usize)
        ensures
            count == self.spec_wire().len(),
            holds_prefix(final(buffer)@, old(buffer)@, self.spec_wire()),
    {
        let ghost start = buffer@;
        let mut head: usize = 0;
        write_u16(buffer, &mut head, OpCode::Acknowledgement.code());
        write_u16(buffer, &mut head, self.block);
        assert(buffer@ =~= self.spec_wire() + start.subrange(head as int, MAX_PACKET_SIZE as int));
        head
    }
}

/// Most errors cause termination of the connection. An error is signalled by
/// sending an error packet.
#[derive(Debug, Clone)]
pub struct ErrorResponse {
    /// The nature of the error.
    pub code: ErrorCode,
    /// A message for human consumption.
    pub message: String,
}

impl ErrorResponse {
    pub fn new(error_code: ErrorCode, message: String) -> (r: Self)
        ensures
            r.code == error_code,
            r.message == message,
    {
        Self { code: error_code, message }
    }

    /// The error that reports this packet from the remote peer to the caller.
    pub fn into_error(self) -> (r: TftprsError)
        ensures
            r == TftprsError::ErrorResponse(self.code.spec_code(), self.message),
    {
        TftprsError::ErrorResponse(self.code.code(), self.message)
    }

    /// The bytes of this error packet on the wire; a message too long for one
    /// packet is cut short.
    pub open spec fn spec_wire(&self) -> Seq<u8> {
        error_wire(self.code, self.message@)
    }

    /// Writes the error packet at the start of `buffer` and returns its length.
    pub fn serialize(&self, buffer: &mut [u8; MAX_PACKET_SIZE]) -> (count: usize)
        ensures
            count == self.spec_wire().len(),
            holds_prefix(final(buffer)@, old(buffer)@, self.spec_wire()),
    {
        let ghost start = buffer@;
        let mut head: usize = 0;
        write_u16(buffer, &mut head, OpCode::Error.code());
        write_u16(buffer, &mut head, self.code.code());
        let text = self.message.as_str().as_bytes();
        let count = if text.len() <= MAX_MESSAGE_SIZE {
            text.len()
        } else {
            MAX_MESSAGE_SIZE
        };
        write_bytes(buffer, &mut head, slice_subrange(text, 0, count));
        write_byte(buffer, &mut head, 0);
        assert(text@.subrange(0, count as int) =~= message_bytes(self.message@));
        assert(buffer@ =~= self.spec_wire() + start.subrange(head as int, MAX_PACKET_SIZE as int));
        head
    }
}

/// The 16-bit opcode field of a packet, read as an opcode.
pub open spec fn packet_opcode(b: Seq<u8>) -> Option<OpCode> {
    opcode_of(field16(b, 0))
}

/// The index of the first zero byte of `b` at or after `i`, or `b.len()` if there is none.
pub open spec fn find_nul(b: Seq<u8>, i: int) -> int
    decreases b.len() - i,
{
    if i >= b.len() {
        b.len() as int
    } else if b[i] == 0 {
        i
    } else {
        find_nul(b, i + 1)
    }
}

/// `c` in upper case, where it is an ASCII letter.
pub open spec fn ascii_upper(c: u8) -> u8 {
    if 0x61 <= c && c <= 0x7A {
        (c - 0x20) as u8
    } else {
        c
    }
}

/// Whether two byte strings are equal up to the case of ASCII letters.
pub open spec fn same_ignoring_case(a: Seq<u8>, b: Seq<u8>) -> bool {
    &&& a.len() == b.len()
    &&& forall|i: int| 0 <= i < a.len() ==> ascii_upper(#[trigger] a[i]) == ascii_upper(b[i])
}

/// The mode that a mode string names, in any case.
pub open spec fn mode_from_name(name: Seq<u8>) -> Option<Mode> {
    if same_ignoring_case(name, mode_name(Mode::Text)) {
        Some(Mode::Text)
    } else if same_ignoring_case(name, mode_name(Mode::Binary)) {
        Some(Mode::Binary)
    } else {
        None
    }
}

/// The request kind that an opcode stands for.
pub open spec fn request_kind(op: Option<OpCode>) -> Option<RequestType> {
    match op {
        Some(OpCode::ReadRequest) => Some(RequestType::Read),
        Some(OpCode::WriteRequest) => Some(RequestType::Write),
        _ => None,
    }
}

/// What a request packet holds: its kind, the filename and the mode. The two
/// strings start at offset 2 and each ends at the first zero byte after it,
/// which must lie inside the packet.
pub open spec fn request_from_wire(b: Seq<u8>) -> Option<(RequestType, Seq<char>, Mode)> {
    let name_end = find_nul(b, 2);
    let mode_end = find_nul(b, name_end + 1);
    if b.len() != MAX_PACKET_SIZE || request_kind(packet_opcode(b)) is None || name_end >= b.len()
        || mode_end >= b.len() {
        None
    } else {
        match mode_from_name(b.subrange(name_end + 1, mode_end)) {
            Some(mode) => Some(
                (request_kind(packet_opcode(b))->0, byte_chars(b.subrange(2, name_end)), mode),
            ),
            None => None,
        }
    }
}

/// What a data packet of `length` bytes holds: its block number and the
/// length of its payload, which follows the 4-byte header.
pub open spec fn data_from_wire(b: Seq<u8>, length: int) -> Option<(u16, int)> {
    if 4 <= length <= MAX_PACKET_SIZE && b.len() == MAX_PACKET_SIZE && packet_opcode(b) == Some(
        OpCode::Data,
    ) {
        Some((field16(b, 2), length - 4))
    } else {
        None
    }
}

/// The block number that an acknowledgement of `length` bytes holds.
pub open spec fn ack_from_wire(b: Seq<u8>, length: int) -> Option<u16> {
    if 4 <= length <= MAX_PACKET_SIZE && b.len() == MAX_PACKET_SIZE && packet_opcode(b) == Some(
        OpCode::Acknowledgement,
    ) {
        Some(field16(b, 2))
    } else {
        None
    }
}

/// What an error packet of `length` bytes holds: its code and its message. The
/// message ends at its terminator, or at the end of the packet if it has none.
pub open spec fn error_from_wire(b: Seq<u8>, length: int) -> Option<(ErrorCode, Seq<char>)> {
    if 4 <= length <= MAX_PACKET_SIZE && b.len() == MAX_PACKET_SIZE && packet_opcode(b) == Some(
        OpCode::Error,
    ) {
        let end = find_nul(b.take(length), 4);
        Some((error_code_of(field16(b, 2)), byte_chars(b.subrange(4, end))))
    } else {
        None
    }
}

/// Reads the 16-bit big-endian value at `at`.
pub(crate) fn read_u16(received: &[u8; MAX_PACKET_SIZE], at: usize) -> (r: u16)
    requires
        at + 2 <= MAX_PACKET_SIZE,
    ensures
        r == field16(received@, at as int),
{
    received[at] as u16 * 256 + received[at + 1] as u16
}

/// Reads the opcode of a packet; any value but the five legal ones is a malformed packet.
pub fn decode_opcode(received: &[u8; MAX_PACKET_SIZE]) -> (r: Result<OpCode, TftprsError>)
    ensures
        r matches Ok(op) ==> packet_opcode(received@) == Some(op),
        r matches Err(e) ==> packet_opcode(received@) is None && e
            == TftprsError::BadPacketReceived,
{
    OpCode::from_code(read_u16(received, 0))
}

/// The index of the first zero byte at or after `start`, if the packet has one.
fn find_terminator(received: &[u8; MAX_PACKET_SIZE], start: usize, limit: usize) -> (r: Option<
    usize,
>)
    requires
        start <= limit <= MAX_PACKET_SIZE,
    ensures
        r matches Some(i) ==> i == find_nul(received@.take(limit as int), start as int) && start
            <= i < limit,
        r is None ==> find_nul(received@.take(limit as int), start as int) == limit,
{
    let ghost b = received@.take(limit as int);
    let mut i = start;
    while i < limit
        invariant
            start <= i <= limit <= MAX_PACKET_SIZE,
            b == received@.take(limit as int),
            find_nul(b, start as int) == find_nul(b, i as int),
        decreases limit - i,
    {
        if received[i] == 0 {
            return Some(i);
        }
        i += 1;
    }
    None
}

/// The characters of `received[start..end]`, one for each byte.
fn parse_string(received: &[u8; MAX_PACKET_SIZE], start: usize, end: usize) -> (r: String)
    requires
        start <= end <= MAX_PACKET_SIZE,
    ensures
        r@ == byte_chars(received@.subrange(start as int, end as int)),
{
    let mut r = String::new();
    let mut i = start;
    while i < end
        invariant
            start <= i <= end <= MAX_PACKET_SIZE,
            r@ == byte_chars(received@.subrange(start as int, i as int)),
        decreases end - i,
    {
        push_char(&mut r, received[i] as char);
        i += 1;
        assert(r@ =~= byte_chars(received@.subrange(start as int, i as int)));
    }
    r
}

/// Whether `received[start..end]` spells `name`, up to the case of ASCII letters.
fn matches_ignoring_case(
    received: &[u8; MAX_PACKET_SIZE],
    start: usize,
    end: usize,
    name: &Vec<u8>,
) -> (r: bool)
    requires
        start <= end <= MAX_PACKET_SIZE,
    ensures
        r == same_ignoring_case(received@.subrange(start as int, end as int), name@),
{
    let ghost a = received@.subrange(start as int, end as int);
    if end - start != name.len() {
        return false;
    }
    let mut i: usize = 0;
    while i < name.len()
        invariant
            a == received@.subrange(start as int, end as int),
            a.len() == name@.len(),
            start + name@.len() == end <= MAX_PACKET_SIZE,
            i <= name@.len(),
            forall|j: int| 0 <= j < i ==> ascii_upper(#[trigger] a[j]) == ascii_upper(name@[j]),
        decreases name@.len() - i,
    {
        if to_upper(received[start + i]) != to_upper(name[i]) {
            assert(a[i as int] == received@[start + i]);
            return false;
        }
        i += 1;
    }
    true
}

/// `c` in upper case, where it is an ASCII letter.
fn to_upper(c: u8) -> (r: u8)
    ensures
        r == ascii_upper(c),
{
    if 0x61 <= c && c <= 0x7A {
        c - 0x20
    } else {
        c
    }
}

/// The mode that `received[start..end]` names, in any case.
fn parse_mode(received: &[u8; MAX_PACKET_SIZE], start: usize, end: usize) -> (r: Option<Mode>)
    requires
        start <= end <= MAX_PACKET_SIZE,
    ensures
        r == mode_from_name(received@.subrange(start as int, end as int)),
{
    if matches_ignoring_case(received, start, end, &Mode::Text.name_bytes()) {
        Some(Mode::Text)
    } else if matches_ignoring_case(received, start, end, &Mode::Binary.name_bytes()) {
        Some(Mode::Binary)
    } else {
        None
    }
}

/// Parses a read or write request.
pub fn decode_request(received: &[u8; MAX_PACKET_SIZE]) -> (r: Result<Request, TftprsError>)
    ensures
        r matches Ok(req) ==> request_from_wire(received@) == Some(
            (req.request, req.filename@, req.mode),
        ),
        r is Err ==> request_from_wire(received@) is None && r == Err::<Request, TftprsError>(
            TftprsError::BadPacketReceived,
        ),
{
    let ghost b = received@;
    assert(b.take(MAX_PACKET_SIZE as int) =~= b);
    let request = match read_u16(received, 0) {
        1 => RequestType::Read,
        2 => RequestType::Write,
        _ => return Err(TftprsError::BadPacketReceived),
    };
    let name_end = match find_terminator(received, 2, MAX_PACKET_SIZE) {
        Some(i) => i,
        None => return Err(TftprsError::BadPacketReceived),
    };
    let mode_end = match find_terminator(received, name_end + 1, MAX_PACKET_SIZE) {
        Some(i) => i,
        None => return Err(TftprsError::BadPacketReceived),
    };
    let mode = match parse_mode(received, name_end + 1, mode_end) {
        Some(m) => m,
        None => return Err(TftprsError::BadPacketReceived),
    };
    let filename = parse_string(received, 2, name_end);
    Ok(Request { request, filename, mode })
}

/// Parses the header of a data packet of `length` bytes: its block number and
/// the length of its payload, which follows the header in `received`.
pub fn decode_data(received: &[u8; MAX_PACKET_SIZE], length: usize) -> (r: Result<
    (u16, usize),
    TftprsError,
>)
    ensures
        r matches Ok((block, len)) ==> data_from_wire(received@, length as int) == Some(
            (block, len as int),
        ),
        r is Err ==> data_from_wire(received@, length as int) is None && r == Err::<
            (u16, usize),
            TftprsError,
        >(TftprsError::BadPacketReceived),
{
    if length < 4 || length > MAX_PACKET_SIZE || read_u16(received, 0) != OpCode::Data.code() {
        return Err(TftprsError::BadPacketReceived);
    }
    Ok((read_u16(received, 2), length - 4))
}

/// Parses an acknowledgement of `length` bytes.
pub fn decode_ack(received: &[u8; MAX_PACKET_SIZE], length: usize) -> (r: Result<
    Ack,
    TftprsError,
>)
    ensures
        r matches Ok(ack) ==> ack_from_wire(received@, length as int) == Some(ack.block),
        r is Err ==> ack_from_wire(received@, length as int) is None && r == Err::<
            Ack,
            TftprsError,
        >(TftprsError::BadPacketReceived),
{
    if length < 4 || length > MAX_PACKET_SIZE || read_u16(received, 0)
        != OpCode::Acknowledgement.code() {
        return Err(TftprsError::BadPacketReceived);
    }
    Ok(Ack::new(read_u16(received, 2)))
}

/// Parses an error packet of `length` bytes.
pub fn decode_error(received: &[u8; MAX_PACKET_SIZE], length: usize) -> (r: Result<
    ErrorResponse,
    TftprsError,
>)
    ensures
        r matches Ok(e) ==> error_from_wire(received@, length as int) == Some(
            (e.code, e.message@),
        ),
        r is Err ==> error_from_wire(received@, length as int) is None && r == Err::<
            ErrorResponse,
            TftprsError,
        >(TftprsError::BadPacketReceived),
{
    if length < 4 || length > MAX_PACKET_SIZE || read_u16(received, 0) != OpCode::Error.code() {
        return Err(TftprsError::BadPacketReceived);
    }
    let code = ErrorCode::from_code(read_u16(received, 2));
    let end = match find_terminator(received, 4, length) {
        Some(i) => i,
        None => length,
    };
    let message = parse_string(received, 4, end);
    Ok(ErrorResponse::new(code, message))
}

/// The buffer after `wire` is written at the start of `before`.
pub open spec fn written(before: Seq<u8>, wire: Seq<u8>) -> Seq<u8> {
    wire + before.subrange(wire.len() as int, before.len() as int)
}

/// A text that an error message or a filename can be: ASCII, with no zero character.
pub open spec fn plain_text(s: Seq<char>) -> bool {
    &&& is_ascii_chars(s)
    &&& forall|i: int| 0 <= i < s.len() ==> #[trigger] s[i] != '\0'
}

/// A 16-bit field reads back as the value written.
proof fn lemma_be16(v: u16, b: Seq<u8>, at: int)
    requires
        0 <= at,
        at + 2 <= b.len(),
        b[at] == be16(v)[0],
        b[at + 1] == be16(v)[1],
    ensures
        field16(b, at) == v,
{
    assert((v / 256) as u8 as int * 256 + (v % 256) as u8 as int == v as int);
}

/// The first zero byte at or after `i` is at `k` when the bytes between are not zero.
proof fn lemma_find_nul_at(b: Seq<u8>, i: int, k: int)
    requires
        0 <= i <= k < b.len(),
        b[k] == 0,
        forall|j: int| i <= j < k ==> b[j] != 0,
    ensures
        find_nul(b, i) == k,
    decreases k - i,
{
    if i < k {
        lemma_find_nul_at(b, i + 1, k);
    }
}

/// Plain text goes on the wire one byte for each character, none of them zero,
/// and reads back as itself.
proof fn lemma_plain_text_bytes(s: Seq<char>)
    requires
        plain_text(s),
    ensures
        text_bytes(s).len() == s.len(),
        forall|i: int| 0 <= i < s.len() ==> #[trigger] text_bytes(s)[i] != 0,
        byte_chars(text_bytes(s)) == s,
{
    is_ascii_chars_encode_utf8(s);
    is_ascii_chars_nat_bound(s);
    assert forall|i: int| 0 <= i < s.len() implies #[trigger] text_bytes(s)[i] != 0 && (text_bytes(
        s,
    )[i] as char) == s[i] by {
        assert(s[i] as u8 == text_bytes(s)[i]);
        assert((s[i] as nat) < 128);
        assert(s[i] != '\0');
    }
    assert(byte_chars(text_bytes(s)) =~= s);
}

/// Round trip of a request: a request whose filename is plain text and fits
/// reads back as the kind, filename and mode it was written with.
pub proof fn lemma_request_round_trip(
    kind: RequestType,
    filename: Seq<char>,
    mode: Mode,
    before: Seq<u8>,
)
    requires
        plain_text(filename),
        request_fits(mode, filename.len() as int),
        before.len() == MAX_PACKET_SIZE,
    ensures
        request_from_wire(written(before, request_wire(kind, filename, mode))) == Some(
            (kind, filename, mode),
        ),
{
    lemma_plain_text_bytes(filename);
    let name = text_bytes(filename);
    let n = name.len() as int;
    let w = request_wire(kind, filename, mode);
    let b = written(before, w);
    let m = mode_name(mode).len() as int;
    assert(b[0] == w[0] && b[1] == w[1]);
    lemma_be16(kind.spec_opcode().spec_code(), b, 0);
    assert forall|j: int| 2 <= j < 2 + n implies b[j] != 0 by {
        assert(b[j] == name[j - 2]);
    }
    assert(b[2 + n] == 0);
    lemma_find_nul_at(b, 2, 2 + n);
    assert forall|j: int| 3 + n <= j < 3 + n + m implies b[j] != 0 by {
        assert(b[j] == mode_name(mode)[j - 3 - n]);
    }
    assert(b[3 + n + m] == 0);
    lemma_find_nul_at(b, 3 + n, 3 + n + m);
    assert(b.subrange(3 + n, 3 + n + m) =~= mode_name(mode));
    assert(b.subrange(2, 2 + n) =~= name);
}

/// Round trip of a data packet: block `block` of `file` reads back as its block
/// number and its payload.
pub proof fn lemma_data_round_trip(block: u16, file: Seq<u8>, before: Seq<u8>)
    requires
        block >= 1,
        block_offset(block) <= file.len(),
        before.len() == MAX_PACKET_SIZE,
    ensures
        data_from_wire(written(before, data_wire(block, file)), data_wire(block, file).len() as int)
            == Some((block, data_payload(file, block).len() as int)),
        written(before, data_wire(block, file)).subrange(4, data_wire(block, file).len() as int)
            == data_payload(file, block),
{
    let w = data_wire(block, file);
    let b = written(before, w);
    assert(b[0] == w[0] && b[1] == w[1] && b[2] == w[2] && b[3] == w[3]);
    lemma_be16(OpCode::Data.spec_code(), b, 0);
    lemma_be16(block, b, 2);
    assert(b.subrange(4, w.len() as int) =~= data_payload(file, block));
}

/// Round trip of an acknowledgement: it reads back as its block number.
pub proof fn lemma_ack_round_trip(block: u16, before: Seq<u8>)
    requires
        before.len() == MAX_PACKET_SIZE,
    ensures
        ack_from_wire(written(before, ack_wire(block)), 4) == Some(block),
{
    let w = ack_wire(block);
    let b = written(before, w);
    assert(b[0] == w[0] && b[1] == w[1] && b[2] == w[2] && b[3] == w[3]);
    lemma_be16(OpCode::Acknowledgement.spec_code(), b, 0);
    lemma_be16(block, b, 2);
}

/// Round trip of an error packet: an error whose message is plain text and fits
/// reads back as its code and its message.
pub proof fn lemma_error_round_trip(code: ErrorCode, message: Seq<char>, before: Seq<u8>)
    requires
        plain_text(message),
        message.len() <= MAX_MESSAGE_SIZE,
        before.len() == MAX_PACKET_SIZE,
    ensures
        error_from_wire(written(before, error_wire(code, message)), error_wire(code, message).len() as int)
            == Some((code, message)),
{
    lemma_plain_text_bytes(message);
    let text = text_bytes(message);
    let n = text.len() as int;
    let w = error_wire(code, message);
    let b = written(before, w);
    let t = b.take(w.len() as int);
    assert(b[0] == w[0] && b[1] == w[1] && b[2] == w[2] && b[3] == w[3]);
    lemma_be16(OpCode::Error.spec_code(), b, 0);
    lemma_be16(code.spec_code(), b, 2);
    assert forall|j: int| 4 <= j < 4 + n implies t[j] != 0 by {
        assert(t[j] == text[j - 4]);
    }
    assert(t[4 + n] == 0);
    lemma_find_nul_at(t, 4, 4 + n);
    assert(b.subrange(4, 4 + n) =~= text);
}

} // verus!
