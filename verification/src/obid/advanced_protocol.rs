//! The advanced protocol of the reader: frames with a 16-bit length.
//!
//! A request is `02 | Lhi Llo | addr | ctl | payload | crc_lo crc_hi`; a
//! response carries one status byte more, between `ctl` and the payload.
//! `L` counts every byte of the frame, and the checksum covers every byte
//! before it.

use super::crc::{calc_crc16, crc16};
use super::endian::{
    lemma_bytes_of_u16, lemma_u16_of_bytes, read_u16_be, read_u16_le, u16_hi, u16_lo, u16_of,
    write_u16_be, write_u16_le,
};
use super::protocol::{FrameError, FrameKind, ObidSerialReceivable, ObidSerialSendable};
use vstd::prelude::*;
use vstd::slice::slice_subrange;
use vstd::std_specs::cmp::PartialEqSpecImpl;

verus! {

/// The start-of-text byte that opens every frame.
pub const STX: u8 = 0x02;

/// The bytes of a request around its payload: five before, two after.
pub const REQUEST_OVERHEAD: usize = 7;

/// The bytes of a response around its payload: six before, two after.
pub const RESPONSE_OVERHEAD: usize = 8;

/// The longest payload that a request can frame.
pub const MAX_REQUEST_DATA: usize = 0xFFFF - 7;

/// The longest payload that a response can frame.
pub const MAX_RESPONSE_DATA: usize = 0xFFFF - 8;

/// A request without its checksum.
pub open spec fn request_head(com_adr: u8, control_byte: u8, data: Seq<u8>) -> Seq<u8> {
    let length = (data.len() + REQUEST_OVERHEAD) as u16;
    seq![STX, u16_hi(length), u16_lo(length), com_adr, control_byte] + data
}

/// A response without its checksum.
pub open spec fn response_head(com_adr: u8, control_byte: u8, status: u8, data: Seq<u8>) -> Seq<
    u8,
> {
    let length = (data.len() + RESPONSE_OVERHEAD) as u16;
    seq![STX, u16_hi(length), u16_lo(length), com_adr, control_byte, status] + data
}

/// The bytes `head` followed by their checksum, low byte first.
pub open spec fn with_crc(head: Seq<u8>) -> Seq<u8> {
    head + seq![u16_lo(crc16(head)), u16_hi(crc16(head))]
}

/// The bytes of a request on the wire.
pub open spec fn request_frame(com_adr: u8, control_byte: u8, data: Seq<u8>) -> Seq<u8> {
    with_crc(request_head(com_adr, control_byte, data))
}

/// The bytes of a response on the wire.
pub open spec fn response_frame(com_adr: u8, control_byte: u8, status: u8, data: Seq<u8>) -> Seq<
    u8,
> {
    with_crc(response_head(com_adr, control_byte, status, data))
}

/// The checksum that the last two bytes of `bytes` hold.
pub open spec fn stored_crc(bytes: Seq<u8>) -> u16
    recommends
        bytes.len() >= 2,
{
    u16_of(bytes[bytes.len() - 1], bytes[bytes.len() - 2])
}

/// Whether the last two bytes of `bytes` hold the checksum of the bytes
/// before them.
pub open spec fn crc_matches(bytes: Seq<u8>) -> bool
    recommends
        bytes.len() >= 2,
{
    stored_crc(bytes) == crc16(bytes.take(bytes.len() - 2))
}

/// A request of the host to the reader.
#[derive(Debug)]
pub struct HostToReader {
    /// The length of the whole frame; set when the frame is serialized.
    pub alength: u16,
    /// The bus address of the reader; `0xFF` addresses every reader.
    pub com_adr: u8,
    /// The command that the reader is to carry out.
    pub control_byte: u8,
    /// The payload of the command.
    pub data: Vec<u8>,
    /// The checksum of the frame; set when the frame is serialized.
    pub crc16: u16,
    /// Whether the request is repeated while no transponder answers.
    pub device_required: bool,
}

/// A response of the reader to the host.
#[derive(Debug)]
pub struct ReaderToHost {
    /// The length of the whole frame, as the frame states it.
    pub alength: u16,
    /// The bus address of the reader.
    pub com_adr: u8,
    /// The command that the reader has carried out.
    pub control_byte: u8,
    /// The raw status of the command.
    pub status: u8,
    /// The payload of the response.
    pub data: Vec<u8>,
    /// The checksum of the frame.
    pub crc16: u16,
}

/// Whether two byte vectors hold the same bytes.
fn same_bytes(a: &Vec<u8>, b: &Vec<u8>) -> (same: bool)
    ensures
        same == (a@ == b@),
{
    if a.len() != b.len() {
        return false;
    }
    let mut i: usize = 0;
    while i < a.len()
        invariant
            i <= a.len(),
            a.len() == b.len(),
            a@.take(i as int) == b@.take(i as int),
        decreases a.len() - i,
    {
        if a[i] != b[i] {
            proof {
                assert(a@[i as int] != b@[i as int]);
            }
            return false;
        }
        proof {
            assert(a@.take(i + 1) == a@.take(i as int).push(a@[i as int]));
            assert(b@.take(i + 1) == b@.take(i as int).push(b@[i as int]));
        }
        i = i + 1;
    }
    proof {
        assert(a@.take(i as int) == a@);
        assert(b@.take(i as int) == b@);
    }
    true
}

/// A copy of the bytes of `data` from `from` up to `to`.
fn copy_range(data: &[u8], from: usize, to: usize) -> (out: Vec<u8>)
    requires
        from <= to <= data@.len(),
    ensures
        out@ == data@.subrange(from as int, to as int),
{
    let mut out: Vec<u8> = Vec::new();
    let mut i: usize = from;
    while i < to
        invariant
            from <= i <= to <= data@.len(),
            out@ == data@.subrange(from as int, i as int),
        decreases to - i,
    {
        out.push(data[i]);
        proof {
            assert(data@.subrange(from as int, i + 1) == data@.subrange(
                from as int,
                i as int,
            ).push(data@[i as int]));
        }
        i = i + 1;
    }
    out
}

/// Appends the bytes of `data` to `msg`.
fn push_all(msg: &mut Vec<u8>, data: &Vec<u8>)
    ensures
        final(msg)@ == old(msg)@ + data@,
{
    let mut i: usize = 0;
    while i < data.len()
        invariant
            i <= data.len(),
            msg@ == old(msg)@ + data@.take(i as int),
        decreases data.len() - i,
    {
        msg.push(data[i]);
        proof {
            assert(data@.take(i + 1) == data@.take(i as int).push(data@[i as int]));
        }
        i = i + 1;
    }
    proof {
        assert(data@.take(i as int) == data@);
    }
}

/// Completes a frame whose head is in `msg` and whose length bytes are
/// still blank: writes `length` big-endian at offset 1 and appends the
/// checksum of the head, low byte first. Returns the checksum.
fn seal(msg: &mut Vec<u8>, length: u16) -> (crc: u16)
    requires
        3 <= old(msg)@.len() <= usize::MAX - 2,
    ensures
        final(msg)@ == with_crc(old(msg)@.update(1, u16_hi(length)).update(2, u16_lo(length))),
        crc == crc16(old(msg)@.update(1, u16_hi(length)).update(2, u16_lo(length))),
{
    write_u16_be(msg, 1, length);
    let ghost head = msg@;
    let n: usize = msg.len();
    let crc = calc_crc16(msg.as_slice());
    msg.push(0);
    msg.push(0);
    write_u16_le(msg, n, crc);
    proof {
        assert(msg@ == with_crc(head));
    }
    crc
}

impl HostToReader {
    /// A request with the given fields. The length and the checksum are
    /// taken as given; `serialize` sets them to what the frame has.
    pub fn new(
        alength: u16,
        com_adr: u8,
        control_byte: u8,
        data: &[u8],
        crc16: u16,
        device_required: bool,
    ) -> (request: HostToReader)
        ensures
            request.alength == alength,
            request.com_adr == com_adr,
            request.control_byte == control_byte,
            request.data@ == data@,
            request.crc16 == crc16,
            request.device_required == device_required,
    {
        let n: usize = data.len();
        HostToReader {
            alength,
            com_adr,
            control_byte,
            data: copy_range(data, 0, n),
            crc16,
            device_required,
        }
    }

    /// What `==` compares: the fields of the frame. The repeat flag is no
    /// part of the frame.
    pub open spec fn same_frame(&self, other: &Self) -> bool {
        &&& self.alength == other.alength
        &&& self.com_adr == other.com_adr
        &&& self.control_byte == other.control_byte
        &&& self.data@ == other.data@
        &&& self.crc16 == other.crc16
    }

    /// The request as `serialize` leaves it: the length and the checksum
    /// are those of its frame.
    pub open spec fn sealed(self) -> HostToReader {
        HostToReader {
            alength: (self.data@.len() + REQUEST_OVERHEAD) as u16,
            crc16: crc16(request_head(self.com_adr, self.control_byte, self.data@)),
            ..self
        }
    }

    /// Whether this request is what `bytes` hold: each field is read from
    /// its place in the frame, and the repeat flag is off.
    pub open spec fn is_parse_of(&self, bytes: Seq<u8>) -> bool {
        &&& self.alength == u16_of(bytes[1], bytes[2])
        &&& self.com_adr == bytes[3]
        &&& self.control_byte == bytes[4]
        &&& self.data@ == bytes.subrange(5, bytes.len() - 2)
        &&& self.crc16 == stored_crc(bytes)
        &&& !self.device_required
    }
}

impl PartialEq for HostToReader {
    /// Two requests are equal when their frames are: the repeat flag is
    /// not part of the frame and is not compared.
    fn eq(&self, other: &Self) -> (equal: bool) {
        self.alength == other.alength && self.com_adr == other.com_adr && self.control_byte
            == other.control_byte && same_bytes(&self.data, &other.data) && self.crc16
            == other.crc16
    }
}

impl PartialEqSpecImpl for HostToReader {
    open spec fn obeys_eq_spec() -> bool {
        true
    }

    open spec fn eq_spec(&self, other: &Self) -> bool {
        self.same_frame(other)
    }
}

impl ObidSerialSendable for HostToReader {
    open spec fn fits(&self) -> bool {
        self.data@.len() <= MAX_REQUEST_DATA
    }

    open spec fn wire(&self) -> Seq<u8> {
        request_frame(self.com_adr, self.control_byte, self.data@)
    }

    fn serialize(&mut self) -> (msg: Vec<u8>)
        ensures
            *final(self) == old(self).sealed(),
    {
        let length: u16 = (self.data.len() + REQUEST_OVERHEAD) as u16;
        let mut msg: Vec<u8> = Vec::new();
        msg.push(STX);
        msg.push(0);
        msg.push(0);
        msg.push(self.com_adr);
        msg.push(self.control_byte);
        push_all(&mut msg, &self.data);
        let ghost blank = msg@;
        let crc = seal(&mut msg, length);
        proof {
            assert(blank.update(1, u16_hi(length)).update(2, u16_lo(length)) == request_head(
                self.com_adr,
                self.control_byte,
                self.data@,
            ));
        }
        self.alength = length;
        self.crc16 = crc;
        msg
    }

    fn _deserialize(data: &[u8]) -> (frame: Result<Self, FrameError>)
        ensures
            data@.len() < REQUEST_OVERHEAD <==> frame == Err::<Self, FrameError>(
                FrameError::FrameTooShort(FrameKind::HostToReader),
            ),
            data@.len() >= REQUEST_OVERHEAD && !crc_matches(data@) <==> frame == Err::<
                Self,
                FrameError,
            >(FrameError::BadCrc(FrameKind::HostToReader)),
            data@.len() >= REQUEST_OVERHEAD && crc_matches(data@) <==> frame is Ok,
            frame is Ok ==> frame->Ok_0.is_parse_of(data@),
    {
        let n: usize = data.len();
        if n < REQUEST_OVERHEAD {
            return Err(FrameError::FrameTooShort(FrameKind::HostToReader));
        }
        let n_2: usize = n - 2;
        let crc16 = read_u16_le(slice_subrange(data, n_2, n));
        proof {
            assert(data@.subrange(0, n_2 as int) == data@.take(n_2 as int));
        }
        if calc_crc16(slice_subrange(data, 0, n_2)) != crc16 {
            return Err(FrameError::BadCrc(FrameKind::HostToReader));
        }
        let alength = read_u16_be(slice_subrange(data, 1, 3));
        Ok(
            HostToReader {
                alength,
                com_adr: data[3],
                control_byte: data[4],
                data: copy_range(data, 5, n_2),
                crc16,
                device_required: false,
            },
        )
    }
}

impl ReaderToHost {
    /// A response with the given fields. The length and the checksum are
    /// taken as given; `_serialize` sets them to what the frame has.
    pub fn new(
        alength: u16,
        com_adr: u8,
        control_byte: u8,
        status: u8,
        data: &[u8],
        crc16: u16,
    ) -> (response: ReaderToHost)
        ensures
            response.alength == alength,
            response.com_adr == com_adr,
            response.control_byte == control_byte,
            response.status == status,
            response.data@ == data@,
            response.crc16 == crc16,
    {
        let n: usize = data.len();
        ReaderToHost { alength, com_adr, control_byte, status, data: copy_range(data, 0, n), crc16 }
    }

    /// What `==` compares: the fields of the frame.
    pub open spec fn same_frame(&self, other: &Self) -> bool {
        &&& self.alength == other.alength
        &&& self.com_adr == other.com_adr
        &&& self.control_byte == other.control_byte
        &&& self.status == other.status
        &&& self.data@ == other.data@
        &&& self.crc16 == other.crc16
    }

    /// The response as `_serialize` leaves it: the length and the checksum
    /// are those of its frame.
    pub open spec fn sealed(self) -> ReaderToHost {
        ReaderToHost {
            alength: (self.data@.len() + RESPONSE_OVERHEAD) as u16,
            crc16: crc16(
                response_head(self.com_adr, self.control_byte, self.status, self.data@),
            ),
            ..self
        }
    }

    /// Whether this response is what `bytes` hold: each field is read from
    /// its place in the frame.
    pub open spec fn is_parse_of(&self, bytes: Seq<u8>) -> bool {
        &&& self.alength == u16_of(bytes[1], bytes[2])
        &&& self.com_adr == bytes[3]
        &&& self.control_byte == bytes[4]
        &&& self.status == bytes[5]
        &&& self.data@ == bytes.subrange(6, bytes.len() - 2)
        &&& self.crc16 == stored_crc(bytes)
    }
}

impl PartialEq for ReaderToHost {
    /// Two responses are equal when all of their fields are.
    fn eq(&self, other: &Self) -> (equal: bool) {
        self.alength == other.alength && self.com_adr == other.com_adr && self.control_byte
            == other.control_byte && self.status == other.status && same_bytes(
            &self.data,
            &other.data,
        ) && self.crc16 == other.crc16
    }
}

impl PartialEqSpecImpl for ReaderToHost {
    open spec fn obeys_eq_spec() -> bool {
        true
    }

    open spec fn eq_spec(&self, other: &Self) -> bool {
        self.same_frame(other)
    }
}

impl ObidSerialReceivable for ReaderToHost {
    open spec fn fits(&self) -> bool {
        self.data@.len() <= MAX_RESPONSE_DATA
    }

    open spec fn wire(&self) -> Seq<u8> {
        response_frame(self.com_adr, self.control_byte, self.status, self.data@)
    }

    fn _serialize(&mut self) -> (msg: Vec<u8>)
        ensures
            *final(self) == old(self).sealed(),
    {
        let length: u16 = (self.data.len() + RESPONSE_OVERHEAD) as u16;
        let mut msg: Vec<u8> = Vec::new();
        msg.push(STX);
        msg.push(0);
        msg.push(0);
        msg.push(self.com_adr);
        msg.push(self.control_byte);
        msg.push(self.status);
        push_all(&mut msg, &self.data);
        let ghost blank = msg@;
        let crc = seal(&mut msg, length);
        proof {
            assert(blank.update(1, u16_hi(length)).update(2, u16_lo(length)) == response_head(
                self.com_adr,
                self.control_byte,
                self.status,
                self.data@,
            ));
        }
        self.alength = length;
        self.crc16 = crc;
        msg
    }

    fn deserialize(data: &[u8]) -> (frame: Result<Self, FrameError>)
        ensures
            data@.len() < RESPONSE_OVERHEAD <==> frame == Err::<Self, FrameError>(
                FrameError::FrameTooShort(FrameKind::ReaderToHost),
            ),
            data@.len() >= RESPONSE_OVERHEAD && !crc_matches(data@) <==> frame == Err::<
                Self,
                FrameError,
            >(FrameError::BadCrc(FrameKind::ReaderToHost)),
            data@.len() >= RESPONSE_OVERHEAD && crc_matches(data@) <==> frame is Ok,
            frame is Ok ==> frame->Ok_0.is_parse_of(data@),
    {
        let n: usize = data.len();
        if n < RESPONSE_OVERHEAD {
            return Err(FrameError::FrameTooShort(FrameKind::ReaderToHost));
        }
        let n_2: usize = n - 2;
        let crc16 = read_u16_le(slice_subrange(data, n_2, n));
        proof {
            assert(data@.subrange(0, n_2 as int) == data@.take(n_2 as int));
        }
        if calc_crc16(slice_subrange(data, 0, n_2)) != crc16 {
            return Err(FrameError::BadCrc(FrameKind::ReaderToHost));
        }
        let alength = read_u16_be(slice_subrange(data, 1, 3));
        Ok(
            ReaderToHost {
                alength,
                com_adr: data[3],
                control_byte: data[4],
                status: data[5],
                data: copy_range(data, 6, n_2),
                crc16,
            },
        )
    }
}

/// The bytes `head` with their checksum behind them pass the checksum
/// test, and the checksum that they store is that of `head`.
pub proof fn lemma_with_crc_matches(head: Seq<u8>)
    ensures
        with_crc(head).len() == head.len() + 2,
        with_crc(head).take(head.len() as int) == head,
        stored_crc(with_crc(head)) == crc16(head),
        crc_matches(with_crc(head)),
{
    lemma_u16_of_bytes(crc16(head));
    assert(with_crc(head).take(head.len() as int) == head);
}

/// Reading back what was written gives the request that was written: the
/// frame of a request whose payload fits is long enough and passes the
/// checksum test, and the request read from it equals the request as
/// serializing left it.
pub proof fn lemma_request_round_trip(request: HostToReader, parsed: HostToReader)
    requires
        request.fits(),
        parsed.is_parse_of(request.wire()),
    ensures
        request.wire().len() == request.data@.len() + REQUEST_OVERHEAD,
        crc_matches(request.wire()),
        parsed.same_frame(&request.sealed()),
{
    let head = request_head(request.com_adr, request.control_byte, request.data@);
    let length = (request.data@.len() + REQUEST_OVERHEAD) as u16;
    lemma_with_crc_matches(head);
    lemma_u16_of_bytes(length);
    assert(request.wire().subrange(5, request.wire().len() - 2) == request.data@);
}

/// Reading back what was written gives the response that was written: the
/// frame of a response whose payload fits is long enough and passes the
/// checksum test, and the response read from it equals the response as
/// serializing left it.
pub proof fn lemma_response_round_trip(response: ReaderToHost, parsed: ReaderToHost)
    requires
        response.fits(),
        parsed.is_parse_of(response.wire()),
    ensures
        response.wire().len() == response.data@.len() + RESPONSE_OVERHEAD,
        crc_matches(response.wire()),
        parsed.same_frame(&response.sealed()),
{
    let head = response_head(
        response.com_adr,
        response.control_byte,
        response.status,
        response.data@,
    );
    let length = (response.data@.len() + RESPONSE_OVERHEAD) as u16;
    lemma_with_crc_matches(head);
    lemma_u16_of_bytes(length);
    assert(response.wire().subrange(6, response.wire().len() - 2) == response.data@);
}

/// A frame that passes the checksum test no longer passes it once one of
/// its bytes has changed, whichever byte it is: the length, the address,
/// the payload or the checksum itself.
pub proof fn lemma_corruption_detected(bytes: Seq<u8>, corrupted: Seq<u8>, at: int)
    requires
        bytes.len() >= 2,
        crc_matches(bytes),
        corrupted.len() == bytes.len(),
        0 <= at < bytes.len(),
        corrupted[at] != bytes[at],
        forall|j: int| 0 <= j < bytes.len() && j != at ==> corrupted[j] == bytes[j],
    ensures
        !crc_matches(corrupted),
{
    let n = bytes.len() as int;
    let head = bytes.take(n - 2);
    let bad_head = corrupted.take(n - 2);
    if at < n - 2 {
        super::crc::lemma_crc_detects_one_byte(super::crc::CRC_INIT, head, bad_head, at);
    } else {
        assert(head == bad_head);
        lemma_bytes_of_u16(bytes[n - 1], bytes[n - 2]);
        lemma_bytes_of_u16(corrupted[n - 1], corrupted[n - 2]);
    }
}

/// A frame that passes the checksum test no longer passes it once one bit
/// of it has flipped.
pub proof fn lemma_bit_flip_detected(bytes: Seq<u8>, at: int, bit: u8)
    requires
        bytes.len() >= 2,
        crc_matches(bytes),
        0 <= at < bytes.len(),
        bit < 8,
    ensures
        !crc_matches(bytes.update(at, bytes[at] ^ (1u8 << bit))),
{
    let byte = bytes[at];
    assert(bit < 8 ==> byte ^ (1u8 << bit) != byte) by (bit_vector);
    lemma_corruption_detected(bytes, bytes.update(at, byte ^ (1u8 << bit)), at);
}

} // verus!
