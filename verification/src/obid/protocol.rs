//! What a frame of the reader protocol can do: turn into bytes, and come
//! back from bytes.

use vstd::prelude::*;

verus! {

/// Which of the two frame shapes a codec error speaks of.
#[derive(Debug, Clone, Copy, PartialEq, Eq, Structural)]
pub enum FrameKind {
    /// A request of the host.
    HostToReader,
    /// A response of the reader.
    ReaderToHost,
}

/// Why a run of bytes is no frame.
#[derive(Debug, Clone, Copy, PartialEq, Eq, Structural)]
pub enum FrameError {
    /// The bytes are fewer than the smallest frame of that shape.
    FrameTooShort(FrameKind),
    /// The trailing checksum is not the checksum of the bytes before it.
    BadCrc(FrameKind),
}

impl FrameError {
    /// The text of the error.
    pub fn message(&self) -> (text: String)
        ensures
            text@ == frame_error_text(*self),
    {
        match self {
            FrameError::FrameTooShort(FrameKind::HostToReader) => String::from_str(
                "Invalid (short) length for HostToReader message",
            ),
            FrameError::FrameTooShort(FrameKind::ReaderToHost) => String::from_str(
                "Invalid (short) length for ReaderToHost message",
            ),
            FrameError::BadCrc(FrameKind::HostToReader) => String::from_str(
                "Invalid CRC16 for HostToReader message",
            ),
            FrameError::BadCrc(FrameKind::ReaderToHost) => String::from_str(
                "Invalid CRC16 for ReaderToHost message",
            ),
        }
    }
}

/// The text of a codec error.
pub open spec fn frame_error_text(error: FrameError) -> Seq<char> {
    match error {
        FrameError::FrameTooShort(FrameKind::HostToReader) =>
            "Invalid (short) length for HostToReader message"@,
        FrameError::FrameTooShort(FrameKind::ReaderToHost) =>
            "Invalid (short) length for ReaderToHost message"@,
        FrameError::BadCrc(FrameKind::HostToReader) => "Invalid CRC16 for HostToReader message"@,
        FrameError::BadCrc(FrameKind::ReaderToHost) => "Invalid CRC16 for ReaderToHost message"@,
    }
}

/// A frame that the host sends: it is serialized on its way out, and can
/// be read back from its own bytes.
pub trait ObidSerialSendable: Sized {
    /// Whether the frame's payload leaves room for the framing within the
    /// 16-bit length field.
    spec fn fits(&self) -> bool;

    /// The bytes of the frame on the wire.
    spec fn wire(&self) -> Seq<u8>;

    /// Lays the frame out as bytes and records its length and checksum in
    /// the frame itself.
    fn serialize(&mut self) -> (msg: Vec<u8>)
        requires
            old(self).fits(),
        ensures
            msg@ == old(self).wire(),
            final(self).wire() == old(self).wire(),
            final(self).fits(),
    ;

    /// Reads a frame of this shape back from bytes.
    fn _deserialize(data: &[u8]) -> (frame: Result<Self, FrameError>);
}

/// A frame that the host receives: it is read from bytes, and can be laid
/// out as bytes again.
pub trait ObidSerialReceivable: Sized {
    /// Whether the frame's payload leaves room for the framing within the
    /// 16-bit length field.
    spec fn fits(&self) -> bool;

    /// The bytes of the frame on the wire.
    spec fn wire(&self) -> Seq<u8>;

    /// Lays the frame out as bytes and records its length and checksum in
    /// the frame itself.
    fn _serialize(&mut self) -> (msg: Vec<u8>)
        requires
            old(self).fits(),
        ensures
            msg@ == old(self).wire(),
            final(self).wire() == old(self).wire(),
            final(self).fits(),
    ;

    /// Reads a frame of this shape from bytes.
    fn deserialize(data: &[u8]) -> (frame: Result<Self, FrameError>);
}

} // verus!
