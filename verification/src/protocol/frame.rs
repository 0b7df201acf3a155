//! Frames on the wire: a header of kind, stream and length, then the payload.
use crate::protocol::framed::{Frame, FrameType};
use vstd::bytes::{
    lemma_auto_spec_u32_to_from_le_bytes, spec_u32_from_le_bytes, spec_u32_to_le_bytes,
    u32_from_le_bytes, u32_to_le_bytes,
};
use vstd::prelude::*;
use vstd::slice::slice_subrange;

verus! {

/// What a framed connection opens with.
pub const FRAMED_MAGIC: &'static str = "HRDR";

/// The length of a frame's header.
pub const FRAME_HEADER_BYTES: usize = 9;

/// The longest payload a frame may carry.
pub const MAX_FRAME_PAYLOAD: usize = 4_194_304;

/// The mathematical value of a frame.
pub struct FrameModel {
    pub frame_type: FrameType,
    pub stream_id: u32,
    pub payload: Seq<u8>,
}

impl View for Frame {
    type V = FrameModel;

    open spec fn view(&self) -> FrameModel {
        FrameModel {
            frame_type: self.frame_type,
            stream_id: self.stream_id,
            payload: self.payload@,
        }
    }
}

/// A frame's header.
#[derive(Clone, Copy, PartialEq, Eq, Structural, Debug)]
pub struct FrameHeader {
    pub frame_type: FrameType,
    pub stream_id: u32,
    pub payload_len: u32,
}

/// Why bytes are no frame.
#[derive(Clone, Copy, PartialEq, Eq, Structural, Debug)]
pub enum FrameError {
    UnknownType(u8),
    Oversized(u32),
}

pub open spec fn type_byte(t: FrameType) -> u8 {
    match t {
        FrameType::Control => 1,
        FrameType::Data => 2,
    }
}

/// A frame on the wire.
pub open spec fn frame_bytes(f: FrameModel) -> Seq<u8> {
    seq![type_byte(f.frame_type)] + spec_u32_to_le_bytes(f.stream_id) + spec_u32_to_le_bytes(
        f.payload.len() as u32,
    ) + f.payload
}

/// The header that bytes begin with.
pub open spec fn header_of(b: Seq<u8>) -> Result<FrameHeader, FrameError> {
    let n = spec_u32_from_le_bytes(b.subrange(5, 9));
    let stream_id = spec_u32_from_le_bytes(b.subrange(1, 5));
    if b[0] != 1 && b[0] != 2 {
        Err(FrameError::UnknownType(b[0]))
    } else if n > MAX_FRAME_PAYLOAD {
        Err(FrameError::Oversized(n))
    } else {
        Ok(
            FrameHeader {
                frame_type: if b[0] == 1 {
                    FrameType::Control
                } else {
                    FrameType::Data
                },
                stream_id,
                payload_len: n,
            },
        )
    }
}

/// Decodes a header.
pub fn decode_frame_header(bytes: &[u8]) -> (r: Result<FrameHeader, FrameError>)
    requires
        bytes@.len() >= FRAME_HEADER_BYTES,
    ensures
        r == header_of(bytes@),
{
    let kind: u8 = bytes[0];
    if kind != 1 && kind != 2 {
        return Err(FrameError::UnknownType(kind));
    }
    let n: u32 = u32_from_le_bytes(slice_subrange(bytes, 5, 9));
    if n as usize > MAX_FRAME_PAYLOAD {
        return Err(FrameError::Oversized(n));
    }
    let stream_id: u32 = u32_from_le_bytes(slice_subrange(bytes, 1, 5));
    let frame_type = if kind == 1 {
        FrameType::Control
    } else {
        FrameType::Data
    };
    Ok(FrameHeader { frame_type, stream_id, payload_len: n })
}

/// Encodes a frame; one whose payload is too long is refused.
pub fn encode_frame(frame_type: FrameType, stream_id: u32, payload: &[u8]) -> (r: Option<Vec<u8>>)
    ensures
        match r {
            Some(b) => payload@.len() <= MAX_FRAME_PAYLOAD && b@ == frame_bytes(
                FrameModel { frame_type, stream_id, payload: payload@ },
            ),
            None => payload@.len() > MAX_FRAME_PAYLOAD,
        },
{
    if payload.len() > MAX_FRAME_PAYLOAD {
        return None;
    }
    let kind: u8 = match frame_type {
        FrameType::Control => 1,
        FrameType::Data => 2,
    };
    let mut out: Vec<u8> = Vec::new();
    out.push(kind);
    let mut id = u32_to_le_bytes(stream_id);
    let mut len = u32_to_le_bytes(payload.len() as u32);
    out.append(&mut id);
    out.append(&mut len);
    out.extend_from_slice(payload);
    assert(out@ =~= frame_bytes(FrameModel { frame_type, stream_id, payload: payload@ }));
    Some(out)
}

/// What a buffer gives: nothing until a frame is whole, then that frame and
/// the bytes behind it.
pub open spec fn first_frame(b: Seq<u8>) -> Result<Option<(FrameModel, Seq<u8>)>, FrameError> {
    if b.len() < FRAME_HEADER_BYTES {
        Ok(None)
    } else {
        match header_of(b) {
            Err(e) => Err(e),
            Ok(h) => if b.len() < FRAME_HEADER_BYTES + h.payload_len {
                Ok(None)
            } else {
                Ok(
                    Some(
                        (
                            FrameModel {
                                frame_type: h.frame_type,
                                stream_id: h.stream_id,
                                payload: b.subrange(
                                    FRAME_HEADER_BYTES as int,
                                    FRAME_HEADER_BYTES + h.payload_len,
                                ),
                            },
                            b.skip(FRAME_HEADER_BYTES + h.payload_len),
                        ),
                    ),
                )
            },
        }
    }
}

/// Gathers partial reads and gives out whole frames.
#[derive(Debug)]
pub struct FrameReader {
    pub buf: Vec<u8>,
}

impl FrameReader {
    pub fn new() -> (r: Self)
        ensures
            r.buf@ == Seq::<u8>::empty(),
    {
        FrameReader { buf: Vec::new() }
    }

    /// Takes in what was read.
    pub fn feed(&mut self, chunk: &[u8])
        ensures
            final(self).buf@ == old(self).buf@ + chunk@,
    {
        let ghost before = self.buf@;
        self.buf.extend_from_slice(chunk);
        assert(self.buf@ =~= before + chunk@);
    }

    /// Gives out the next frame if it is whole.
    pub fn take_buffered_frame(&mut self) -> (r: Result<Option<Frame>, FrameError>)
        ensures
            match r {
                Err(e) => first_frame(old(self).buf@) == Err::<
                    Option<(FrameModel, Seq<u8>)>,
                    FrameError,
                >(e) && *final(self) == *old(self),
                Ok(None) => first_frame(old(self).buf@) == Ok::<
                    Option<(FrameModel, Seq<u8>)>,
                    FrameError,
                >(None) && *final(self) == *old(self),
                Ok(Some(f)) => first_frame(old(self).buf@) == Ok::<
                    Option<(FrameModel, Seq<u8>)>,
                    FrameError,
                >(Some((f@, final(self).buf@))),
            },
    {
        let ghost before = self.buf@;
        if self.buf.len() < FRAME_HEADER_BYTES {
            return Ok(None);
        }
        let header = match decode_frame_header(self.buf.as_slice()) {
            Ok(h) => h,
            Err(e) => return Err(e),
        };
        let total: usize = FRAME_HEADER_BYTES + header.payload_len as usize;
        if self.buf.len() < total {
            return Ok(None);
        }
        let rest = self.buf.split_off(total);
        let payload = self.buf.split_off(FRAME_HEADER_BYTES);
        self.buf = rest;
        assert(payload@ =~= before.subrange(FRAME_HEADER_BYTES as int, total as int));
        assert(self.buf@ =~= before.skip(total as int));
        Ok(
            Some(
                Frame { frame_type: header.frame_type, stream_id: header.stream_id, payload },
            ),
        )
    }
}

/// A frame that was written is read back, and nothing behind it is touched.
pub proof fn frames_read_back(f: FrameModel, rest: Seq<u8>)
    requires
        f.payload.len() <= MAX_FRAME_PAYLOAD,
    ensures
        first_frame(frame_bytes(f) + rest) == Ok::<Option<(FrameModel, Seq<u8>)>, FrameError>(
            Some((f, rest)),
        ),
{
    lemma_auto_spec_u32_to_from_le_bytes();
    let b = frame_bytes(f) + rest;
    let n = f.payload.len() as u32;
    assert(b.subrange(1, 5) =~= spec_u32_to_le_bytes(f.stream_id));
    assert(b.subrange(5, 9) =~= spec_u32_to_le_bytes(n));
    assert(b[0] == type_byte(f.frame_type));
    assert(b.subrange(9, 9 + n) =~= f.payload);
    assert(b.skip(9 + n) =~= rest);
}

/// A frame that is not yet whole gives nothing, however it was cut.
pub proof fn cut_frames_wait(f: FrameModel, n: int)
    requires
        f.payload.len() <= MAX_FRAME_PAYLOAD,
        0 <= n < frame_bytes(f).len(),
    ensures
        first_frame(frame_bytes(f).take(n)) == Ok::<Option<(FrameModel, Seq<u8>)>, FrameError>(
            None,
        ),
{
    lemma_auto_spec_u32_to_from_le_bytes();
    let b = frame_bytes(f).take(n);
    let len = f.payload.len() as u32;
    if n >= FRAME_HEADER_BYTES {
        assert(b.subrange(1, 5) =~= spec_u32_to_le_bytes(f.stream_id));
        assert(b.subrange(5, 9) =~= spec_u32_to_le_bytes(len));
        assert(b[0] == type_byte(f.frame_type));
    }
}

/// Many frames on the wire.
pub open spec fn stream_bytes(frames: Seq<FrameModel>) -> Seq<u8>
    decreases frames.len(),
{
    if frames.len() == 0 {
        Seq::empty()
    } else {
        frame_bytes(frames[0]) + stream_bytes(frames.drop_first())
    }
}

/// Frames come out in the order in which they went in.
pub proof fn frames_keep_their_order(frames: Seq<FrameModel>)
    requires
        frames.len() > 0,
        frames[0].payload.len() <= MAX_FRAME_PAYLOAD,
    ensures
        first_frame(stream_bytes(frames)) == Ok::<Option<(FrameModel, Seq<u8>)>, FrameError>(
            Some((frames[0], stream_bytes(frames.drop_first()))),
        ),
{
    frames_read_back(frames[0], stream_bytes(frames.drop_first()));
}

} // verus!
