//! Bytes received from the module, and the frames taken out of them.
use vstd::prelude::*;

use crate::error::Error;
use crate::protocol::frame::{spec_scan_header, Frame, HEADER, HEADER_SIZE};
use crate::bytes::le16;

verus! {

/// The bytes read from the serial line and not yet taken as a frame.
#[derive(Debug, Clone, PartialEq, Eq)]
pub struct StreamReader {
    pub buffer: Vec<u8>,
}

impl StreamReader {
    pub fn new() -> (r: Self)
        ensures
            r.buffer@.len() == 0,
    {
        StreamReader { buffer: Vec::new() }
    }

    /// Adds bytes read from the line.
    pub fn put(&mut self, data: &[u8])
        ensures
            final(self).buffer@ == old(self).buffer@ + data@,
    {
        crate::bytes::extend_bytes(&mut self.buffer, data);
    }

    /// Whether nothing is held.
    pub fn is_empty(&self) -> (b: bool)
        ensures
            b == (self.buffer@.len() == 0),
    {
        self.buffer.len() == 0
    }

    /// Whether the bytes held can be handed to `parse_frame`: they do not yet hold
    /// a whole frame, or the frame they hold is one the decoder does not stop on.
    pub fn parsable(&self) -> (b: bool)
        ensures
            b == !Frame::spec_parse_panics(self.buffer@, 0),
    {
        let buf = self.buffer.as_slice();
        let end = buf.len();
        let mut p: usize = 0;
        while p < end && buf[p] != HEADER
            invariant
                p <= end,
                end == buf@.len(),
                spec_scan_header(buf@, p as int) == spec_scan_header(buf@, 0),
            decreases end - p,
        {
            p = p + 1;
        }
        if end - p < HEADER_SIZE {
            return true;
        }
        let length = crate::bytes::u16_from_le(buf[1], buf[2]) as usize;
        if end - p < length {
            return true;
        }
        let bytes = crate::bytes::copy_range(buf, p, p + length);
        Frame::decodable(bytes.as_slice())
    }

    /// Takes the first frame out of the bytes held: the bytes before it and the
    /// frame go; when the bytes do not yet hold a whole frame, or hold a bad one,
    /// everything stays.
    pub fn parse_frame(&mut self) -> (r: Result<Option<Frame>, Error>)
        requires
            !Frame::spec_parse_panics(old(self).buffer@, 0),
        ensures
            ({
                let buf = old(self).buffer@;
                let start = spec_scan_header(buf, 0);
                let length = le16(buf[1], buf[2]) as int;
                let complete = buf.len() - start >= HEADER_SIZE && buf.len() - start >= length;
                let frame_bytes = buf.subrange(start, start + length);
                &&& !complete ==> r == Ok::<Option<Frame>, Error>(None) && final(self).buffer@ == buf
                &&& complete ==> {
                    &&& r is Ok <==> Frame::spec_decode_error(frame_bytes) is None
                    &&& r matches Err(e) ==> Frame::spec_decode_error(frame_bytes) == Some(e)
                        && final(self).buffer@ == buf
                    &&& r matches Ok(f) ==> (f matches Some(f) && f.spec_decoded_from(frame_bytes)
                        && final(self).buffer@ == buf.skip(start + length))
                }
            }),
    {
        let mut pos: usize = 0;
        let r = Frame::parse(self.buffer.as_slice(), &mut pos);
        match r {
            Ok(Some(f)) => {
                let n = self.buffer.len();
                let rest = crate::bytes::copy_range(self.buffer.as_slice(), pos, n);
                assert(rest@ =~= self.buffer@.skip(pos as int));
                self.buffer = rest;
                Ok(Some(f))
            },
            Ok(None) => Ok(None),
            Err(e) => Err(e),
        }
    }
}

} // verus!
