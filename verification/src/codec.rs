//! Packets to and from byte buffers.

use vstd::prelude::*;
use crate::buffer::{buf_as_slice, buf_bytes, buf_clear};
use crate::error::{Error, ErrorView};
use crate::packet::Packet;
use crate::parse::spec_packet;

verus! {

/// Turns the contents of a buffer into a packet and a packet into the
/// contents of a buffer.
#[derive(Debug, Clone, Copy)]
pub struct Codec;

impl Codec {
    pub fn new() -> (c: Self) {
        Codec
    }

    /// Decodes the whole of `src` as one packet. The packet borrows its
    /// payload from the buffer.
    pub fn decode<'a>(&mut self, src: &'a bytes::BytesMut) -> (r: Result<Option<Packet<'a>>, Error>)
        ensures
            match spec_packet(buf_bytes(*src)) {
                Some(v) => r matches Ok(Some(p)) && p@ == v,
                None => r matches Err(e) && e@ == ErrorView::InvalidPacket,
            },
    {
        match Packet::decode(buf_as_slice(src)) {
            Ok(packet) => Ok(Some(packet)),
            Err(e) => Err(e),
        }
    }

    /// Replaces the contents of `dst` by the wire form of `item`.
    pub fn encode(&mut self, item: Packet<'_>, dst: &mut bytes::BytesMut) -> (r: Result<(), Error>)
        requires
            item@.spec_encode().len() <= isize::MAX,
        ensures
            r is Ok,
            buf_bytes(*final(dst)) == item@.spec_encode(),
    {
        buf_clear(dst);
        item.encode(dst);
        assert(buf_bytes(*dst) =~= item@.spec_encode());
        Ok(())
    }
}

} // verus!
