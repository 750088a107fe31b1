//! A wire packet: the decoded header followed by the opaque PCM payload,
//! with the parse and serialize directions of the packet codec.

use vstd::prelude::*;

use crate::header::{Header, HeaderView, spec_decode, spec_encode};

verus! {

/// Largest datagram the protocol sends or accepts.
pub const MAX_PACKET_SIZE: usize = 1464;

/// A wire-level decode failure.
#[derive(Clone, Copy, Debug, PartialEq, Eq, Structural)]
pub enum Error {
    /// The buffer does not begin with the protocol magic.
    MissingMagicNumber,
    /// The reserved bit of the format byte is set.
    MalformedFormat,
}

/// The mathematical content of a packet: the decoded header and the raw
/// payload bytes.
#[verifier::ext_equal]
pub ghost struct PacketView {
    pub header: HeaderView,
    pub data: Seq<u8>,
}

/// One wire packet: a header followed by an opaque payload.
#[derive(Debug)]
pub struct Packet {
    header: Header,
    /// The payload bytes as they stood on the wire.
    pub data: Vec<u8>,
}

impl View for Packet {
    type V = PacketView;

    closed spec fn view(&self) -> PacketView {
        PacketView { header: self.header@, data: self.data@ }
    }
}

impl Packet {
    /// A packet made of the given header and payload.
    pub fn new(header: Header, data: Vec<u8>) -> (r: Packet)
        ensures
            r@.header == header@,
            r@.data == data@,
    {
        Packet { header, data }
    }

    pub fn data(&self) -> (r: &Vec<u8>)
        ensures
            r@ == self@.data,
    {
        &self.data
    }

    pub fn header(&self) -> (r: &Header)
        ensures
            r@ == self@.header,
    {
        &self.header
    }

    pub fn header_mut(&mut self) -> (r: &mut Header)
        ensures
            r@ == old(self)@.header,
            final(self)@.header == final(r)@,
            final(self)@.data == old(self)@.data,
    {
        &mut self.header
    }

    /// Parse a datagram: decode the header from the first 28 bytes and copy
    /// the remainder out as the payload.
    pub fn parse(data: &[u8]) -> (r: Result<Packet, Error>)
        requires
            data@.len() >= 28,
        ensures
            (r is Err) == (spec_decode(data@) is Err),
            r matches Err(e) ==> spec_decode(data@) == Result::<HeaderView, Error>::Err(e),
            r matches Ok(p) ==> {
                &&& spec_decode(data@) == Result::<HeaderView, Error>::Ok(p@.header)
                &&& p@.data == data@.skip(28)
                &&& p@.header.wf()
            },
    {
        let header = match Header::decode(data) {
            Ok(h) => h,
            Err(e) => {
                return Err(e);
            },
        };
        let mut payload: Vec<u8> = Vec::new();
        let mut i: usize = 28;
        while i < data.len()
            invariant
                28 <= i <= data@.len(),
                payload@.len() == i - 28,
                forall|j: int| 0 <= j < i - 28 ==> #[trigger] payload@[j] == data@[j + 28],
            decreases data@.len() - i,
        {
            payload.push(data[i]);
            i = i + 1;
        }
        proof {
            assert(payload@ =~= data@.skip(28));
        }
        Ok(Packet { header, data: payload })
    }

    /// Serialize this packet: the 28 header bytes followed by the payload.
    pub fn serialize(&self) -> (r: Vec<u8>)
        requires
            self@.header.wf(),
        ensures
            r@ == spec_encode(self@.header) + self@.data,
    {
        let mut buf = self.header.encode();
        buf.extend_from_slice(self.data.as_slice());
        proof {
            assert(buf@ =~= spec_encode(self@.header) + self@.data);
        }
        buf
    }
}

} // verus!
