//! Messages with a header in front.
//!
//! On the wire a header is preceded by its length, as an integer of variable length.

use crate::varint::{decode_u32, encode_u32, UviError};
use vstd::prelude::*;

verus! {

/// Header of a request.
#[derive(Debug, Clone, Copy, PartialEq, Eq, Structural)]
pub struct RequestHeader;

/// Header of a response.
#[derive(Debug, Clone, Copy, PartialEq, Eq, Structural)]
pub struct ResponseHeader {
    /// How many more requests the receiver of the response may send.
    pub credit: u16,
}

/// A request with its header.
#[derive(Debug, Clone, PartialEq, Eq)]
pub struct Request<B> {
    /// The header.
    pub header: RequestHeader,
    /// The body.
    pub body: B,
}

/// A response with its header.
#[derive(Debug, Clone, PartialEq, Eq)]
pub struct Response<B> {
    /// The header.
    pub header: ResponseHeader,
    /// The body.
    pub body: B,
}

impl<B> Request<B> {
    /// A request with the given body.
    pub fn new(body: B) -> (r: Self)
        ensures
            r == (Request { header: RequestHeader, body }),
    {
        Request { header: RequestHeader, body }
    }

    /// The header.
    pub fn header(&self) -> (r: &RequestHeader)
        ensures
            *r == self.header,
    {
        &self.header
    }

    /// The body.
    pub fn body(&self) -> (r: &B)
        ensures
            *r == self.body,
    {
        &self.body
    }

    /// Gives up the header.
    pub fn into_body(self) -> (r: B)
        ensures
            r == self.body,
    {
        self.body
    }

    /// The header and the body.
    pub fn into_parts(self) -> (r: (RequestHeader, B))
        ensures
            r == (self.header, self.body),
    {
        (self.header, self.body)
    }
}

impl<B> Response<B> {
    /// A response with the given body that grants no credit.
    pub fn new(body: B) -> (r: Self)
        ensures
            r == (Response { header: ResponseHeader { credit: 0 }, body }),
    {
        Response { header: ResponseHeader { credit: 0 }, body }
    }

    /// The header.
    pub fn header(&self) -> (r: &ResponseHeader)
        ensures
            *r == self.header,
    {
        &self.header
    }

    /// The body.
    pub fn body(&self) -> (r: &B)
        ensures
            *r == self.body,
    {
        &self.body
    }

    /// Gives up the header.
    pub fn into_body(self) -> (r: B)
        ensures
            r == self.body,
    {
        self.body
    }

    /// The header and the body.
    pub fn into_parts(self) -> (r: (ResponseHeader, B))
        ensures
            r == (self.header, self.body),
    {
        (self.header, self.body)
    }

    /// Sets the credit that the response grants.
    pub fn set_credit(&mut self, credit: u16) -> (r: &mut Self)
        ensures
            *r == (Response { header: ResponseHeader { credit }, body: old(self).body }),
            *final(self) == *final(r),
    {
        self.header.credit = credit;
        self
    }
}

/// A length as a number of the machine.
pub fn u32_to_usize(n: u32) -> (r: usize)
    ensures
        r == n,
{
    n as usize
}

/// What stands on the wire for an encoded header: its length, then the header itself.
pub open spec fn header_frame(header: Seq<u8>) -> Seq<u8> {
    crate::varint::uvi(header.len()) + header
}

/// What becomes of a buffer that is brought to the length `n`: what is too much is cut off, what
/// is missing is filled up with zeros.
pub open spec fn resized(buffer: Seq<u8>, n: nat) -> Seq<u8> {
    Seq::new(
        n,
        |i: int|
            if i < buffer.len() {
                buffer[i]
            } else {
                0u8
            },
    )
}

/// Puts a header in front of the messages of another codec.
#[derive(Debug)]
pub struct Codec<C> {
    inner: C,
    buffer: Vec<u8>,
}

impl<C: Clone> Clone for Codec<C> {
    fn clone(&self) -> (r: Self)
        ensures
            cloned(self.spec_inner(), r.spec_inner()),
            r.spec_buffer() == self.spec_buffer(),
    {
        let r = Codec { inner: self.inner.clone(), buffer: self.buffer.clone() };
        assert(r.buffer@ =~= self.buffer@);
        r
    }
}

impl<C> Codec<C> {
    /// The codec of the bodies.
    pub closed spec fn spec_inner(&self) -> C {
        self.inner
    }

    /// The header that is being read or written.
    pub closed spec fn spec_buffer(&self) -> Seq<u8> {
        self.buffer@
    }

    /// Wraps the codec of the bodies.
    pub fn new(c: C) -> (r: Self)
        ensures
            r.spec_inner() == c,
            r.spec_buffer() == Seq::<u8>::empty(),
    {
        Codec { inner: c, buffer: Vec::new() }
    }

    /// The codec of the bodies, to read or write one.
    pub fn inner(&mut self) -> (r: &mut C)
        ensures
            *r == old(self).spec_inner(),
            final(self).spec_inner() == *final(r),
            final(self).spec_buffer() == old(self).spec_buffer(),
    {
        &mut self.inner
    }

    /// The header that is being read, to be filled in.
    pub fn buffer(&mut self) -> (r: &mut Vec<u8>)
        ensures
            r@ == old(self).spec_buffer(),
            final(self).spec_buffer() == final(r)@,
            final(self).spec_inner() == old(self).spec_inner(),
    {
        &mut self.buffer
    }

    /// Begins to read a header whose length is encoded in `prefix`: makes room for the header
    /// and tells how many bytes are to be read.
    pub fn read_header(&mut self, prefix: &[u8]) -> (r: Result<usize, UviError>)
        ensures
            final(self).spec_inner() == old(self).spec_inner(),
            match crate::varint::uvi_decode_u32(prefix@) {
                Ok((n, _)) => r == Ok::<usize, UviError>(n as usize) && final(self).spec_buffer()
                    == resized(old(self).spec_buffer(), n),
                Err(e) => r == Err::<usize, UviError>(e) && final(self).spec_buffer() == old(self).spec_buffer(),
            },
    {
        match decode_u32(prefix) {
            Ok((header_len, _)) => {
                let n: usize = u32_to_usize(header_len);
                self.buffer.resize(n, 0u8);
                proof {
                    let b = old(self).buffer@;
                    let c = self.buffer@;
                    assert forall|i: int| 0 <= i < n implies c[i] == resized(b, n as nat)[i] by {
                        if b.len() < n && i < b.len() {
                            assert(c.subrange(0, b.len() as int)[i] == b[i]);
                        }
                    }
                    assert(c =~= resized(b, n as nat));
                }
                Ok(n)
            },
            Err(e) => Err(e),
        }
    }

    /// Takes over an encoded header and returns what is to be written for it.
    pub fn write_header(&mut self, header: Vec<u8>) -> (r: Vec<u8>)
        requires
            header@.len() < u32::MAX,
        ensures
            r@ == header_frame(header@),
            final(self).spec_buffer() == header@,
            final(self).spec_inner() == old(self).spec_inner(),
    {
        let n: u32 = header.len() as u32;
        let mut out: Vec<u8> = encode_u32(n);
        out.extend_from_slice(header.as_slice());
        assert(out@ =~= header_frame(header@));
        self.buffer = header;
        out
    }
}

/// Reading the length of a header that was written gives the length of that header, and what
/// follows the length is the header and whatever came after it.
pub proof fn law_header_is_read_back(header: Seq<u8>, rest: Seq<u8>)
    requires
        header.len() < u32::MAX,
    ensures
        crate::varint::uvi_decode_u32(header_frame(header) + rest) == Ok::<
            (nat, Seq<u8>),
            UviError,
        >((header.len(), header + rest)),
{
    crate::varint::law_uvi_round_trip(header.len(), header + rest);
    assert(header_frame(header) + rest =~= crate::varint::uvi(header.len()) + (header + rest));
}

/// A buffer that is brought to a length has that length and keeps what it held, as far as there is
/// room; what is new is zero.
pub proof fn law_resized_buffer_keeps_its_start(buffer: Seq<u8>, n: nat)
    ensures
        resized(buffer, n).len() == n,
        n <= buffer.len() ==> resized(buffer, n) == buffer.take(n as int),
        n > buffer.len() ==> resized(buffer, n).take(buffer.len() as int) == buffer,
        forall|i: int| buffer.len() <= i < n ==> #[trigger] resized(buffer, n)[i] == 0,
{
    if n <= buffer.len() {
        assert(resized(buffer, n) =~= buffer.take(n as int));
    } else {
        assert(resized(buffer, n).take(buffer.len() as int) =~= buffer);
    }
}

/// What is written for a header ends with the header, behind its length, which is not empty.
pub proof fn law_header_is_written_behind_its_length(header: Seq<u8>)
    requires
        header.len() < u32::MAX,
    ensures
        header_frame(header).len() > header.len(),
        header_frame(header).skip(header_frame(header).len() - header.len()) == header,
{
    crate::varint::lemma_uvi_first(header.len());
    assert(header_frame(header).skip(header_frame(header).len() - header.len()) =~= header);
}

} // verus!
