//! Several substreams on one connection.

use crate::async_value::Poll;
use vstd::prelude::*;

verus! {

/// Which directions are shut down.
#[derive(Debug, Copy, Clone, PartialEq, Eq, Structural)]
pub enum Shutdown {
    /// Only reading.
    Inbound,
    /// Only writing.
    Outbound,
    /// Both.
    All,
}

/// Opens and accepts substreams on a connection.
///
/// A substream belongs to the muxer that gave it and is not to be handed to another one.
pub trait StreamMuxer: Sized {
    /// A substream.
    type Substream;

    /// A substream that is being opened.
    type OutboundSubstream;

    /// Error of the connection.
    type Error;

    /// The substream belongs to this muxer.
    spec fn owns(&self, sub: Self::Substream) -> bool;

    /// The substream that is being opened belongs to this muxer.
    spec fn owns_outbound(&self, sub: Self::OutboundSubstream) -> bool;

    /// Accepts a substream; `None` if there will be no more.
    fn poll_inbound(&self) -> (r: Poll<Option<Self::Substream>, Self::Error>)
        ensures
            r matches Ok(crate::async_value::Async::Ready(Some(s))) ==> self.owns(s),
    ;

    /// Begins to open a substream.
    fn open_outbound(&self) -> (r: Self::OutboundSubstream)
        ensures
            self.owns_outbound(r),
    ;

    /// Goes on with opening a substream; `None` if that is not possible any more.
    fn poll_outbound(&self, substream: &mut Self::OutboundSubstream) -> (r: Poll<
        Option<Self::Substream>,
        Self::Error,
    >)
        requires
            self.owns_outbound(*old(substream)),
        ensures
            self.owns_outbound(*final(substream)),
            r matches Ok(crate::async_value::Async::Ready(Some(s))) ==> self.owns(s),
    ;

    /// Gives up opening a substream.
    fn destroy_outbound(&self, substream: Self::OutboundSubstream)
        requires
            self.owns_outbound(substream),
    ;

    /// Reads from a substream.
    fn read_substream(&self, sub: &mut Self::Substream, buf: &mut [u8]) -> (r: Poll<
        usize,
        Self::Error,
    >)
        requires
            self.owns(*old(sub)),
        ensures
            self.owns(*final(sub)),
    ;

    /// Writes to a substream.
    fn write_substream(&self, sub: &mut Self::Substream, buf: &[u8]) -> (r: Poll<
        usize,
        Self::Error,
    >)
        requires
            self.owns(*old(sub)),
        ensures
            self.owns(*final(sub)),
    ;

    /// Flushes a substream.
    fn flush_substream(&self, sub: &mut Self::Substream) -> (r: Poll<(), Self::Error>)
        requires
            self.owns(*old(sub)),
        ensures
            self.owns(*final(sub)),
    ;

    /// Shuts a substream down.
    fn shutdown_substream(&self, sub: &mut Self::Substream, kind: Shutdown) -> (r: Poll<
        (),
        Self::Error,
    >)
        requires
            self.owns(*old(sub)),
        ensures
            self.owns(*final(sub)),
    ;

    /// Gives up a substream.
    fn destroy_substream(&self, substream: Self::Substream)
        requires
            self.owns(substream),
    ;

    /// Shuts the connection down.
    fn shutdown(&self, kind: Shutdown) -> Poll<(), Self::Error>;

    /// Flushes the connection.
    fn flush_all(&self) -> Poll<(), Self::Error>;
}

} // verus!
