//! Collects small items before they go to a sink.

use crate::async_value::{Async, AsyncSink, Poll};
use bytes::BytesMut;
use vstd::prelude::*;

verus! {

/// A buffer of bytes, of the crate `bytes`.
#[verifier::external_type_specification]
#[verifier::external_body]
pub struct ExBytesMut(BytesMut);

/// The bytes in a buffer.
pub uninterp spec fn content(buf: BytesMut) -> Seq<u8>;

/// `BytesMut::new`: an empty buffer.
#[verifier::external_body]
fn empty() -> (r: BytesMut)
    ensures
        content(r) == Seq::<u8>::empty(),
{
    BytesMut::new()
}

/// `BytesMut::len`: how many bytes there are.
#[verifier::external_body]
fn length(buf: &BytesMut) -> (r: usize)
    ensures
        r == content(*buf).len(),
{
    buf.len()
}

/// `BytesMut::is_empty`: are there no bytes?
#[verifier::external_body]
fn is_empty(buf: &BytesMut) -> (r: bool)
    ensures
        r == (content(*buf).len() == 0),
{
    buf.is_empty()
}

/// `BytesMut::extend_from_slice` on the bytes of another buffer: they come behind those that are
/// there. No buffer holds more than `isize::MAX` bytes.
#[verifier::external_body]
fn extend(buf: &mut BytesMut, item: &BytesMut)
    requires
        content(*old(buf)).len() + content(*item).len() <= isize::MAX,
    ensures
        content(*final(buf)) == content(*old(buf)) + content(*item),
{
    buf.extend_from_slice(&item[..]);
}

/// `BytesMut::clone`: the same bytes.
#[verifier::external_body]
fn copy(buf: &BytesMut) -> (r: BytesMut)
    ensures
        content(r) == content(*buf),
{
    buf.clone()
}

/// A sink of bytes with a buffer before it.
#[derive(Debug)]
pub struct Buffered<S> {
    sink: S,
    buf: BytesMut,
    max: usize,
}

/// What is to be done with an item.
pub enum SendAction<E> {
    /// Send this item to the sink; what the sink says of it is the outcome.
    Forward(BytesMut),
    /// Send the first, which was in the buffer, to the sink, and tell what the sink said of it,
    /// with the second, which is the item.
    Flush(BytesMut, BytesMut),
    /// The outcome.
    Return(Result<AsyncSink<BytesMut>, E>),
}

/// What is to be done with an item, by the bytes.
pub enum SendStep {
    /// The item goes to the sink.
    Forward,
    /// The item goes to the buffer.
    Append,
    /// The buffer goes to the sink first.
    Flush,
}

/// What is to be done with an item of so many bytes.
pub open spec fn send_step(buffered: nat, item: nat, max: nat) -> SendStep {
    if buffered == 0 && item > max {
        SendStep::Forward
    } else if buffered + item <= max {
        SendStep::Append
    } else {
        SendStep::Flush
    }
}

/// An item that would go to the buffer is not too long for it: no buffer holds more than
/// `isize::MAX` bytes.
pub open spec fn holds(buffered: nat, item: nat, max: nat) -> bool {
    send_step(buffered, item, max) is Append ==> buffered + item <= isize::MAX
}

impl<S> View for Buffered<S> {
    type V = Seq<u8>;

    /// The bytes in the buffer.
    closed spec fn view(&self) -> Seq<u8> {
        content(self.buf)
    }
}

impl<S: Clone> Clone for Buffered<S> {
    fn clone(&self) -> (r: Self)
        ensures
            cloned(self.sink(), r.sink()),
            r@ == self@,
            r.limit() == self.limit(),
    {
        Buffered { sink: self.sink.clone(), buf: copy(&self.buf), max: self.max }
    }
}

impl<S> Buffered<S> {
    /// The sink.
    pub closed spec fn sink(&self) -> S {
        self.sink
    }

    /// How many bytes are collected at most.
    pub closed spec fn limit(&self) -> nat {
        self.max as nat
    }

    /// Puts an empty buffer of the given size before a sink.
    pub fn new(sink: S, size: usize) -> (r: Self)
        ensures
            r.sink() == sink,
            r@ == Seq::<u8>::empty(),
            r.limit() == size,
    {
        Buffered { sink, buf: empty(), max: size }
    }

    /// The sink, to send to, to flush or to read from.
    pub fn get_mut(&mut self) -> (r: &mut S)
        ensures
            *r == old(self).sink(),
            final(self).sink() == *final(r),
            final(self)@ == old(self)@,
            final(self).limit() == old(self).limit(),
    {
        &mut self.sink
    }

    fn take_buffer(&mut self) -> (r: BytesMut)
        ensures
            content(r) == old(self)@,
            final(self)@ == Seq::<u8>::empty(),
            final(self).sink() == old(self).sink(),
            final(self).limit() == old(self).limit(),
    {
        let mut buf = empty();
        std::mem::swap(&mut self.buf, &mut buf);
        buf
    }

    fn flushed<E>(&mut self, sent: Result<AsyncSink<BytesMut>, E>) -> (r: Poll<(), E>)
        ensures
            final(self).sink() == old(self).sink(),
            final(self).limit() == old(self).limit(),
            match sent {
                Ok(AsyncSink::NotReady(buf)) => final(self)@ == content(buf) && (r matches Ok(
                    Async::NotReady,
                )),
                Ok(AsyncSink::Ready) => final(self)@ == old(self)@ && r == Ok::<Async<()>, E>(
                    Async::Ready(()),
                ),
                Err(e) => final(self)@ == old(self)@ && (r matches Err(f) && f == e),
            },
    {
        match sent {
            Ok(AsyncSink::NotReady(buf)) => {
                self.buf = buf;
                Ok(Async::NotReady)
            },
            Ok(AsyncSink::Ready) => Ok(Async::Ready(())),
            Err(e) => Err(e),
        }
    }

    /// Can the item be taken? If not, there is no buffer that is large enough.
    pub fn can_take(&self, item: &BytesMut) -> (r: bool)
        ensures
            r == holds(self@.len(), content(*item).len(), self.limit()),
    {
        let n: usize = length(item);
        let there: usize = length(&self.buf);
        if n <= self.max && there <= self.max - n {
            there + n <= isize::MAX as usize
        } else {
            true
        }
    }

    /// Takes an item.
    pub fn start_send<E>(&mut self, item: BytesMut) -> (r: SendAction<E>)
        requires
            holds(old(self)@.len(), content(item).len(), old(self).limit()),
        ensures
            final(self).sink() == old(self).sink(),
            final(self).limit() == old(self).limit(),
            match send_step(old(self)@.len(), content(item).len(), old(self).limit()) {
                SendStep::Forward => final(self)@ == old(self)@ && r == SendAction::<E>::Forward(
                    item,
                ),
                SendStep::Append => final(self)@ == old(self)@ + content(item) && r
                    == SendAction::<E>::Return(Ok(AsyncSink::Ready)),
                SendStep::Flush => final(self)@ == Seq::<u8>::empty() && (
                r matches SendAction::Flush(buf, i) && content(buf) == old(self)@ && i == item),
            },
    {
        let n: usize = length(&item);
        if is_empty(&self.buf) && n > self.max {
            return SendAction::Forward(item);
        }
        if n <= self.max && length(&self.buf) <= self.max - n {
            extend(&mut self.buf, &item);
            return SendAction::Return(Ok(AsyncSink::Ready));
        }
        SendAction::Flush(self.take_buffer(), item)
    }

    /// Goes on with an item once the sink has been given what was in the buffer.
    pub fn resume_send<E>(&mut self, item: BytesMut, sent: Result<AsyncSink<BytesMut>, E>) -> (r:
        SendAction<E>)
        requires
            old(self)@ == Seq::<u8>::empty(),
            holds(0, content(item).len(), old(self).limit()),
        ensures
            final(self).sink() == old(self).sink(),
            final(self).limit() == old(self).limit(),
            match sent {
                Ok(AsyncSink::NotReady(buf)) => final(self)@ == content(buf) && r == SendAction::<
                    E,
                >::Return(Ok(AsyncSink::NotReady(item))),
                Ok(AsyncSink::Ready) => if content(item).len() > old(self).limit() {
                    final(self)@ == Seq::<u8>::empty() && r == SendAction::<E>::Forward(item)
                } else {
                    final(self)@ == content(item) && r == SendAction::<E>::Return(
                        Ok(AsyncSink::Ready),
                    )
                },
                Err(e) => final(self)@ == Seq::<u8>::empty() && r == SendAction::<E>::Return(
                    Err(e),
                ),
            },
    {
        match self.flushed(sent) {
            Ok(Async::NotReady) => SendAction::Return(Ok(AsyncSink::NotReady(item))),
            Ok(Async::Ready(())) => {
                assert(Seq::<u8>::empty() + content(item) =~= content(item));
                self.start_send(item)
            },
            Err(e) => SendAction::Return(Err(e)),
        }
    }

    /// Starts to flush: what was in the buffer is to be sent to the sink.
    pub fn poll_complete(&mut self) -> (r: BytesMut)
        ensures
            content(r) == old(self)@,
            final(self)@ == Seq::<u8>::empty(),
            final(self).sink() == old(self).sink(),
            final(self).limit() == old(self).limit(),
    {
        self.take_buffer()
    }

    /// Goes on flushing once the sink has been given what was in the buffer: if it took it, the
    /// sink is to be flushed, and what it says of that is the outcome.
    pub fn resume_complete<E>(&mut self, sent: Result<AsyncSink<BytesMut>, E>) -> (r: Poll<(), E>)
        requires
            old(self)@ == Seq::<u8>::empty(),
        ensures
            final(self).sink() == old(self).sink(),
            final(self).limit() == old(self).limit(),
            match sent {
                Ok(AsyncSink::NotReady(buf)) => final(self)@ == content(buf) && (r matches Ok(
                    Async::NotReady,
                )),
                Ok(AsyncSink::Ready) => final(self)@ == Seq::<u8>::empty() && r == Ok::<
                    Async<()>,
                    E,
                >(Async::Ready(())),
                Err(e) => final(self)@ == Seq::<u8>::empty() && (r matches Err(f) && f == e),
            },
    {
        self.flushed(sent)
    }
}

/// What has been sent to the sink, what is left in the buffer and whether the item was taken, when
/// the sink takes the first and the second that it is given or gives them back.
pub open spec fn taken(
    buffered: Seq<u8>,
    item: Seq<u8>,
    max: nat,
    first: bool,
    second: bool,
) -> (Seq<Seq<u8>>, Seq<u8>, bool) {
    match send_step(buffered.len(), item.len(), max) {
        SendStep::Forward => if first {
            (seq![item], buffered, true)
        } else {
            (seq![], buffered, false)
        },
        SendStep::Append => (seq![], buffered + item, true),
        SendStep::Flush => if !first {
            (seq![], buffered, false)
        } else if item.len() <= max {
            (seq![buffered], item, true)
        } else if second {
            (seq![buffered, item], Seq::empty(), true)
        } else {
            (seq![buffered], Seq::empty(), false)
        },
    }
}

/// No byte is lost, doubled or moved: what goes to the sink, with what is left in the buffer
/// behind it, is what was in the buffer, with the item behind it if it was taken. An item that is
/// given back leaves nothing behind.
pub proof fn law_bytes_stay_in_order(
    buffered: Seq<u8>,
    item: Seq<u8>,
    max: nat,
    first: bool,
    second: bool,
)
    ensures
        ({
            let (sent, left, ready) = taken(buffered, item, max, first, second);
            sent.flatten() + left == buffered + (if ready {
                item
            } else {
                Seq::empty()
            })
        }),
{
    let (sent, left, ready) = taken(buffered, item, max, first, second);
    let all = buffered + (if ready {
        item
    } else {
        Seq::empty()
    });
    reveal_with_fuel(Seq::flatten, 3);
    if sent.len() == 2 {
        assert(sent.drop_first() =~= seq![item]);
        assert(seq![item].drop_first() =~= seq![]);
    } else if sent.len() == 1 {
        assert(sent.drop_first() =~= seq![]);
    }
    assert(sent.flatten() + left =~= all);
}

/// The buffer never holds more than it may.
pub proof fn law_buffer_is_limited(
    buffered: Seq<u8>,
    item: Seq<u8>,
    max: nat,
    first: bool,
    second: bool,
)
    requires
        buffered.len() <= max,
    ensures
        taken(buffered, item, max, first, second).1.len() <= max,
{
}

/// Items that fit into the buffer together reach the sink in one piece: nothing is sent before
/// the buffer would overflow, whatever the sink would say.
pub proof fn law_small_items_are_collected(
    buffered: Seq<u8>,
    item: Seq<u8>,
    max: nat,
    first: bool,
    second: bool,
)
    requires
        buffered.len() + item.len() <= max,
    ensures
        taken(buffered, item, max, first, second) == (
            Seq::<Seq<u8>>::empty(),
            buffered + item,
            true,
        ),
{
}

/// An item that is too long for the buffer reaches the sink whole, behind what was in the buffer,
/// and no part of it is collected.
pub proof fn law_long_items_go_whole(
    buffered: Seq<u8>,
    item: Seq<u8>,
    max: nat,
    first: bool,
    second: bool,
)
    requires
        item.len() > max,
    ensures
        ({
            let (sent, left, ready) = taken(buffered, item, max, first, second);
            if ready {
                sent.last() == item && sent.drop_last() == (if buffered.len() == 0 {
                    seq![]
                } else {
                    seq![buffered]
                }) && left.len() == 0
            } else {
                left.len() == 0 || (left == buffered && sent.len() == 0)
            }
        }),
{
    let (sent, left, ready) = taken(buffered, item, max, first, second);
    if ready {
        assert(sent.drop_last() =~= (if buffered.len() == 0 {
            seq![]
        } else {
            seq![buffered]
        }));
    }
}

/// A use of a [`Buffered`], with what the sink says to the first and to the second that it is given.
pub enum Call {
    /// An item is sent.
    Send(Seq<u8>, bool, bool),
    /// What is in the buffer is flushed.
    Complete(bool),
}

/// The bytes that the sink has taken, those in the buffer and those of the items that were taken,
/// after some calls.
pub open spec fn used(calls: Seq<Call>, max: nat) -> (Seq<u8>, Seq<u8>, Seq<u8>)
    decreases calls.len(),
{
    if calls.len() == 0 {
        (Seq::empty(), Seq::empty(), Seq::empty())
    } else {
        let (sunk, buffered, items) = used(calls.drop_last(), max);
        match calls.last() {
            Call::Send(item, first, second) => {
                let (sent, left, ready) = taken(buffered, item, max, first, second);
                (
                    sunk + sent.flatten(),
                    left,
                    if ready {
                        items + item
                    } else {
                        items
                    },
                )
            },
            Call::Complete(first) => if first {
                (sunk + buffered, Seq::empty(), items)
            } else {
                (sunk, buffered, items)
            },
        }
    }
}

/// Over any calls, what the sink has taken, with what is in the buffer behind it, is made of the
/// items that were taken, each once and in order, and the buffer holds no more than it may.
pub proof fn law_items_reach_the_sink_in_order(calls: Seq<Call>, max: nat)
    ensures
        ({
            let (sunk, buffered, items) = used(calls, max);
            sunk + buffered == items && buffered.len() <= max
        }),
    decreases calls.len(),
{
    let none = Seq::<u8>::empty();
    if calls.len() == 0 {
        assert(none + none =~= none);
    } else {
        let (sunk, buffered, items) = used(calls.drop_last(), max);
        law_items_reach_the_sink_in_order(calls.drop_last(), max);
        match calls.last() {
            Call::Send(item, first, second) => {
                let (sent, left, ready) = taken(buffered, item, max, first, second);
                law_bytes_stay_in_order(buffered, item, max, first, second);
                law_buffer_is_limited(buffered, item, max, first, second);
                assert(sunk + sent.flatten() + left =~= sunk + (sent.flatten() + left));
                assert(sunk + (buffered + item) =~= sunk + buffered + item);
                assert(sunk + (buffered + none) =~= sunk + buffered);
            },
            Call::Complete(_) => {
                assert(sunk + buffered + none =~= sunk + buffered);
            },
        }
    }
}

/// Only an item that would fit into the buffer can be too long to be taken, and only if no buffer
/// is that large.
pub proof fn law_almost_all_items_can_be_taken(buffered: nat, item: nat, max: nat)
    ensures
        buffered + item <= isize::MAX ==> holds(buffered, item, max),
        buffered + item > max ==> holds(buffered, item, max),
        max <= isize::MAX ==> holds(buffered, item, max),
{
}

} // verus!
