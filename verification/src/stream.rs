//! The WebSocket-to-byte-stream adaptor: a staging buffer with fixed
//! capacity that turns message events into one ordered byte stream.
//! Backpressure is expressed by refusing a message rather than dropping
//! it; the refused message stays in the event queue.
use crate::errors::{spec_is_benign, is_benign_error};
use crate::BUFFER_CAP;
use vstd::prelude::*;

verus! {

/// One event from the WebSocket event stream, as the adaptor sees it.
pub enum WsEvent {
    /// A binary message and its bytes.
    Message(Vec<u8>),
    /// The peer closed the WebSocket.
    Close,
    /// The transport reported an error with this message.
    TransportError(String),
    /// The event stream ended.
    Ended,
}

/// What the adaptor tells the fill loop after one event.
#[derive(Clone, Copy, PartialEq, Eq, Structural, Debug)]
pub enum FillSignal {
    /// The message was staged; keep filling.
    More,
    /// The stream ended in an expected way; proceed with what arrived.
    Done,
    /// Admitting the message would exceed the staging capacity; stop
    /// filling without dropping the message.
    Backpressure,
    /// A non-benign transport error; surface it.
    Surface,
}

/// The staging buffer between the WebSocket events and the protocol
/// handlers. The ghost fields record every byte that was ever admitted
/// and every byte that was ever handed out, so that the no-loss and
/// no-reordering law is an invariant of the type.
pub struct StreamBuffer {
    buf: Vec<u8>,
    arrived: Ghost<Seq<u8>>,
    delivered: Ghost<Seq<u8>>,
}

impl StreamBuffer {
    /// The bytes currently staged.
    pub closed spec fn buffered(&self) -> Seq<u8> {
        self.buf@
    }

    /// Every byte admitted from the event stream, in arrival order.
    pub closed spec fn arrived_bytes(&self) -> Seq<u8> {
        self.arrived@
    }

    /// Every byte handed to a reader, in delivery order.
    pub closed spec fn delivered_bytes(&self) -> Seq<u8> {
        self.delivered@
    }

    /// The adaptor invariant: what was delivered followed by what is
    /// staged is exactly what arrived, and the staging buffer never
    /// holds more than `BUFFER_CAP` bytes.
    pub open spec fn wf(&self) -> bool {
        &&& self.delivered_bytes() + self.buffered() == self.arrived_bytes()
        &&& self.buffered().len() <= BUFFER_CAP
    }

    /// A fresh adaptor with nothing arrived and nothing delivered.
    pub fn new() -> (s: Self)
        ensures
            s.wf(),
            s.buffered() == Seq::<u8>::empty(),
            s.arrived_bytes() == Seq::<u8>::empty(),
            s.delivered_bytes() == Seq::<u8>::empty(),
    {
        let s = StreamBuffer {
            buf: Vec::new(),
            arrived: Ghost(Seq::empty()),
            delivered: Ghost(Seq::empty()),
        };
        proof {
            assert(s.delivered_bytes() + s.buffered() =~= s.arrived_bytes());
        }
        s
    }

    /// How many bytes are staged.
    pub fn len(&self) -> (n: usize)
        ensures
            n == self.buffered().len(),
    {
        self.buf.len()
    }

    /// Stage one message if capacity allows; otherwise leave everything
    /// unchanged and report backpressure.
    pub fn admit_message(&mut self, msg: &[u8]) -> (admitted: bool)
        requires
            old(self).wf(),
        ensures
            final(self).wf(),
            admitted == (old(self).buffered().len() + msg@.len() <= BUFFER_CAP),
            admitted ==> final(self).buffered() == old(self).buffered() + msg@
                && final(self).arrived_bytes() == old(self).arrived_bytes() + msg@,
            !admitted ==> *final(self) == *old(self),
            final(self).delivered_bytes() == old(self).delivered_bytes(),
    {
        if msg.len() <= BUFFER_CAP - self.buf.len() {
            self.buf.extend_from_slice(msg);
            proof {
                self.arrived@ = self.arrived@ + msg@;
                assert(self.delivered_bytes() + self.buffered() =~= self.arrived_bytes());
            }
            true
        } else {
            false
        }
    }

    /// Borrow up to `n` bytes from the front of the staging buffer
    /// without consuming them.
    pub fn peek_buffer(&self, n: usize) -> (v: Vec<u8>)
        ensures
            v@ == self.buffered().take(
                if n <= self.buffered().len() {
                    n as int
                } else {
                    self.buffered().len() as int
                },
            ),
    {
        let k = if n <= self.buf.len() {
            n
        } else {
            self.buf.len()
        };
        let v = vstd::slice::slice_to_vec(vstd::slice::slice_subrange(self.buf.as_slice(), 0, k));
        assert(v@ =~= self.buffered().take(k as int));
        v
    }

    /// Consume and return up to `n` bytes from the front of the buffer.
    pub fn take(&mut self, n: usize) -> (v: Vec<u8>)
        requires
            old(self).wf(),
        ensures
            final(self).wf(),
            ({
                let k = if n <= old(self).buffered().len() {
                    n as int
                } else {
                    old(self).buffered().len() as int
                };
                &&& v@ == old(self).buffered().take(k)
                &&& final(self).buffered() == old(self).buffered().skip(k)
                &&& final(self).delivered_bytes() == old(self).delivered_bytes() + v@
                &&& final(self).arrived_bytes() == old(self).arrived_bytes()
            }),
    {
        let k = if n <= self.buf.len() {
            n
        } else {
            self.buf.len()
        };
        let v = vstd::slice::slice_to_vec(vstd::slice::slice_subrange(self.buf.as_slice(), 0, k));
        let rest = vstd::slice::slice_to_vec(
            vstd::slice::slice_subrange(self.buf.as_slice(), k, self.buf.len()),
        );
        let ghost oldbuf = self.buf@;
        self.buf = rest;
        proof {
            self.delivered@ = self.delivered@ + v@;
            assert(v@ =~= oldbuf.take(k as int));
            assert(self.buf@ =~= oldbuf.skip(k as int));
            assert(self.delivered_bytes() + self.buffered() =~= self.arrived_bytes());
        }
        v
    }

    /// One step of `fill_until`: feed the next WebSocket event into the
    /// buffer. A message is staged unless it would exceed capacity; a
    /// close or end of stream finishes the fill as a success; a benign
    /// transport error does the same, and any other error is surfaced.
    pub fn fill_step(&mut self, event: &WsEvent) -> (sig: FillSignal)
        requires
            old(self).wf(),
        ensures
            final(self).wf(),
            final(self).delivered_bytes() == old(self).delivered_bytes(),
            match event {
                WsEvent::Message(m) => {
                    if old(self).buffered().len() + m@.len() <= BUFFER_CAP {
                        &&& sig is More
                        &&& final(self).buffered() == old(self).buffered() + m@
                        &&& final(self).arrived_bytes() == old(self).arrived_bytes() + m@
                    } else {
                        sig is Backpressure && *final(self) == *old(self)
                    }
                },
                WsEvent::Close => sig is Done && *final(self) == *old(self),
                WsEvent::Ended => sig is Done && *final(self) == *old(self),
                WsEvent::TransportError(m) => {
                    &&& *final(self) == *old(self)
                    &&& sig == if spec_is_benign(m@) {
                        FillSignal::Done
                    } else {
                        FillSignal::Surface
                    }
                },
            },
    {
        match event {
            WsEvent::Message(m) => {
                if self.admit_message(m.as_slice()) {
                    FillSignal::More
                } else {
                    FillSignal::Backpressure
                }
            },
            WsEvent::Close => FillSignal::Done,
            WsEvent::Ended => FillSignal::Done,
            WsEvent::TransportError(m) => {
                if is_benign_error(m.as_str()) {
                    FillSignal::Done
                } else {
                    FillSignal::Surface
                }
            },
        }
    }
}

/// Law: the adaptor loses, duplicates and reorders nothing. What a reader
/// has seen is exactly the first `delivered` bytes of the concatenation of
/// the admitted messages, and together with the staged bytes it is that
/// concatenation in full.
pub proof fn lemma_stream_no_loss(s: &StreamBuffer)
    requires
        s.wf(),
    ensures
        s.delivered_bytes() == s.arrived_bytes().take(s.delivered_bytes().len() as int),
        s.delivered_bytes() + s.buffered() == s.arrived_bytes(),
{
    assert(s.delivered_bytes() =~= s.arrived_bytes().take(s.delivered_bytes().len() as int));
}

/// Law: the adaptor never stores more than `BUFFER_CAP` bytes.
pub proof fn lemma_buffer_bounded(s: &StreamBuffer)
    requires
        s.wf(),
    ensures
        s.buffered().len() <= BUFFER_CAP,
{
}

} // verus!
