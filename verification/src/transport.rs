//! The capability a client needs from its connection: a buffered duplex
//! byte stream, together with a verified in-memory implementation.

use crate::error::ClientError;
use vstd::prelude::*;

verus! {

/// A buffered duplex byte stream.
///
/// `written()` models every byte the stream has accepted, in order;
/// `sent()` models the portion of those bytes already forced onto the wire;
/// `incoming()` models the bytes from the peer not yet consumed;
/// `reliable()` marks a transport that is beyond failure: it never fails a
/// write or a flush, never fails a read while peer bytes remain, and stays
/// reliable afterwards. A real network stream never reports itself
/// reliable — the connection decides, not the caller — but the in-memory
/// transport below always does, so what a client does on it is provable
/// outright.
///
/// What failure leaves behind is pinned down as far as truth allows: no
/// call ever touches the peer's unread bytes except a read, a flush never
/// accepts new outgoing bytes, and a failed write leaves some prefix of
/// the handed-over bytes accepted. Beyond that, once bytes are only
/// partially written the framing is undefined and the caller must treat
/// the connection as broken.
pub trait Transport: Sized {
    /// Every byte accepted so far, in order.
    spec fn written(&self) -> Seq<u8>;

    /// The bytes already forced onto the wire.
    spec fn sent(&self) -> Seq<u8>;

    /// Bytes from the peer not yet consumed.
    spec fn incoming(&self) -> Seq<u8>;

    /// Whether this transport is beyond failure.
    spec fn reliable(&self) -> bool;

    /// Accept `bytes`, whole, onto the outgoing stream. They may sit in a
    /// buffer until a flush; an implementation may also send early. On
    /// failure some prefix of `bytes` has been accepted; a write never
    /// reads, so the peer's bytes are untouched either way.
    fn write_all(&mut self, bytes: &[u8]) -> (r: Result<(), ClientError>)
        ensures
            final(self).incoming() == old(self).incoming(),
            r is Ok ==> final(self).written() == old(self).written() + bytes@,
            r is Err ==> r == Err::<(), ClientError>(ClientError::IoError) && (exists|k: int|
                0 <= k <= bytes@.len() && final(self).written() == old(self).written()
                    + bytes@.take(k)),
            old(self).reliable() ==> r is Ok && final(self).reliable(),
    ;

    /// Force every accepted byte onto the wire. Does not return until the
    /// underlying write completed or failed. A flush accepts no new bytes
    /// and reads none.
    fn flush(&mut self) -> (r: Result<(), ClientError>)
        ensures
            final(self).written() == old(self).written(),
            final(self).incoming() == old(self).incoming(),
            r is Ok ==> final(self).sent() == final(self).written(),
            r is Err ==> r == Err::<(), ClientError>(ClientError::IoError),
            old(self).reliable() ==> r is Ok && final(self).reliable(),
    ;

    /// Consume the next byte from the peer. A read accepts no outgoing
    /// bytes.
    fn read_byte(&mut self) -> (r: Result<u8, ClientError>)
        ensures
            final(self).written() == old(self).written(),
            r matches Ok(b) ==> old(self).incoming().len() > 0 && b == old(self).incoming()[0]
                && final(self).incoming() == old(self).incoming().skip(1) && final(self).sent()
                == old(self).sent(),
            r is Err ==> r == Err::<u8, ClientError>(ClientError::IoError),
            old(self).reliable() ==> final(self).reliable() && (old(self).incoming().len() > 0
                ==> r is Ok),
    ;
}

/// An in-memory transport: a test double standing in for a real connection.
///
/// The peer's bytes are supplied up front; accepted bytes stay buffered
/// until a flush moves them onto the simulated wire. No call ever fails
/// except reading past the supplied input, so every state this module can
/// construct is reliable.
pub struct BufferTransport {
    wire: Vec<u8>,
    pending: Vec<u8>,
    input: Vec<u8>,
    read_pos: usize,
}

impl BufferTransport {
    /// A fresh transport whose peer will send exactly `input`.
    pub fn new(input: Vec<u8>) -> (t: Self)
        ensures
            t.incoming() == input@,
            t.written() == Seq::<u8>::empty(),
            t.sent() == Seq::<u8>::empty(),
            t.reliable(),
    {
        let t = BufferTransport { wire: Vec::new(), pending: Vec::new(), input, read_pos: 0 };
        proof {
            assert(t.incoming() =~= t.input@);
        }
        t
    }

    /// The bytes forced onto the simulated wire so far.
    pub fn wire_bytes(&self) -> (v: &Vec<u8>)
        ensures
            v@ == self.sent(),
    {
        &self.wire
    }

    /// Every byte accepted so far, flushed or still buffered.
    pub fn written_bytes(&self) -> (v: Vec<u8>)
        ensures
            v@ == self.written(),
    {
        let mut v: Vec<u8> = Vec::new();
        v.extend_from_slice(self.wire.as_slice());
        v.extend_from_slice(self.pending.as_slice());
        proof {
            assert(v@ =~= self.written());
        }
        v
    }
}

impl Transport for BufferTransport {
    closed spec fn written(&self) -> Seq<u8> {
        self.wire@ + self.pending@
    }

    closed spec fn sent(&self) -> Seq<u8> {
        self.wire@
    }

    closed spec fn incoming(&self) -> Seq<u8> {
        self.input@.skip(self.read_pos as int)
    }

    closed spec fn reliable(&self) -> bool {
        self.read_pos <= self.input@.len()
    }

    fn write_all(&mut self, bytes: &[u8]) -> (r: Result<(), ClientError>) {
        self.pending.extend_from_slice(bytes);
        proof {
            assert(self.written() =~= old(self).written() + bytes@);
        }
        Ok(())
    }

    fn flush(&mut self) -> (r: Result<(), ClientError>) {
        let mut moved: Vec<u8> = Vec::new();
        core::mem::swap(&mut moved, &mut self.pending);
        self.wire.append(&mut moved);
        proof {
            assert(self.written() =~= old(self).written());
            assert(self.sent() =~= self.written());
        }
        Ok(())
    }

    fn read_byte(&mut self) -> (r: Result<u8, ClientError>) {
        if self.read_pos < self.input.len() {
            let b = self.input[self.read_pos];
            self.read_pos = self.read_pos + 1;
            proof {
                assert(self.incoming() =~= old(self).incoming().skip(1));
            }
            Ok(b)
        } else {
            Err(ClientError::IoError)
        }
    }
}

} // verus!
