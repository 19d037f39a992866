//! The model of the one connection a coordinator or session owns.
//!
//! The raw socket (TCP or TLS) and the byte-level frame codec are
//! collaborators outside this core. What the core observes of them is
//! narrow: a request can be written, the next reply can be read and decoded
//! with a chosen compression selector, and the connection can be shut down.
//! The transport here models exactly that surface as plain values — the
//! requests written so far, the replies still to arrive, whether the
//! connection is shut down — plus ghost instrumentation recording which
//! selector each decode used and how often shutdown ran, so that contracts
//! can speak about both.

use vstd::prelude::*;

use crate::compression::Compression;
use crate::error::Error;
use crate::frame::{Frame, Request};

verus! {

/// One connection: the requests written on it, the replies it will yield,
/// and its shutdown state.
pub struct Transport {
    /// Every request written so far, in wire order.
    pub requests: Vec<Request>,
    /// The replies still to arrive, front first.
    pub replies: Vec<Frame>,
    /// Whether the connection has been shut down.
    pub closed: bool,
    /// How often shutdown ran (ghost; lets contracts state "closed at most
    /// once").
    pub shutdowns: Ghost<nat>,
    /// The selector each decode used, in decode order (ghost).
    pub decoded_with: Ghost<Seq<Compression>>,
}

impl Transport {
    /// An open connection on which the given replies will arrive, in order.
    pub fn open(replies: Vec<Frame>) -> (t: Transport)
        ensures
            t.requests@ =~= Seq::<Request>::empty(),
            t.replies == replies,
            !t.closed,
            t.shutdowns@ == 0,
            t.decoded_with@ =~= Seq::<Compression>::empty(),
    {
        Transport {
            requests: Vec::new(),
            replies,
            closed: false,
            shutdowns: Ghost(0),
            decoded_with: Ghost(Seq::empty()),
        }
    }

    /// Writes one request. Fails, leaving everything unchanged, exactly
    /// when the connection is already shut down.
    pub fn send(&mut self, request: Request) -> (r: Result<(), Error>)
        ensures
            final(self).replies == old(self).replies,
            final(self).closed == old(self).closed,
            final(self).shutdowns == old(self).shutdowns,
            final(self).decoded_with == old(self).decoded_with,
            match r {
                Ok(()) => !old(self).closed
                    && final(self).requests@ == old(self).requests@.push(request),
                Err(e) => old(self).closed
                    && final(self).requests == old(self).requests
                    && e is Io,
            },
    {
        if self.closed {
            Err(Error::Io(String::from_str("write on a shut-down connection")))
        } else {
            self.requests.push(request);
            Ok(())
        }
    }

    /// Reads and decodes the next reply with the given selector. Fails,
    /// consuming nothing, when the connection is shut down or no reply
    /// arrives; otherwise yields the front reply and records the selector
    /// the decode used.
    pub fn receive(&mut self, compressor: &Compression) -> (r: Result<Frame, Error>)
        ensures
            final(self).requests == old(self).requests,
            final(self).closed == old(self).closed,
            final(self).shutdowns == old(self).shutdowns,
            match r {
                Ok(f) => !old(self).closed
                    && old(self).replies@.len() > 0
                    && f == old(self).replies@[0]
                    && final(self).replies@ == old(self).replies@.drop_first()
                    && final(self).decoded_with@
                        == old(self).decoded_with@.push(*compressor),
                Err(e) => (old(self).closed || old(self).replies@.len() == 0)
                    && final(self).replies == old(self).replies
                    && final(self).decoded_with == old(self).decoded_with
                    && e is Io,
            },
    {
        if self.closed {
            Err(Error::Io(String::from_str("read on a shut-down connection")))
        } else if self.replies.len() == 0 {
            Err(Error::Io(String::from_str("connection yielded no frame to decode")))
        } else {
            let frame = self.replies.remove(0);
            proof {
                self.decoded_with@ = self.decoded_with@.push(*compressor);
                assert(self.replies@ =~= old(self).replies@.drop_first());
            }
            Ok(frame)
        }
    }

    /// Shuts the connection down in both directions. Fails exactly when it
    /// is already shut down — as shutting down a closed socket does — but
    /// counts as a shutdown either way only when it actually ran.
    pub fn close(&mut self) -> (r: Result<(), Error>)
        ensures
            final(self).requests == old(self).requests,
            final(self).replies == old(self).replies,
            final(self).decoded_with == old(self).decoded_with,
            final(self).closed,
            match r {
                Ok(()) => !old(self).closed
                    && final(self).shutdowns@ == old(self).shutdowns@ + 1,
                Err(e) => old(self).closed
                    && final(self).shutdowns == old(self).shutdowns
                    && e is Io,
            },
    {
        if self.closed {
            Err(Error::Io(String::from_str("shutdown of an already shut-down connection")))
        } else {
            self.closed = true;
            proof {
                self.shutdowns@ = self.shutdowns@ + 1;
            }
            Ok(())
        }
    }
}

} // verus!
