//! The handshake coordinator and the session.
//!
//! A [`CDRS`] owns an opened transport and a chosen authenticator, discovers
//! the server's capabilities with OPTIONS, and drives the startup handshake:
//! STARTUP, then READY, or AUTHENTICATE followed by AUTH_RESPONSE. On
//! success the coordinator is consumed into a started [`Session`], which
//! turns prepare/execute/query/batch calls into wire requests and owns the
//! connection's orderly termination.

use vstd::prelude::*;

use crate::authenticators::Authenticator;
use crate::compression::Compression;
use crate::error::Error;
use crate::frame::{
    is_auth_response_req, is_batch_req, is_execute_req, is_prepare_req, is_query_req,
    is_startup_req, request_flags, CassandraOptions, Frame, Opcode, Request, ResponseBody,
};
use crate::query::{Query, QueryBatch, QueryParams};
use crate::transport::Transport;

verus! {

/// The protocol guarantee on a handshake reply: its opcode is READY or
/// AUTHENTICATE, and an AUTHENTICATE reply carries the server's
/// authenticator class name in its body.
pub open spec fn handshake_reply_wf(f: Frame) -> bool {
    &&& f.opcode == Opcode::Ready || f.opcode == Opcode::Authenticate
    &&& f.opcode == Opcode::Authenticate ==> f.body matches ResponseBody::Authenticate(Some(_))
}

/// The authenticator class name a reply advertises, when its body carries
/// one.
pub open spec fn advertised_name(f: Frame) -> Option<Seq<char>> {
    match f.body {
        ResponseBody::Authenticate(Some(name)) => Some(name@),
        _ => None,
    }
}

/// Whether `t1` is the request log `t0` with exactly one request appended.
pub open spec fn sent_one(t0: Seq<Request>, t1: Seq<Request>) -> bool {
    t1.len() == t0.len() + 1 && t1.take(t0.len() as int) == t0
}

/// Whether `t1` is the request log `t0` with exactly two requests appended.
pub open spec fn sent_two(t0: Seq<Request>, t1: Seq<Request>) -> bool {
    t1.len() == t0.len() + 2 && t1.take(t0.len() as int) == t0
}

/// The coordinator that owns the connection before a session exists: the
/// active compression selector, the configured authenticator, and the
/// transport.
pub struct CDRS<T: Authenticator> {
    /// The compression selector the next decode will use.
    pub compressor: Compression,
    /// The credential scheme the handshake will offer.
    pub authenticator: T,
    /// The owned connection.
    pub transport: Transport,
}

/// The coordinator a handshake outcome leaves behind: on success the one
/// inside the new session, on failure the one handed back to the caller.
pub open spec fn outcome_cdrs<T: Authenticator>(
    r: Result<Session<T>, (CDRS<T>, Error)>,
) -> CDRS<T> {
    match r {
        Ok(s) => s.cdrs,
        Err((c, _)) => c,
    }
}

impl<T: Authenticator> CDRS<T> {
    /// A fresh coordinator around an opened transport and a chosen
    /// authenticator. No compression is active until `start` records a
    /// selector.
    pub fn new(transport: Transport, authenticator: T) -> (r: CDRS<T>)
        ensures
            r.compressor == Compression::NoCompression,
            r.authenticator == authenticator,
            r.transport == transport,
    {
        CDRS { compressor: Compression::NoCompression, authenticator, transport }
    }

    /// Sends OPTIONS and returns the mapping of supported options the
    /// Supported reply carries. The collaborator contract guarantees the
    /// server answers OPTIONS with Supported only, so any reply of another
    /// shape is excluded by precondition. No coordinator state is mutated
    /// beyond the transport's exchange itself.
    pub fn get_options(&mut self) -> (r: Result<CassandraOptions, Error>)
        requires
            !old(self).transport.closed && old(self).transport.replies@.len() > 0
                ==> old(self).transport.replies@[0].body matches ResponseBody::Supported(_),
        ensures
            final(self).compressor == old(self).compressor,
            final(self).authenticator == old(self).authenticator,
            final(self).transport.closed == old(self).transport.closed,
            final(self).transport.shutdowns == old(self).transport.shutdowns,
            match r {
                Ok(opts) => {
                    &&& !old(self).transport.closed
                    &&& old(self).transport.replies@.len() > 0
                    &&& old(self).transport.replies@[0].body
                        matches ResponseBody::Supported(m) && opts == m
                    &&& final(self).transport.requests@
                        == old(self).transport.requests@.push(Request::Options)
                    &&& final(self).transport.replies@ == old(self).transport.replies@.drop_first()
                    &&& final(self).transport.decoded_with@
                        == old(self).transport.decoded_with@.push(old(self).compressor)
                },
                Err(e) => {
                    &&& e is Io
                    &&& old(self).transport.closed || old(self).transport.replies@.len() == 0
                    &&& final(self).transport.replies == old(self).transport.replies
                    &&& final(self).transport.decoded_with == old(self).transport.decoded_with
                    &&& if old(self).transport.closed {
                        final(self).transport.requests == old(self).transport.requests
                    } else {
                        final(self).transport.requests@
                            == old(self).transport.requests@.push(Request::Options)
                    }
                },
            },
    {
        match self.transport.send(Request::Options) {
            Ok(()) => {},
            Err(e) => {
                return Err(e);
            },
        }
        match self.transport.receive(&self.compressor) {
            Err(e) => Err(e),
            Ok(frame) => match frame.body {
                ResponseBody::Supported(data) => Ok(data),
                _ => unreached(),
            },
        }
    }

    /// The handshake: records `compressor` as the active selector, sends
    /// STARTUP advertising its wire name, and decodes the reply with it. A
    /// READY reply yields a started session directly. An AUTHENTICATE reply
    /// enters the authentication sub-protocol: the configured
    /// authenticator's name must be present and must match the
    /// server-advertised one, in which case exactly one AUTH_RESPONSE
    /// carrying the authenticator's token is sent and any reply to it
    /// yields a started session; otherwise the handshake fails with a
    /// not-found-class error before any token is sent. On failure the
    /// coordinator is handed back beside the error, its transport neither
    /// closed nor retried.
    pub fn start(self, compressor: Compression) -> (r: Result<Session<T>, (CDRS<T>, Error)>)
        requires
            !self.transport.closed && self.transport.replies@.len() > 0
                ==> handshake_reply_wf(self.transport.replies@[0]),
        ensures
            outcome_cdrs(r).authenticator == self.authenticator,
            outcome_cdrs(r).compressor == compressor,
            outcome_cdrs(r).transport.closed == self.transport.closed,
            outcome_cdrs(r).transport.shutdowns == self.transport.shutdowns,
            r matches Ok(s) ==> s.started && s.compressor == compressor,
            // a shut-down transport: the write fails, nothing is exchanged
            self.transport.closed ==> (r matches Err((c, e)) && e is Io
                && c.transport.requests == self.transport.requests
                && c.transport.replies == self.transport.replies
                && c.transport.decoded_with == self.transport.decoded_with),
            // no reply to STARTUP: the read fails after the one write
            !self.transport.closed && self.transport.replies@.len() == 0 ==> (r matches Err((
                c,
                e,
            )) && e is Io && sent_one(self.transport.requests@, c.transport.requests@)
                && is_startup_req(c.transport.requests@.last(), compressor)
                && c.transport.replies == self.transport.replies
                && c.transport.decoded_with == self.transport.decoded_with),
            // READY: a started session, one request sent, one reply decoded
            // with the selector
            !self.transport.closed && self.transport.replies@.len() > 0
                && self.transport.replies@[0].opcode == Opcode::Ready ==> (r matches Ok(s)
                && sent_one(self.transport.requests@, s.cdrs.transport.requests@)
                && is_startup_req(s.cdrs.transport.requests@.last(), compressor)
                && s.cdrs.transport.replies@ == self.transport.replies@.drop_first()
                && s.cdrs.transport.decoded_with@
                    == self.transport.decoded_with@.push(compressor)),
            // AUTHENTICATE but the authenticator offers no name: not-found
            // error, no AUTH_RESPONSE sent
            !self.transport.closed && self.transport.replies@.len() > 0
                && self.transport.replies@[0].opcode == Opcode::Authenticate
                && self.authenticator.spec_name() is None ==> (r matches Err((c, e))
                && e is AuthenticatorNotProvided
                && sent_one(self.transport.requests@, c.transport.requests@)
                && is_startup_req(c.transport.requests@.last(), compressor)
                && c.transport.replies@ == self.transport.replies@.drop_first()
                && c.transport.decoded_with@ == self.transport.decoded_with@.push(compressor)),
            // AUTHENTICATE with a differing name: not-found error naming
            // both, no AUTH_RESPONSE sent
            !self.transport.closed && self.transport.replies@.len() > 0
                && self.transport.replies@[0].opcode == Opcode::Authenticate
                && self.authenticator.spec_name() is Some
                && self.authenticator.spec_name() != advertised_name(self.transport.replies@[0])
                ==> (r matches Err((c, e)) && e matches Error::AuthenticatorMismatch {
                server,
                client,
            } && Some(server@) == advertised_name(self.transport.replies@[0])
                && Some(client@) == self.authenticator.spec_name()
                && sent_one(self.transport.requests@, c.transport.requests@)
                && is_startup_req(c.transport.requests@.last(), compressor)
                && c.transport.replies@ == self.transport.replies@.drop_first()
                && c.transport.decoded_with@ == self.transport.decoded_with@.push(compressor)),
            // AUTHENTICATE with the matching name: exactly one AUTH_RESPONSE
            // carrying the authenticator's token follows the STARTUP, and
            // any reply to it yields a started session
            !self.transport.closed && self.transport.replies@.len() > 0
                && self.transport.replies@[0].opcode == Opcode::Authenticate
                && self.authenticator.spec_name() is Some
                && self.authenticator.spec_name() == advertised_name(self.transport.replies@[0])
                ==> sent_two(self.transport.requests@, outcome_cdrs(r).transport.requests@)
                && is_startup_req(
                outcome_cdrs(r).transport.requests@[self.transport.requests@.len() as int],
                compressor,
            )
                && is_auth_response_req(
                outcome_cdrs(r).transport.requests@.last(),
                self.authenticator.spec_token(),
            ) && (if self.transport.replies@.len() >= 2 {
                r matches Ok(s) && s.cdrs.transport.replies@
                    == self.transport.replies@.drop_first().drop_first()
                    && s.cdrs.transport.decoded_with@
                        == self.transport.decoded_with@.push(compressor).push(compressor)
            } else {
                r matches Err((c, e)) && e is Io && c.transport.replies@
                    == self.transport.replies@.drop_first()
                    && c.transport.decoded_with@
                        == self.transport.decoded_with@.push(compressor)
            }),
    {
        let mut cdrs = self;
        let ghost orig = cdrs;
        cdrs.compressor = compressor;
        let wire_name = compressor.into_string();
        let startup = Request::Startup { compression: wire_name };
        let ghost startup_req = startup;
        match cdrs.transport.send(startup) {
            Ok(()) => {},
            Err(e) => {
                return Err((cdrs, e));
            },
        }
        proof {
            let t0 = orig.transport.requests@;
            assert(cdrs.transport.requests@.take(t0.len() as int) =~= t0);
        }
        let start_response = match cdrs.transport.receive(&compressor) {
            Ok(f) => f,
            Err(e) => {
                return Err((cdrs, e));
            },
        };
        if start_response.opcode == Opcode::Ready {
            return Ok(Session::start(cdrs));
        }
        // the reply is AUTHENTICATE, and the protocol guarantees the
        // advertised name is present in its body
        let server_name = match start_response.body {
            ResponseBody::Authenticate(Some(name)) => name,
            _ => unreached(),
        };
        let autz = cdrs.authenticator.duplicate();
        match autz.get_cassandra_name() {
            Some(client_name) => {
                if server_name == client_name {
                    let token = cdrs.authenticator.get_auth_token();
                    let auth_response = Request::AuthResponse { token };
                    match cdrs.transport.send(auth_response) {
                        Ok(()) => {},
                        Err(_) => {
                            return unreached();
                        },
                    }
                    proof {
                        let t0 = orig.transport.requests@;
                        assert(cdrs.transport.requests@.take(t0.len() as int) =~= t0);
                        assert(cdrs.transport.requests@[t0.len() as int] == startup_req);
                    }
                    match cdrs.transport.receive(&compressor) {
                        Ok(_) => Ok(Session::start(cdrs)),
                        Err(e) => Err((cdrs, e)),
                    }
                } else {
                    Err(
                        (
                            cdrs,
                            Error::AuthenticatorMismatch {
                                server: server_name,
                                client: client_name,
                            },
                        ),
                    )
                }
            },
            None => Err((cdrs, Error::AuthenticatorNotProvided)),
        }
    }

    /// Shuts the owned transport down in both directions; used only by
    /// session termination.
    fn drop_connection(&mut self) -> (r: Result<(), Error>)
        ensures
            final(self).compressor == old(self).compressor,
            final(self).authenticator == old(self).authenticator,
            final(self).transport.requests == old(self).transport.requests,
            final(self).transport.replies == old(self).transport.replies,
            final(self).transport.decoded_with == old(self).transport.decoded_with,
            final(self).transport.closed,
            match r {
                Ok(()) => !old(self).transport.closed && final(self).transport.shutdowns@
                    == old(self).transport.shutdowns@ + 1,
                Err(e) => old(self).transport.closed && final(self).transport.shutdowns
                    == old(self).transport.shutdowns && e is Io,
            },
    {
        self.transport.close()
    }
}

/// The object that owns the connection after a successful handshake and
/// turns method calls into wire requests.
pub struct Session<T: Authenticator> {
    /// Whether the session still accepts requests; cleared by `end`.
    pub started: bool,
    /// The coordinator the session was built from, and with it the
    /// transport.
    pub cdrs: CDRS<T>,
    /// The compression selector used to decode this session's replies,
    /// initialized from the handshake and independently overridable.
    pub compressor: Compression,
}

impl<T: Authenticator> Session<T> {
    /// A started session around the coordinator a successful handshake
    /// leaves behind, inheriting its compression selector.
    pub fn start(cdrs: CDRS<T>) -> (s: Session<T>)
        ensures
            s.started,
            s.cdrs == cdrs,
            s.compressor == cdrs.compressor,
    {
        let compressor = cdrs.compressor;
        Session { cdrs, started: true, compressor }
    }

    /// Overrides the compression selector for all subsequent requests and
    /// returns the session itself, for call chaining. Frames already in
    /// flight are unaffected.
    pub fn compressor(&mut self, compressor: Compression) -> (r: &mut Self)
        ensures
            r.started == old(self).started,
            r.cdrs == old(self).cdrs,
            r.compressor == compressor,
            *final(self) == *final(r),
    {
        self.compressor = compressor;
        self
    }

    /// Ends the session: if it is still started, marks it stopped and shuts
    /// the transport down, discarding any shutdown error — termination is
    /// best-effort and never propagates a failure. A second call finds the
    /// session stopped and changes nothing, so the transport is shut down
    /// at most once.
    pub fn end(&mut self)
        ensures
            !final(self).started,
            final(self).compressor == old(self).compressor,
            final(self).cdrs.compressor == old(self).cdrs.compressor,
            final(self).cdrs.authenticator == old(self).cdrs.authenticator,
            final(self).cdrs.transport.requests == old(self).cdrs.transport.requests,
            final(self).cdrs.transport.replies == old(self).cdrs.transport.replies,
            final(self).cdrs.transport.decoded_with == old(self).cdrs.transport.decoded_with,
            old(self).started ==> final(self).cdrs.transport.closed
                && final(self).cdrs.transport.shutdowns@ == old(self).cdrs.transport.shutdowns@
                + (if old(self).cdrs.transport.closed {
                    0int
                } else {
                    1int
                }),
            !old(self).started ==> *final(self) == *old(self),
    {
        if self.started {
            self.started = false;
            match self.cdrs.drop_connection() {
                Ok(()) => {},
                Err(_) => {
                    // termination is best-effort: a shutdown failure is
                    // discarded rather than propagated
                },
            }
        }
    }

    /// Writes one request and decodes the reply with the session's current
    /// selector: the shared write-then-read of every dispatch call.
    fn dispatch(&mut self, request: Request) -> (r: Result<Frame, Error>)
        requires
            old(self).started,
        ensures
            final(self).started == old(self).started,
            final(self).compressor == old(self).compressor,
            final(self).cdrs.compressor == old(self).cdrs.compressor,
            final(self).cdrs.authenticator == old(self).cdrs.authenticator,
            final(self).cdrs.transport.closed == old(self).cdrs.transport.closed,
            final(self).cdrs.transport.shutdowns == old(self).cdrs.transport.shutdowns,
            match r {
                Ok(f) => {
                    &&& !old(self).cdrs.transport.closed
                    &&& old(self).cdrs.transport.replies@.len() > 0
                    &&& f == old(self).cdrs.transport.replies@[0]
                    &&& final(self).cdrs.transport.requests@
                        == old(self).cdrs.transport.requests@.push(request)
                    &&& final(self).cdrs.transport.replies@
                        == old(self).cdrs.transport.replies@.drop_first()
                    &&& final(self).cdrs.transport.decoded_with@
                        == old(self).cdrs.transport.decoded_with@.push(old(self).compressor)
                },
                Err(e) => {
                    &&& e is Io
                    &&& old(self).cdrs.transport.closed || old(
                        self,
                    ).cdrs.transport.replies@.len() == 0
                    &&& final(self).cdrs.transport.replies == old(self).cdrs.transport.replies
                    &&& final(self).cdrs.transport.decoded_with == old(
                        self,
                    ).cdrs.transport.decoded_with
                    &&& if old(self).cdrs.transport.closed {
                        final(self).cdrs.transport.requests == old(self).cdrs.transport.requests
                    } else {
                        final(self).cdrs.transport.requests@
                            == old(self).cdrs.transport.requests@.push(request)
                    }
                },
            },
    {
        match self.cdrs.transport.send(request) {
            Ok(()) => {},
            Err(e) => {
                return Err(e);
            },
        }
        self.cdrs.transport.receive(&self.compressor)
    }

    /// Asks the server to prepare `query`, with the flag set built from the
    /// two booleans, and returns the decoded reply.
    pub fn prepare(
        &mut self,
        query: String,
        with_tracing: bool,
        with_warnings: bool,
    ) -> (r: Result<Frame, Error>)
        requires
            old(self).started,
        ensures
            final(self).started == old(self).started,
            final(self).compressor == old(self).compressor,
            final(self).cdrs.compressor == old(self).cdrs.compressor,
            final(self).cdrs.authenticator == old(self).cdrs.authenticator,
            final(self).cdrs.transport.closed == old(self).cdrs.transport.closed,
            final(self).cdrs.transport.shutdowns == old(self).cdrs.transport.shutdowns,
            match r {
                Ok(f) => {
                    &&& !old(self).cdrs.transport.closed
                    &&& old(self).cdrs.transport.replies@.len() > 0
                    &&& f == old(self).cdrs.transport.replies@[0]
                    &&& sent_one(
                        old(self).cdrs.transport.requests@,
                        final(self).cdrs.transport.requests@,
                    )
                    &&& is_prepare_req(
                        final(self).cdrs.transport.requests@.last(),
                        query,
                        with_tracing,
                        with_warnings,
                    )
                    &&& final(self).cdrs.transport.replies@
                        == old(self).cdrs.transport.replies@.drop_first()
                    &&& final(self).cdrs.transport.decoded_with@
                        == old(self).cdrs.transport.decoded_with@.push(old(self).compressor)
                },
                Err(e) => {
                    &&& e is Io
                    &&& old(self).cdrs.transport.closed || old(
                        self,
                    ).cdrs.transport.replies@.len() == 0
                    &&& final(self).cdrs.transport.replies == old(self).cdrs.transport.replies
                    &&& final(self).cdrs.transport.decoded_with == old(
                        self,
                    ).cdrs.transport.decoded_with
                    &&& if old(self).cdrs.transport.closed {
                        final(self).cdrs.transport.requests == old(self).cdrs.transport.requests
                    } else {
                        sent_one(
                            old(self).cdrs.transport.requests@,
                            final(self).cdrs.transport.requests@,
                        ) && is_prepare_req(
                            final(self).cdrs.transport.requests@.last(),
                            query,
                            with_tracing,
                            with_warnings,
                        )
                    }
                },
            },
    {
        let flags = request_flags(with_tracing, with_warnings);
        let request = Request::Prepare { query, flags };
        let ghost request_g = request;
        let r = self.dispatch(request);
        proof {
            let t0 = old(self).cdrs.transport.requests@;
            let t1 = self.cdrs.transport.requests@;
            if t1 == t0.push(request_g) {
                assert(t1.take(t0.len() as int) =~= t0);
            }
        }
        r
    }

    /// Executes the prepared statement `id`, binding `query_parameters`,
    /// with the flag set built from the two booleans, and returns the
    /// decoded reply.
    pub fn execute(
        &mut self,
        id: Vec<u8>,
        query_parameters: QueryParams,
        with_tracing: bool,
        with_warnings: bool,
    ) -> (r: Result<Frame, Error>)
        requires
            old(self).started,
        ensures
            final(self).started == old(self).started,
            final(self).compressor == old(self).compressor,
            final(self).cdrs.compressor == old(self).cdrs.compressor,
            final(self).cdrs.authenticator == old(self).cdrs.authenticator,
            final(self).cdrs.transport.closed == old(self).cdrs.transport.closed,
            final(self).cdrs.transport.shutdowns == old(self).cdrs.transport.shutdowns,
            match r {
                Ok(f) => {
                    &&& !old(self).cdrs.transport.closed
                    &&& old(self).cdrs.transport.replies@.len() > 0
                    &&& f == old(self).cdrs.transport.replies@[0]
                    &&& sent_one(
                        old(self).cdrs.transport.requests@,
                        final(self).cdrs.transport.requests@,
                    )
                    &&& is_execute_req(
                        final(self).cdrs.transport.requests@.last(),
                        id,
                        query_parameters,
                        with_tracing,
                        with_warnings,
                    )
                    &&& final(self).cdrs.transport.replies@
                        == old(self).cdrs.transport.replies@.drop_first()
                    &&& final(self).cdrs.transport.decoded_with@
                        == old(self).cdrs.transport.decoded_with@.push(old(self).compressor)
                },
                Err(e) => {
                    &&& e is Io
                    &&& old(self).cdrs.transport.closed || old(
                        self,
                    ).cdrs.transport.replies@.len() == 0
                    &&& final(self).cdrs.transport.replies == old(self).cdrs.transport.replies
                    &&& final(self).cdrs.transport.decoded_with == old(
                        self,
                    ).cdrs.transport.decoded_with
                    &&& if old(self).cdrs.transport.closed {
                        final(self).cdrs.transport.requests == old(self).cdrs.transport.requests
                    } else {
                        sent_one(
                            old(self).cdrs.transport.requests@,
                            final(self).cdrs.transport.requests@,
                        ) && is_execute_req(
                            final(self).cdrs.transport.requests@.last(),
                            id,
                            query_parameters,
                            with_tracing,
                            with_warnings,
                        )
                    }
                },
            },
    {
        let flags = request_flags(with_tracing, with_warnings);
        let request = Request::Execute { id, params: query_parameters, flags };
        let ghost request_g = request;
        let r = self.dispatch(request);
        proof {
            let t0 = old(self).cdrs.transport.requests@;
            let t1 = self.cdrs.transport.requests@;
            if t1 == t0.push(request_g) {
                assert(t1.take(t0.len() as int) =~= t0);
            }
        }
        r
    }

    /// Runs the ad-hoc statement described by `query`, with the flag set
    /// built from the two booleans, and returns the decoded reply.
    pub fn query(
        &mut self,
        query: Query,
        with_tracing: bool,
        with_warnings: bool,
    ) -> (r: Result<Frame, Error>)
        requires
            old(self).started,
        ensures
            final(self).started == old(self).started,
            final(self).compressor == old(self).compressor,
            final(self).cdrs.compressor == old(self).cdrs.compressor,
            final(self).cdrs.authenticator == old(self).cdrs.authenticator,
            final(self).cdrs.transport.closed == old(self).cdrs.transport.closed,
            final(self).cdrs.transport.shutdowns == old(self).cdrs.transport.shutdowns,
            match r {
                Ok(f) => {
                    &&& !old(self).cdrs.transport.closed
                    &&& old(self).cdrs.transport.replies@.len() > 0
                    &&& f == old(self).cdrs.transport.replies@[0]
                    &&& sent_one(
                        old(self).cdrs.transport.requests@,
                        final(self).cdrs.transport.requests@,
                    )
                    &&& is_query_req(
                        final(self).cdrs.transport.requests@.last(),
                        query,
                        with_tracing,
                        with_warnings,
                    )
                    &&& final(self).cdrs.transport.replies@
                        == old(self).cdrs.transport.replies@.drop_first()
                    &&& final(self).cdrs.transport.decoded_with@
                        == old(self).cdrs.transport.decoded_with@.push(old(self).compressor)
                },
                Err(e) => {
                    &&& e is Io
                    &&& old(self).cdrs.transport.closed || old(
                        self,
                    ).cdrs.transport.replies@.len() == 0
                    &&& final(self).cdrs.transport.replies == old(self).cdrs.transport.replies
                    &&& final(self).cdrs.transport.decoded_with == old(
                        self,
                    ).cdrs.transport.decoded_with
                    &&& if old(self).cdrs.transport.closed {
                        final(self).cdrs.transport.requests == old(self).cdrs.transport.requests
                    } else {
                        sent_one(
                            old(self).cdrs.transport.requests@,
                            final(self).cdrs.transport.requests@,
                        ) && is_query_req(
                            final(self).cdrs.transport.requests@.last(),
                            query,
                            with_tracing,
                            with_warnings,
                        )
                    }
                },
            },
    {
        let flags = request_flags(with_tracing, with_warnings);
        let request = Request::Query { query, flags };
        let ghost request_g = request;
        let r = self.dispatch(request);
        proof {
            let t0 = old(self).cdrs.transport.requests@;
            let t1 = self.cdrs.transport.requests@;
            if t1 == t0.push(request_g) {
                assert(t1.take(t0.len() as int) =~= t0);
            }
        }
        r
    }

    /// Runs the batch described by `batch_query`, with the flag set built
    /// from the two booleans, and returns the decoded reply.
    pub fn batch(
        &mut self,
        batch_query: QueryBatch,
        with_tracing: bool,
        with_warnings: bool,
    ) -> (r: Result<Frame, Error>)
        requires
            old(self).started,
        ensures
            final(self).started == old(self).started,
            final(self).compressor == old(self).compressor,
            final(self).cdrs.compressor == old(self).cdrs.compressor,
            final(self).cdrs.authenticator == old(self).cdrs.authenticator,
            final(self).cdrs.transport.closed == old(self).cdrs.transport.closed,
            final(self).cdrs.transport.shutdowns == old(self).cdrs.transport.shutdowns,
            match r {
                Ok(f) => {
                    &&& !old(self).cdrs.transport.closed
                    &&& old(self).cdrs.transport.replies@.len() > 0
                    &&& f == old(self).cdrs.transport.replies@[0]
                    &&& sent_one(
                        old(self).cdrs.transport.requests@,
                        final(self).cdrs.transport.requests@,
                    )
                    &&& is_batch_req(
                        final(self).cdrs.transport.requests@.last(),
                        batch_query,
                        with_tracing,
                        with_warnings,
                    )
                    &&& final(self).cdrs.transport.replies@
                        == old(self).cdrs.transport.replies@.drop_first()
                    &&& final(self).cdrs.transport.decoded_with@
                        == old(self).cdrs.transport.decoded_with@.push(old(self).compressor)
                },
                Err(e) => {
                    &&& e is Io
                    &&& old(self).cdrs.transport.closed || old(
                        self,
                    ).cdrs.transport.replies@.len() == 0
                    &&& final(self).cdrs.transport.replies == old(self).cdrs.transport.replies
                    &&& final(self).cdrs.transport.decoded_with == old(
                        self,
                    ).cdrs.transport.decoded_with
                    &&& if old(self).cdrs.transport.closed {
                        final(self).cdrs.transport.requests == old(self).cdrs.transport.requests
                    } else {
                        sent_one(
                            old(self).cdrs.transport.requests@,
                            final(self).cdrs.transport.requests@,
                        ) && is_batch_req(
                            final(self).cdrs.transport.requests@.last(),
                            batch_query,
                            with_tracing,
                            with_warnings,
                        )
                    }
                },
            },
    {
        let flags = request_flags(with_tracing, with_warnings);
        let request = Request::Batch { batch: batch_query, flags };
        let ghost request_g = request;
        let r = self.dispatch(request);
        proof {
            let t0 = old(self).cdrs.transport.requests@;
            let t1 = self.cdrs.transport.requests@;
            if t1 == t0.push(request_g) {
                assert(t1.take(t0.len() as int) =~= t0);
            }
        }
        r
    }
}

} // verus!
