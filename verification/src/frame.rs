//! The logical shape of protocol messages.
//!
//! The binary frame codec — header layout, length fields, body encoding,
//! compression of bodies — is a collaborator outside this core. What the core
//! decides, and what is modeled here, is the protocol intent of each outgoing
//! request (which kind, which payload, which flags) and the typed envelope of
//! each decoded reply (opcode plus the body fields the core reads).

use vstd::prelude::*;

use crate::query::{Query, QueryBatch, QueryParams};

verus! {

/// The message-type tag of a frame.
#[derive(Clone, Copy, Debug, PartialEq, Eq, Structural)]
pub enum Opcode {
    Error,
    Startup,
    Ready,
    Authenticate,
    Options,
    Supported,
    Query,
    Result,
    Prepare,
    Execute,
    Register,
    Event,
    Batch,
    AuthChallenge,
    AuthResponse,
    AuthSuccess,
}

/// A per-request modifier carried in the frame header.
#[derive(Clone, Copy, Debug, PartialEq, Eq, Structural)]
pub enum Flag {
    Compression,
    Tracing,
    CustomPayload,
    Warning,
}

/// The flag set attached to an outgoing request, built fresh per call from
/// the two caller booleans: empty, `[Tracing]`, `[Warning]`, or
/// `[Tracing, Warning]` in that insertion order.
pub open spec fn spec_flags(with_tracing: bool, with_warnings: bool) -> Seq<Flag> {
    let with_t = if with_tracing {
        Seq::<Flag>::empty().push(Flag::Tracing)
    } else {
        Seq::<Flag>::empty()
    };
    if with_warnings {
        with_t.push(Flag::Warning)
    } else {
        with_t
    }
}

/// Builds the flag set of one request from the caller's two booleans.
pub fn request_flags(with_tracing: bool, with_warnings: bool) -> (v: Vec<Flag>)
    ensures
        v@ == spec_flags(with_tracing, with_warnings),
{
    let mut v: Vec<Flag> = Vec::new();
    if with_tracing {
        v.push(Flag::Tracing);
    }
    if with_warnings {
        v.push(Flag::Warning);
    }
    proof {
        assert(v@ =~= spec_flags(with_tracing, with_warnings));
    }
    v
}

/// The four flag sets a request can carry, one per combination of the two
/// caller booleans, each in insertion order `Tracing` before `Warning`.
pub proof fn lemma_flag_sets()
    ensures
        spec_flags(false, false) =~= Seq::<Flag>::empty(),
        spec_flags(true, false) =~= seq![Flag::Tracing],
        spec_flags(false, true) =~= seq![Flag::Warning],
        spec_flags(true, true) =~= seq![Flag::Tracing, Flag::Warning],
{
}

/// The mapping a Supported reply carries: option name to the list of values
/// the server supports for it.
pub type CassandraOptions = Vec<(String, Vec<String>)>;

/// The decoded body of a reply, reduced to the fields this core reads.
#[derive(Debug)]
pub enum ResponseBody {
    /// The option mapping of a Supported reply.
    Supported(CassandraOptions),
    /// The authenticator class name of an AUTHENTICATE reply. The protocol
    /// guarantees the name is present; `None` models a malformed body, which
    /// preconditions exclude.
    Authenticate(Option<String>),
    /// Any body this core does not inspect (READY, AUTH_SUCCESS, results).
    Other,
}

/// One decoded reply: the typed envelope the frame-decoding collaborator
/// hands back.
#[derive(Debug)]
pub struct Frame {
    /// The message-type tag of the reply.
    pub opcode: Opcode,
    /// The decoded body.
    pub body: ResponseBody,
}

/// The protocol intent of one outgoing request: everything the
/// frame-encoding collaborator needs to lay out the bytes.
#[derive(Debug)]
pub enum Request {
    /// Capability discovery; carries nothing.
    Options,
    /// Opens the handshake, advertising the chosen compressor's wire name.
    Startup {
        /// The compressor's wire name, absent when uncompressed.
        compression: Option<String>,
    },
    /// Answers an AUTHENTICATE challenge with the authenticator's token.
    AuthResponse {
        /// The opaque token the authenticator produced.
        token: Vec<u8>,
    },
    /// Asks the server to prepare a statement.
    Prepare {
        /// The CQL statement text.
        query: String,
        /// The per-request flag set.
        flags: Vec<Flag>,
    },
    /// Executes an already-prepared statement.
    Execute {
        /// The prepared-statement identifier the server returned.
        id: Vec<u8>,
        /// The parameters bound to the execution.
        params: QueryParams,
        /// The per-request flag set.
        flags: Vec<Flag>,
    },
    /// Runs one ad-hoc statement.
    Query {
        /// The full statement description.
        query: Query,
        /// The per-request flag set.
        flags: Vec<Flag>,
    },
    /// Runs a batch of statements.
    Batch {
        /// The batch description.
        batch: QueryBatch,
        /// The per-request flag set.
        flags: Vec<Flag>,
    },
}

/// Whether `r` is the STARTUP request of a handshake driven with selector
/// `c`: it must advertise exactly that selector's wire name.
pub open spec fn is_startup_req(r: Request, c: crate::compression::Compression) -> bool {
    r matches Request::Startup { compression }
        && crate::compression::opt_string_view(compression)
            == crate::compression::spec_wire_name(c)
}

/// Whether `r` is an AUTH_RESPONSE carrying exactly the token `token`.
pub open spec fn is_auth_response_req(r: Request, token: Seq<u8>) -> bool {
    r matches Request::AuthResponse { token: t } && t@ == token
}

/// Whether `r` is a PREPARE of statement `query` with the flag set built
/// from the two booleans.
pub open spec fn is_prepare_req(
    r: Request,
    query: String,
    with_tracing: bool,
    with_warnings: bool,
) -> bool {
    r matches Request::Prepare { query: q, flags }
        && q == query && flags@ == spec_flags(with_tracing, with_warnings)
}

/// Whether `r` is an EXECUTE of prepared statement `id` binding `params`,
/// with the flag set built from the two booleans.
pub open spec fn is_execute_req(
    r: Request,
    id: Vec<u8>,
    params: QueryParams,
    with_tracing: bool,
    with_warnings: bool,
) -> bool {
    r matches Request::Execute { id: i, params: p, flags }
        && i == id && p == params && flags@ == spec_flags(with_tracing, with_warnings)
}

/// Whether `r` is a QUERY carrying the full description `query`, with the
/// flag set built from the two booleans.
pub open spec fn is_query_req(
    r: Request,
    query: Query,
    with_tracing: bool,
    with_warnings: bool,
) -> bool {
    r matches Request::Query { query: q, flags }
        && q == query && flags@ == spec_flags(with_tracing, with_warnings)
}

/// Whether `r` is a BATCH carrying the description `batch`, with the flag
/// set built from the two booleans.
pub open spec fn is_batch_req(
    r: Request,
    batch: QueryBatch,
    with_tracing: bool,
    with_warnings: bool,
) -> bool {
    r matches Request::Batch { batch: b, flags }
        && b == batch && flags@ == spec_flags(with_tracing, with_warnings)
}

} // verus!
