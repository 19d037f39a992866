//! The compression selector negotiated during the handshake.
//!
//! The algorithms themselves (lz4, snappy) are a collaborator concern; this
//! core only records which selector is active and projects it to the wire
//! name that STARTUP advertises.

use vstd::prelude::*;

verus! {

/// The compression algorithm a connection has agreed on. Exactly one
/// selector is active per session at any time; `NoCompression` means frame bodies
/// travel uncompressed.
#[derive(Clone, Copy, Debug, PartialEq, Eq, Structural)]
pub enum Compression {
    NoCompression,
    Lz4,
    Snappy,
}

/// The wire name a selector advertises in STARTUP: no name at all for
/// `Compression::NoCompression`, the algorithm's registered string otherwise.
pub open spec fn spec_wire_name(c: Compression) -> Option<Seq<char>> {
    match c {
        Compression::NoCompression => None,
        Compression::Lz4 => Some("lz4"@),
        Compression::Snappy => Some("snappy"@),
    }
}

/// The view of an optional owned string, for relating executable wire names
/// to [`spec_wire_name`].
pub open spec fn opt_string_view(o: Option<String>) -> Option<Seq<char>> {
    match o {
        Some(s) => Some(s@),
        None => None,
    }
}

impl Compression {
    /// Projects the selector to the name STARTUP carries on the wire.
    pub fn into_string(&self) -> (r: Option<String>)
        ensures
            opt_string_view(r) == spec_wire_name(*self),
    {
        match self {
            Compression::NoCompression => None,
            Compression::Lz4 => Some(String::from_str("lz4")),
            Compression::Snappy => Some(String::from_str("snappy")),
        }
    }
}

} // verus!
