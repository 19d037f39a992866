//! Caller-supplied descriptions of CQL statements.
//!
//! These are opaque payloads from the core's point of view: it validates
//! nothing in them and passes them through unchanged to the frame-encoding
//! collaborator. They are plain data so that a contract can state exactly
//! which payload an outgoing request carries.

use vstd::prelude::*;

verus! {

/// The consistency level a statement asks for.
#[derive(Clone, Copy, Debug, PartialEq, Eq, Structural)]
pub enum Consistency {
    Any,
    One,
    Two,
    Three,
    Quorum,
    All,
    LocalQuorum,
    EachQuorum,
    Serial,
    LocalSerial,
    LocalOne,
}

/// One bound value of a statement, already marshaled to bytes by the CQL
/// value collaborator.
#[derive(Clone, Debug, PartialEq, Eq)]
pub struct Value {
    /// The marshaled body of the value.
    pub body: Vec<u8>,
}

/// A full description of one ad-hoc statement: text, consistency, bound
/// values, naming mode, paging parameters, serial consistency and timestamp.
#[derive(Clone, Debug, PartialEq, Eq)]
pub struct Query {
    /// The CQL statement text.
    pub query: String,
    /// The consistency level to execute under.
    pub consistency: Consistency,
    /// Bound values, if the statement has placeholders.
    pub values: Option<Vec<Value>>,
    /// Whether bound values are passed by name.
    pub with_names: Option<bool>,
    /// Desired page size, if paging is wanted.
    pub page_size: Option<i32>,
    /// Paging state returned by an earlier page, if continuing one.
    pub paging_state: Option<Vec<u8>>,
    /// Serial consistency for conditional updates.
    pub serial_consistency: Option<Consistency>,
    /// Client-supplied timestamp.
    pub timestamp: Option<i64>,
}

/// Parameters bound to an already-prepared statement when executing it.
#[derive(Clone, Debug, PartialEq, Eq)]
pub struct QueryParams {
    /// The consistency level to execute under.
    pub consistency: Consistency,
    /// Bound values, if the statement has placeholders.
    pub values: Option<Vec<Value>>,
    /// Whether bound values are passed by name.
    pub with_names: Option<bool>,
    /// Desired page size, if paging is wanted.
    pub page_size: Option<i32>,
    /// Paging state returned by an earlier page, if continuing one.
    pub paging_state: Option<Vec<u8>>,
    /// Serial consistency for conditional updates.
    pub serial_consistency: Option<Consistency>,
    /// Client-supplied timestamp.
    pub timestamp: Option<i64>,
}

/// How the statements of a batch are applied.
#[derive(Clone, Copy, Debug, PartialEq, Eq, Structural)]
pub enum BatchType {
    Logged,
    Unlogged,
    Counter,
}

/// One statement inside a batch: either raw text or a prepared-statement
/// identifier, with its bound values.
#[derive(Clone, Debug, PartialEq, Eq)]
pub enum BatchQuerySubject {
    /// Raw CQL statement text.
    QueryString(String),
    /// The identifier of a prepared statement.
    PreparedId(Vec<u8>),
}

/// One entry of a batch.
#[derive(Clone, Debug, PartialEq, Eq)]
pub struct BatchQuery {
    /// What to execute: text or a prepared-statement identifier.
    pub subject: BatchQuerySubject,
    /// Bound values for this entry.
    pub values: Vec<Value>,
}

/// A batch of statements executed as one request.
#[derive(Clone, Debug, PartialEq, Eq)]
pub struct QueryBatch {
    /// How the batch is applied.
    pub batch_type: BatchType,
    /// The statements of the batch, in order.
    pub queries: Vec<BatchQuery>,
    /// The consistency level to execute under.
    pub consistency: Consistency,
    /// Serial consistency for conditional updates.
    pub serial_consistency: Option<Consistency>,
    /// Client-supplied timestamp.
    pub timestamp: Option<i64>,
}

} // verus!
