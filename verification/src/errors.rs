//! Error taxonomy of the driver workflows.

use vstd::prelude::*;
use vstd::string::StringExecFns;

use crate::render::{dec_seq, dec_u64};

verus! {

/// A workflow error, carrying enough context for an operator to tell a
/// transient transport failure from a configuration mistake or from local
/// state that has fallen behind the chain.
pub enum Error {
    /// Bad or missing type-id, cell layout mismatch, or a missing on-chain
    /// family where one was expected.
    Configuration { msg: String },
    /// The signing key is missing or unusable.
    KeyAccess { msg: String },
    /// The native update batch and the on-chain state share no contiguous
    /// boundary.
    Alignment { msg: String },
    /// The cryptographic check failed or produced an unusable record.
    Verification { msg: String },
    /// The candidate update spans fewer slots than the family's policy
    /// demands.
    InsufficientUpdates { span: u64, required: u8 },
    /// Broadcast was rejected; the message may carry pool diagnostics.
    Submission { msg: String },
    /// The confirmation deadline was exhausted without the transaction being
    /// committed to a block.
    Timeout { waited_secs: u64 },
    /// The local proof store could not be read or written.
    Storage { msg: String },
    /// A create was attempted against a family that already exists; carries
    /// the base slot at which the family's latest record starts.
    AlreadyExists { minimal_slot: u64 },
}

/// The operator-facing text of an error.
pub open spec fn error_message(e: &Error) -> Seq<char> {
    match e {
        Error::Configuration { msg } => "configuration error: "@ + msg@,
        Error::KeyAccess { msg } => "key access error: "@ + msg@,
        Error::Alignment { msg } => "alignment error: "@ + msg@,
        Error::Verification { msg } => "verification error: "@ + msg@,
        Error::InsufficientUpdates { span, required } => "not enough updates to update multi-client: "@
            + dec_seq(*span as int) + " < "@ + dec_seq(*required as int),
        Error::Submission { msg } => "submission error: "@ + msg@,
        Error::Timeout { waited_secs } => "transaction not committed after "@ + dec_seq(
            *waited_secs as int,
        ) + " s"@,
        Error::Storage { msg } => "storage error: "@ + msg@,
        Error::AlreadyExists { minimal_slot } => "multi-client family already exists at slot "@
            + dec_seq(*minimal_slot as int),
    }
}

impl Error {
    /// Renders the error for the operator, with its class and context.
    pub fn message(&self) -> (r: String)
        ensures
            r@ == error_message(self),
    {
        match self {
            Error::Configuration { msg } => {
                let mut r = String::from_str("configuration error: ");
                r.append(msg.as_str());
                r
            },
            Error::KeyAccess { msg } => {
                let mut r = String::from_str("key access error: ");
                r.append(msg.as_str());
                r
            },
            Error::Alignment { msg } => {
                let mut r = String::from_str("alignment error: ");
                r.append(msg.as_str());
                r
            },
            Error::Verification { msg } => {
                let mut r = String::from_str("verification error: ");
                r.append(msg.as_str());
                r
            },
            Error::InsufficientUpdates { span, required } => {
                let mut r = String::from_str("not enough updates to update multi-client: ");
                let span_text = dec_u64(*span);
                r.append(span_text.as_str());
                r.append(" < ");
                let required_text = dec_u64(*required as u64);
                r.append(required_text.as_str());
                r
            },
            Error::Submission { msg } => {
                let mut r = String::from_str("submission error: ");
                r.append(msg.as_str());
                r
            },
            Error::Timeout { waited_secs } => {
                let mut r = String::from_str("transaction not committed after ");
                let waited_text = dec_u64(*waited_secs);
                r.append(waited_text.as_str());
                r.append(" s");
                r
            },
            Error::Storage { msg } => {
                let mut r = String::from_str("storage error: ");
                r.append(msg.as_str());
                r
            },
            Error::AlreadyExists { minimal_slot } => {
                let mut r = String::from_str("multi-client family already exists at slot ");
                let slot_text = dec_u64(*minimal_slot);
                r.append(slot_text.as_str());
                r
            },
        }
    }

    /// True of the error classes whose surfacing must be preceded by rolling
    /// the local proof store back to the pre-verification checkpoint.
    pub open spec fn spec_requires_rollback(&self) -> bool {
        match self {
            Error::InsufficientUpdates { .. } => true,
            Error::Submission { .. } => true,
            Error::Timeout { .. } => true,
            Error::KeyAccess { .. } => true,
            _ => false,
        }
    }
}

} // verus!
