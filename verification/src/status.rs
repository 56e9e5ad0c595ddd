//! Translation of the failure taxonomy into RPC-style outcomes.
//!
//! Validation failures (an invalid or missing date, a missing scope
//! parameter) are the caller's fault and map to client-error outcomes
//! whose message names what was wrong. Backing-store and decode failures
//! map to a server-error outcome whose message is one fixed generic
//! text: the raw detail is for the log, never for the client.

use vstd::prelude::*;
use vstd::string::*;
use crate::err::{MaskErr, PcrErr};

verus! {

/// The outcome class an error translates to at the RPC boundary.
/// `InvalidArgument` and `FailedPrecondition` are client errors;
/// `Internal` is a server error.
#[derive(Clone, Copy, Debug, PartialEq, Eq, Structural)]
pub enum StatusKind {
    InvalidArgument,
    FailedPrecondition,
    Internal,
}

/// An RPC-style outcome: the class and the client-facing message. The
/// transport layer maps this one-to-one onto its own status type.
#[derive(Debug)]
pub struct StatusOutcome {
    pub kind: StatusKind,
    pub message: String,
}

impl StatusKind {
    /// Whether the class blames the caller's request rather than the
    /// server.
    pub open spec fn is_client_error(self) -> bool {
        self != StatusKind::Internal
    }
}

impl MaskErr {
    /// The outcome class of each failure kind.
    pub open spec fn status_kind_spec(&self) -> StatusKind {
        match self {
            MaskErr::QueryError(_) => StatusKind::Internal,
            MaskErr::IO(_) => StatusKind::Internal,
            MaskErr::InvalidDate => StatusKind::InvalidArgument,
            MaskErr::MissingDate => StatusKind::InvalidArgument,
            MaskErr::MissingParam(_) => StatusKind::FailedPrecondition,
        }
    }

    /// The client-facing message of each failure kind. Internal detail
    /// never appears here: both server-error kinds render one fixed
    /// text, whatever detail they carry.
    pub open spec fn status_message_spec(&self) -> Seq<char> {
        match self {
            MaskErr::QueryError(_) => "An internal error occurred"@,
            MaskErr::IO(_) => "An internal error occurred"@,
            MaskErr::InvalidDate => "The date is invalid"@,
            MaskErr::MissingDate => "The date is missing"@,
            MaskErr::MissingParam(key) => key@,
        }
    }

    /// Translates the failure into its RPC outcome. Malformed input maps
    /// to a client error naming the problem; everything else maps to a
    /// server error with a generic message, while [`MaskErr::message`]
    /// keeps the full detail for the log.
    pub fn to_status(&self) -> (out: StatusOutcome)
        ensures
            out.kind == self.status_kind_spec(),
            out.message@ == self.status_message_spec(),
    {
        match self {
            MaskErr::QueryError(_) => StatusOutcome {
                kind: StatusKind::Internal,
                message: String::from_str("An internal error occurred"),
            },
            MaskErr::IO(_) => StatusOutcome {
                kind: StatusKind::Internal,
                message: String::from_str("An internal error occurred"),
            },
            MaskErr::InvalidDate => StatusOutcome {
                kind: StatusKind::InvalidArgument,
                message: String::from_str("The date is invalid"),
            },
            MaskErr::MissingDate => StatusOutcome {
                kind: StatusKind::InvalidArgument,
                message: String::from_str("The date is missing"),
            },
            MaskErr::MissingParam(key) => StatusOutcome {
                kind: StatusKind::FailedPrecondition,
                message: String::from_str(key.as_str()),
            },
        }
    }
}

impl PcrErr {
    /// The outcome class of each failure kind.
    pub open spec fn status_kind_spec(&self) -> StatusKind {
        match self {
            PcrErr::QueryError(_) => StatusKind::Internal,
            PcrErr::InvalidDate => StatusKind::InvalidArgument,
            PcrErr::MissingParam(_) => StatusKind::InvalidArgument,
        }
    }

    /// The client-facing message of each failure kind; the message of a
    /// missing parameter names the parameter.
    pub open spec fn status_message_spec(&self) -> Seq<char> {
        match self {
            PcrErr::QueryError(_) => "An internal error occurred"@,
            PcrErr::InvalidDate => "The date is invalid"@,
            PcrErr::MissingParam(name) => "The request is not valid. Param "@ + name@
                + " is missing"@,
        }
    }

    /// Translates the failure into its RPC outcome, as
    /// [`MaskErr::to_status`] does for the service errors.
    pub fn to_status(&self) -> (out: StatusOutcome)
        ensures
            out.kind == self.status_kind_spec(),
            out.message@ == self.status_message_spec(),
    {
        match self {
            PcrErr::QueryError(_) => StatusOutcome {
                kind: StatusKind::Internal,
                message: String::from_str("An internal error occurred"),
            },
            PcrErr::InvalidDate => StatusOutcome {
                kind: StatusKind::InvalidArgument,
                message: String::from_str("The date is invalid"),
            },
            PcrErr::MissingParam(name) => StatusOutcome {
                kind: StatusKind::InvalidArgument,
                message: String::from_str("The request is not valid. Param ").concat(
                    name.as_str(),
                ).concat(" is missing"),
            },
        }
    }
}

/// Validation failures translate to client errors, backing-store and
/// decode failures to server errors.
pub proof fn lemma_error_classes(e: MaskErr)
    ensures
        e.status_kind_spec().is_client_error() <==> !(e is QueryError || e is IO),
{
}

/// The same classification holds for the PCR-service failures.
pub proof fn lemma_pcr_error_classes(e: PcrErr)
    ensures
        e.status_kind_spec().is_client_error() <==> !(e is QueryError),
{
}

/// No internal detail leaks: any two server-side failures, whatever
/// detail they carry, translate to the one fixed client-facing message.
pub proof fn lemma_no_internal_leak(a: MaskErr, b: MaskErr)
    requires
        a is QueryError || a is IO,
        b is QueryError || b is IO,
    ensures
        a.status_kind_spec() == StatusKind::Internal,
        b.status_kind_spec() == StatusKind::Internal,
        a.status_message_spec() == b.status_message_spec(),
{
}

} // verus!
