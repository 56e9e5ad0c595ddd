//! The closed set of failure kinds the query pipeline can produce.
//!
//! Validation failures (`InvalidDate`, missing date or scope parameters)
//! are detected before any query runs; `Connection`-style failures come
//! from the backing store; decode failures (`Exec`) mean a row did not
//! match the expected shape. Each error renders to a human-readable
//! message through a `message` method with an exact contract.

use vstd::prelude::*;
use vstd::string::*;

verus! {

/// Failures of the backing-store layer: the connection could not be
/// built or used, or a fetched row could not be decoded (`Exec`).
#[derive(Debug)]
pub enum DBError {
    MissingEnv(String),
    IO(String),
    Connection(String),
    Exec,
}

/// Failures surfaced by the statistics services: a query failed, the
/// request carried an invalid or missing date, a required parameter was
/// absent, or an I/O step failed.
#[derive(Debug)]
pub enum MaskErr {
    QueryError(String),
    InvalidDate,
    MissingDate,
    MissingParam(String),
    IO(String),
}

/// Failures surfaced by the PCR-test services.
#[derive(Debug)]
pub enum PcrErr {
    QueryError(String),
    InvalidDate,
    MissingParam(String),
}

impl DBError {
    /// The rendered message, character for character.
    pub open spec fn message_spec(&self) -> Seq<char> {
        match self {
            DBError::MissingEnv(msg) => "Unable to build database uri. Error: "@ + msg@,
            DBError::IO(msg) => "Unable to perform IO operation, "@ + msg@,
            DBError::Connection(msg) => "Unable to connect to the database, reason: "@ + msg@,
            DBError::Exec => "Error while parsing result"@,
        }
    }

    /// Human-readable description of the failure.
    pub fn message(&self) -> (msg: String)
        ensures
            msg@ == self.message_spec(),
    {
        match self {
            DBError::MissingEnv(msg) => String::from_str(
                "Unable to build database uri. Error: ",
            ).concat(msg.as_str()),
            DBError::IO(msg) => String::from_str("Unable to perform IO operation, ").concat(
                msg.as_str(),
            ),
            DBError::Connection(msg) => String::from_str(
                "Unable to connect to the database, reason: ",
            ).concat(msg.as_str()),
            DBError::Exec => String::from_str("Error while parsing result"),
        }
    }
}

impl MaskErr {
    /// The rendered message, character for character.
    pub open spec fn message_spec(&self) -> Seq<char> {
        match self {
            MaskErr::QueryError(reason) => "An error happened while fetching data, "@ + reason@,
            MaskErr::InvalidDate => "The date is invalid"@,
            MaskErr::MissingDate => "The date is missing"@,
            MaskErr::MissingParam(key) => "A param of name "@ + key@ + " is missing"@,
            MaskErr::IO(msg) => "Unable to open file for reasons: "@ + msg@,
        }
    }

    /// Human-readable description of the failure.
    pub fn message(&self) -> (msg: String)
        ensures
            msg@ == self.message_spec(),
    {
        match self {
            MaskErr::QueryError(reason) => String::from_str(
                "An error happened while fetching data, ",
            ).concat(reason.as_str()),
            MaskErr::InvalidDate => String::from_str("The date is invalid"),
            MaskErr::MissingDate => String::from_str("The date is missing"),
            MaskErr::MissingParam(key) => String::from_str("A param of name ").concat(
                key.as_str(),
            ).concat(" is missing"),
            MaskErr::IO(msg) => String::from_str("Unable to open file for reasons: ").concat(
                msg.as_str(),
            ),
        }
    }
}

impl PcrErr {
    /// The rendered message, character for character.
    pub open spec fn message_spec(&self) -> Seq<char> {
        match self {
            PcrErr::QueryError(reason) => "An error happened while fetching data, "@ + reason@,
            PcrErr::InvalidDate => "The date is invalid"@,
            PcrErr::MissingParam(name) => "The request is not valid. Param "@ + name@
                + " is missing"@,
        }
    }

    /// Human-readable description of the failure.
    pub fn message(&self) -> (msg: String)
        ensures
            msg@ == self.message_spec(),
    {
        match self {
            PcrErr::QueryError(reason) => String::from_str(
                "An error happened while fetching data, ",
            ).concat(reason.as_str()),
            PcrErr::InvalidDate => String::from_str("The date is invalid"),
            PcrErr::MissingParam(name) => String::from_str("The request is not valid. Param ")
                .concat(name.as_str()).concat(" is missing"),
        }
    }
}

impl DBError {
    /// A backing-store failure surfaces to the services as a query error
    /// carrying the rendered detail.
    pub fn to_mask_err(&self) -> (e: MaskErr)
        ensures
            e matches MaskErr::QueryError(detail) && detail@ == self.message_spec(),
    {
        MaskErr::QueryError(self.message())
    }
}

} // verus!
