//! The status enumeration reported by storage operations, and the error
//! value that wraps a non-success status together with an optional message.

use vstd::prelude::*;
use vstd::string::StringExecFns;

verus! {

/// Outcome of a storage operation: success, plus one variant for each
/// specific failure reason.  The full enumeration is part of the public
/// contract; callers branch on it (for example treating `DBS_NAME_NOT_FOUND`
/// as "absent" while treating `DBS_WRONG_VALUE_TYPE` as a schema error).
#[allow(non_camel_case_types)]
#[derive(Clone, Copy, Debug, PartialEq, Eq, Structural)]
pub enum DATABLOCK_STATUS {
    DBS_SUCCESS,
    DBS_DATABLOCK_NULL,
    DBS_SECTION_NULL,
    DBS_SECTION_NOT_FOUND,
    DBS_NAME_NULL,
    DBS_NAME_NOT_FOUND,
    DBS_NAME_ALREADY_EXISTS,
    DBS_VALUE_NULL,
    DBS_WRONG_VALUE_TYPE,
    DBS_MEMORY_ALLOC_FAILURE,
    DBS_SIZE_NULL,
    DBS_SIZE_NONPOSITIVE,
    DBS_SIZE_INSUFFICIENT,
    DBS_NDIM_NONPOSITIVE,
    DBS_NDIM_OVERFLOW,
    DBS_NDIM_MISMATCH,
    DBS_EXTENTS_NULL,
    DBS_EXTENTS_MISMATCH,
    DBS_LOGIC_ERROR,
    DBS_USED_DEFAULT,
}

/// The name of each status, as text.
pub open spec fn status_text(k: DATABLOCK_STATUS) -> Seq<char> {
    match k {
        DATABLOCK_STATUS::DBS_SUCCESS => "DBS_SUCCESS"@,
        DATABLOCK_STATUS::DBS_DATABLOCK_NULL => "DBS_DATABLOCK_NULL"@,
        DATABLOCK_STATUS::DBS_SECTION_NULL => "DBS_SECTION_NULL"@,
        DATABLOCK_STATUS::DBS_SECTION_NOT_FOUND => "DBS_SECTION_NOT_FOUND"@,
        DATABLOCK_STATUS::DBS_NAME_NULL => "DBS_NAME_NULL"@,
        DATABLOCK_STATUS::DBS_NAME_NOT_FOUND => "DBS_NAME_NOT_FOUND"@,
        DATABLOCK_STATUS::DBS_NAME_ALREADY_EXISTS => "DBS_NAME_ALREADY_EXISTS"@,
        DATABLOCK_STATUS::DBS_VALUE_NULL => "DBS_VALUE_NULL"@,
        DATABLOCK_STATUS::DBS_WRONG_VALUE_TYPE => "DBS_WRONG_VALUE_TYPE"@,
        DATABLOCK_STATUS::DBS_MEMORY_ALLOC_FAILURE => "DBS_MEMORY_ALLOC_FAILURE"@,
        DATABLOCK_STATUS::DBS_SIZE_NULL => "DBS_SIZE_NULL"@,
        DATABLOCK_STATUS::DBS_SIZE_NONPOSITIVE => "DBS_SIZE_NONPOSITIVE"@,
        DATABLOCK_STATUS::DBS_SIZE_INSUFFICIENT => "DBS_SIZE_INSUFFICIENT"@,
        DATABLOCK_STATUS::DBS_NDIM_NONPOSITIVE => "DBS_NDIM_NONPOSITIVE"@,
        DATABLOCK_STATUS::DBS_NDIM_OVERFLOW => "DBS_NDIM_OVERFLOW"@,
        DATABLOCK_STATUS::DBS_NDIM_MISMATCH => "DBS_NDIM_MISMATCH"@,
        DATABLOCK_STATUS::DBS_EXTENTS_NULL => "DBS_EXTENTS_NULL"@,
        DATABLOCK_STATUS::DBS_EXTENTS_MISMATCH => "DBS_EXTENTS_MISMATCH"@,
        DATABLOCK_STATUS::DBS_LOGIC_ERROR => "DBS_LOGIC_ERROR"@,
        DATABLOCK_STATUS::DBS_USED_DEFAULT => "DBS_USED_DEFAULT"@,
    }
}

impl DATABLOCK_STATUS {
    /// The name of this status, as a string.
    pub fn description(&self) -> (r: &'static str)
        ensures
            r@ == status_text(*self),
    {
        match *self {
            DATABLOCK_STATUS::DBS_SUCCESS => "DBS_SUCCESS",
            DATABLOCK_STATUS::DBS_DATABLOCK_NULL => "DBS_DATABLOCK_NULL",
            DATABLOCK_STATUS::DBS_SECTION_NULL => "DBS_SECTION_NULL",
            DATABLOCK_STATUS::DBS_SECTION_NOT_FOUND => "DBS_SECTION_NOT_FOUND",
            DATABLOCK_STATUS::DBS_NAME_NULL => "DBS_NAME_NULL",
            DATABLOCK_STATUS::DBS_NAME_NOT_FOUND => "DBS_NAME_NOT_FOUND",
            DATABLOCK_STATUS::DBS_NAME_ALREADY_EXISTS => "DBS_NAME_ALREADY_EXISTS",
            DATABLOCK_STATUS::DBS_VALUE_NULL => "DBS_VALUE_NULL",
            DATABLOCK_STATUS::DBS_WRONG_VALUE_TYPE => "DBS_WRONG_VALUE_TYPE",
            DATABLOCK_STATUS::DBS_MEMORY_ALLOC_FAILURE => "DBS_MEMORY_ALLOC_FAILURE",
            DATABLOCK_STATUS::DBS_SIZE_NULL => "DBS_SIZE_NULL",
            DATABLOCK_STATUS::DBS_SIZE_NONPOSITIVE => "DBS_SIZE_NONPOSITIVE",
            DATABLOCK_STATUS::DBS_SIZE_INSUFFICIENT => "DBS_SIZE_INSUFFICIENT",
            DATABLOCK_STATUS::DBS_NDIM_NONPOSITIVE => "DBS_NDIM_NONPOSITIVE",
            DATABLOCK_STATUS::DBS_NDIM_OVERFLOW => "DBS_NDIM_OVERFLOW",
            DATABLOCK_STATUS::DBS_NDIM_MISMATCH => "DBS_NDIM_MISMATCH",
            DATABLOCK_STATUS::DBS_EXTENTS_NULL => "DBS_EXTENTS_NULL",
            DATABLOCK_STATUS::DBS_EXTENTS_MISMATCH => "DBS_EXTENTS_MISMATCH",
            DATABLOCK_STATUS::DBS_LOGIC_ERROR => "DBS_LOGIC_ERROR",
            DATABLOCK_STATUS::DBS_USED_DEFAULT => "DBS_USED_DEFAULT",
        }
    }
}

/// Error raised by storage operations: a status kind, plus an optional
/// free-text reason naming the failing operation and the (section, name)
/// pair involved.  Immutable once constructed.
#[derive(Debug)]
pub struct CosmosisError {
    pub kind: DATABLOCK_STATUS,
    pub reason: Option<String>,
}

/// Result type for storage operations.
pub type CosmosisResult<T> = Result<T, CosmosisError>;

impl CosmosisError {
    /// The message attached to this error, if any.
    pub open spec fn spec_reason(&self) -> Option<Seq<char>> {
        match self.reason {
            Some(s) => Some(s@),
            None => None,
        }
    }

    /// An error of the given kind, with no message.
    pub fn new(kind: DATABLOCK_STATUS) -> (r: Self)
        ensures
            r.kind == kind,
            r.spec_reason() is None,
    {
        CosmosisError { kind, reason: None }
    }

    /// The same error, now carrying the given message.
    pub fn with_reason(self, reason: String) -> (r: Self)
        ensures
            r.kind == self.kind,
            r.spec_reason() == Some(reason@),
    {
        CosmosisError { kind: self.kind, reason: Some(reason) }
    }

    /// The attached message if there is one, otherwise the name of the
    /// status kind.
    pub fn description(&self) -> (r: &str)
        ensures
            match self.spec_reason() {
                Some(s) => r@ == s,
                None => r@ == status_text(self.kind),
            },
    {
        match &self.reason {
            Some(s) => s.as_str(),
            None => self.kind.description(),
        }
    }

    /// The full rendering of this error, as text.
    pub open spec fn spec_message(&self) -> Seq<char> {
        if self.kind == DATABLOCK_STATUS::DBS_SUCCESS {
            "CosmosisError(success)"@
        } else {
            match self.spec_reason() {
                Some(s) => "CosmosisError(error: "@ + status_text(self.kind) + ", reason: "@ + s
                    + ")"@,
                None => "CosmosisError(error: "@ + status_text(self.kind) + ")"@,
            }
        }
    }

    /// Render this error as text: the status kind's name, followed by the
    /// attached message if there is one.
    pub fn message(&self) -> (r: String)
        ensures
            r@ == self.spec_message(),
    {
        if self.kind == DATABLOCK_STATUS::DBS_SUCCESS {
            String::from_str("CosmosisError(success)")
        } else {
            let mut out = String::from_str("CosmosisError(error: ");
            out.append(self.kind.description());
            match &self.reason {
                Some(s) => {
                    out.append(", reason: ");
                    out.append(s.as_str());
                },
                None => {},
            }
            out.append(")");
            out
        }
    }
}

impl From<DATABLOCK_STATUS> for CosmosisError {
    /// An error of the given kind, with no message.
    fn from(obj: DATABLOCK_STATUS) -> (r: Self)
        ensures
            r.kind == obj,
            r.spec_reason() is None,
    {
        CosmosisError { kind: obj, reason: None }
    }
}

impl vstd::std_specs::convert::FromSpecImpl<DATABLOCK_STATUS> for CosmosisError {
    closed spec fn obeys_from_spec() -> bool {
        true
    }

    closed spec fn from_spec(t: DATABLOCK_STATUS) -> Self {
        CosmosisError { kind: t, reason: None }
    }
}

} // verus!
