//! Process exit codes shared across the tools.

use vstd::prelude::*;

verus! {

/// The exit-code table, plus the `doctor --strict` gate codes. Tools that
/// predate the table keep any historical codes they still document; nothing
/// here forces a renumbering.
#[derive(Debug, Clone, Copy, PartialEq, Eq, Structural)]
pub enum ExitCode {
    /// Command completed.
    Success,
    /// Bad input, bad flags, malformed data.
    Validation,
    /// A claim on the requested path is held by someone else.
    ClaimConflict,
    /// The referenced record does not exist.
    NotFound,
    /// Database, filesystem, or serialization failure while persisting.
    Storage,
    /// `doctor --strict`: routine action needed before proceeding
    /// (initialize / coordinate / refresh).
    GateAct,
    /// `doctor --strict`: the change needs scrutiny (review / validate).
    GateReview,
    /// `doctor --strict`: stop; the tool considers the state unsafe to build on.
    GateStop,
}

impl ExitCode {
    /// The number each code stands for in the table.
    pub open spec fn spec_code(self) -> i32 {
        match self {
            ExitCode::Success => 0,
            ExitCode::Validation => 1,
            ExitCode::ClaimConflict => 2,
            ExitCode::NotFound => 3,
            ExitCode::Storage => 4,
            ExitCode::GateAct => 10,
            ExitCode::GateReview => 20,
            ExitCode::GateStop => 30,
        }
    }

    /// The process exit status for this code.
    pub fn code(self) -> (r: i32)
        ensures
            r == self.spec_code(),
            r == match self {
                ExitCode::Success => 0i32,
                ExitCode::Validation => 1i32,
                ExitCode::ClaimConflict => 2i32,
                ExitCode::NotFound => 3i32,
                ExitCode::Storage => 4i32,
                ExitCode::GateAct => 10i32,
                ExitCode::GateReview => 20i32,
                ExitCode::GateStop => 30i32,
            },
    {
        match self {
            ExitCode::Success => 0,
            ExitCode::Validation => 1,
            ExitCode::ClaimConflict => 2,
            ExitCode::NotFound => 3,
            ExitCode::Storage => 4,
            ExitCode::GateAct => 10,
            ExitCode::GateReview => 20,
            ExitCode::GateStop => 30,
        }
    }
}

impl From<ExitCode> for i32 {
    fn from(code: ExitCode) -> (r: i32) {
        code.code()
    }
}

impl vstd::std_specs::convert::FromSpecImpl<ExitCode> for i32 {
    open spec fn obeys_from_spec() -> bool {
        true
    }

    open spec fn from_spec(v: ExitCode) -> i32 {
        v.spec_code()
    }
}

/// Distinct codes never share an exit status.
pub proof fn lemma_codes_distinct(a: ExitCode, b: ExitCode)
    ensures
        a.spec_code() == b.spec_code() <==> a == b,
{
}

} // verus!
