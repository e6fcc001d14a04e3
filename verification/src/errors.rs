use vstd::prelude::*;

verus! {

/// Failures surfaced by the binding layer.
///
/// Every native call that can fail maps to a distinct, locally recoverable
/// variant; absence of data (no pending commit, no composition) is never
/// reported through this type.
#[derive(Clone, Copy, Debug, PartialEq, Eq)]
pub enum Error {
    /// A key event could not be submitted.
    ProcessKey,
    /// The native engine refused to destroy a session.
    CloseSession,
    /// A session operation was issued against a closed or stale session.
    SessionNotExists,
    /// The native engine rejected a simulated key sequence.
    SimulateKeySequence,
    /// Session creation failed, or the created handle was not live.
    CreateSession,
    /// The native engine could not allocate a status snapshot.
    GetStatus,
    /// The requested schema is unknown to the native engine.
    SelectSchema,
    /// The native engine rejected the request to start maintenance.
    StartMaintenance,
    /// A caller-provided string holds an embedded null byte and cannot be
    /// handed to the native layer.
    CStringNul,
}

/// The short name each error renders to.
pub open spec fn error_name(e: Error) -> Seq<char> {
    match e {
        Error::ProcessKey => "ProcessKey"@,
        Error::CloseSession => "CloseSession"@,
        Error::SessionNotExists => "SessionNotExists"@,
        Error::SimulateKeySequence => "SimulateKeySequence"@,
        Error::CreateSession => "CreateSession"@,
        Error::GetStatus => "GetStatus"@,
        Error::SelectSchema => "SelectSchema"@,
        Error::StartMaintenance => "StartMaintenance"@,
        Error::CStringNul => "CStringNul"@,
    }
}

impl Error {
    /// A human-readable rendering of the error, one fixed name per variant.
    pub fn describe(&self) -> (r: &'static str)
        ensures
            r@ == error_name(*self),
    {
        match self {
            Error::ProcessKey => "ProcessKey",
            Error::CloseSession => "CloseSession",
            Error::SessionNotExists => "SessionNotExists",
            Error::SimulateKeySequence => "SimulateKeySequence",
            Error::CreateSession => "CreateSession",
            Error::GetStatus => "GetStatus",
            Error::SelectSchema => "SelectSchema",
            Error::StartMaintenance => "StartMaintenance",
            Error::CStringNul => "CStringNul",
        }
    }
}

} // verus!
