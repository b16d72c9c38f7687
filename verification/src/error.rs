//! The closed set of errors that a plugin can report, and the fixed mappings
//! from an error to a transport status, a kind name and a printed message.

use crate::text::{decimal, mentions, mentions_phrase, push_decimal};
use vstd::prelude::*;
use vstd::string::StringExecFns;

verus! {

/// Everything that can go wrong inside a plugin. Each failure of a boundary
/// call is turned into exactly one of these before it travels on.
#[derive(Debug)]
pub enum VtxError {
    /// The database refused or failed a statement.
    DatabaseError(String),
    /// Data could not be encoded or decoded.
    SerializationError(String),
    /// Authentication failed; the value is the status to answer with.
    AuthDenied(u16),
    /// The caller may not do what it asked for.
    PermissionDenied(String),
    /// The resource asked for does not exist.
    NotFound(String),
    /// Any other failure inside the plugin.
    Internal(String),
}

impl Clone for VtxError {
    fn clone(&self) -> (copy: Self)
        ensures
            copy == *self,
    {
        match self {
            VtxError::DatabaseError(msg) => VtxError::DatabaseError(msg.clone()),
            VtxError::SerializationError(msg) => VtxError::SerializationError(msg.clone()),
            VtxError::AuthDenied(code) => VtxError::AuthDenied(*code),
            VtxError::PermissionDenied(msg) => VtxError::PermissionDenied(msg.clone()),
            VtxError::NotFound(msg) => VtxError::NotFound(msg.clone()),
            VtxError::Internal(msg) => VtxError::Internal(msg.clone()),
        }
    }
}

/// The result type of every fallible operation of this crate.
pub type VtxResult<T> = Result<T, VtxError>;

/// The phrase by which a host message is recognised as a refusal.
pub open spec fn permission_phrase() -> Seq<char> {
    "permission denied"@
}

/// The error that a failure message from the host stands for: a refusal where
/// the message says so, in any letter case, and an internal error otherwise.
/// The message itself is kept.
pub open spec fn host_error(message: String) -> VtxError {
    if mentions(message@, permission_phrase()) {
        VtxError::PermissionDenied(message)
    } else {
        VtxError::Internal(message)
    }
}

impl VtxError {
    /// The transport status that stands for this error.
    pub open spec fn status(self) -> u16 {
        match self {
            VtxError::AuthDenied(code) => code,
            VtxError::PermissionDenied(_) => 403,
            VtxError::NotFound(_) => 404,
            VtxError::SerializationError(_) => 400,
            VtxError::DatabaseError(_) => 500,
            VtxError::Internal(_) => 500,
        }
    }

    /// The name of this error's kind.
    pub open spec fn kind(self) -> Seq<char> {
        match self {
            VtxError::DatabaseError(_) => "DatabaseError"@,
            VtxError::SerializationError(_) => "SerializationError"@,
            VtxError::AuthDenied(_) => "AuthDenied"@,
            VtxError::PermissionDenied(_) => "PermissionDenied"@,
            VtxError::NotFound(_) => "NotFound"@,
            VtxError::Internal(_) => "Internal"@,
        }
    }

    /// The printed form of this error.
    pub open spec fn display(self) -> Seq<char> {
        match self {
            VtxError::DatabaseError(msg) => "Database error: "@ + msg@,
            VtxError::SerializationError(msg) => "Data serialization error: "@ + msg@,
            VtxError::AuthDenied(code) => "Authentication denied (Code: "@ + decimal(code as nat)
                + ")"@,
            VtxError::PermissionDenied(msg) => "Permission denied: "@ + msg@,
            VtxError::NotFound(msg) => "Resource not found: "@ + msg@,
            VtxError::Internal(msg) => "Internal error: "@ + msg@,
        }
    }

    /// The transport status that stands for this error.
    pub fn status_code(&self) -> (code: u16)
        ensures
            code == self.status(),
    {
        match self {
            VtxError::AuthDenied(code) => *code,
            VtxError::PermissionDenied(_) => 403,
            VtxError::NotFound(_) => 404,
            VtxError::SerializationError(_) => 400,
            VtxError::DatabaseError(_) => 500,
            VtxError::Internal(_) => 500,
        }
    }

    /// The name of this error's kind.
    pub fn kind_name(&self) -> (name: &'static str)
        ensures
            name@ == self.kind(),
    {
        match self {
            VtxError::DatabaseError(_) => "DatabaseError",
            VtxError::SerializationError(_) => "SerializationError",
            VtxError::AuthDenied(_) => "AuthDenied",
            VtxError::PermissionDenied(_) => "PermissionDenied",
            VtxError::NotFound(_) => "NotFound",
            VtxError::Internal(_) => "Internal",
        }
    }

    /// The printed form of this error: a fixed lead for its kind, then the
    /// detail it carries.
    pub fn to_string(&self) -> (printed: String)
        ensures
            printed@ == self.display(),
    {
        match self {
            VtxError::DatabaseError(msg) => labelled("Database error: ", msg.as_str()),
            VtxError::SerializationError(msg) => labelled(
                "Data serialization error: ",
                msg.as_str(),
            ),
            VtxError::AuthDenied(code) => {
                let mut printed = String::from_str("Authentication denied (Code: ");
                push_decimal(&mut printed, *code as u64);
                printed.append(")");
                printed
            },
            VtxError::PermissionDenied(msg) => labelled("Permission denied: ", msg.as_str()),
            VtxError::NotFound(msg) => labelled("Resource not found: ", msg.as_str()),
            VtxError::Internal(msg) => labelled("Internal error: ", msg.as_str()),
        }
    }

    /// Classifies a failure message that came from the host as plain text.
    pub fn from_host_message(message: String) -> (err: VtxError)
        ensures
            err == host_error(message),
    {
        if mentions_phrase(message.as_str(), "permission denied") {
            VtxError::PermissionDenied(message)
        } else {
            VtxError::Internal(message)
        }
    }
}

/// Two errors are of the same kind, and deny with the same code where they
/// deny authentication.
pub open spec fn same_kind(a: VtxError, b: VtxError) -> bool {
    match (a, b) {
        (VtxError::DatabaseError(_), VtxError::DatabaseError(_)) => true,
        (VtxError::SerializationError(_), VtxError::SerializationError(_)) => true,
        (VtxError::AuthDenied(x), VtxError::AuthDenied(y)) => x == y,
        (VtxError::PermissionDenied(_), VtxError::PermissionDenied(_)) => true,
        (VtxError::NotFound(_), VtxError::NotFound(_)) => true,
        (VtxError::Internal(_), VtxError::Internal(_)) => true,
        _ => false,
    }
}

/// The status table is stable: the status of an error follows from its kind,
/// and from its code where it denies authentication. The detail that an error
/// carries never changes its status or the name of its kind.
pub proof fn lemma_status_ignores_detail(a: VtxError, b: VtxError)
    requires
        same_kind(a, b),
    ensures
        a.status() == b.status(),
        a.kind() == b.kind(),
{
}

/// The status table is exhaustive: an error that does not deny authentication
/// has one of the four statuses 400, 403, 404 and 500, and one that does has
/// the code it carries.
pub proof fn lemma_status_table(err: VtxError)
    ensures
        err matches VtxError::AuthDenied(code) ==> err.status() == code,
        !(err is AuthDenied) ==> (err.status() == 400 || err.status() == 403 || err.status() == 404
            || err.status() == 500),
        err is PermissionDenied ==> err.status() == 403,
        err is NotFound ==> err.status() == 404,
        err is SerializationError ==> err.status() == 400,
        err is DatabaseError || err is Internal ==> err.status() == 500,
{
}

/// `lead` followed by `detail`.
pub fn labelled(lead: &str, detail: &str) -> (text: String)
    ensures
        text@ == lead@ + detail@,
{
    let mut text = String::from_str(lead);
    text.append(detail);
    text
}

/// Lifts the reply of a boundary call: a value passes through, a failure
/// message is classified by `host_error`.
pub open spec fn lifted<T>(reply: Result<T, String>) -> VtxResult<T> {
    match reply {
        Ok(value) => Ok(value),
        Err(message) => Err(host_error(message)),
    }
}

/// Lifts the reply of a boundary call into this crate's result type.
pub fn lift<T>(reply: Result<T, String>) -> (r: VtxResult<T>)
    ensures
        r == lifted(reply),
{
    match reply {
        Ok(value) => Ok(value),
        Err(message) => Err(VtxError::from_host_message(message)),
    }
}

} // verus!
