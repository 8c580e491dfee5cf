use vstd::prelude::*;

verus! {

/// The outside error of the HTTP client, carried through unchanged.
#[verifier::external_type_specification]
#[verifier::external_body]
pub struct ExReqwestError(reqwest::Error);

/// A value that was present and typed but broke a rule of the site's layout.
#[derive(Debug)]
pub enum ScloudInvalid {
    Host(String),
    Msg(String),
}

impl ScloudInvalid {
    /// A rejected host name.
    pub fn host(domain: &str) -> (r: Self)
        ensures
            r matches ScloudInvalid::Host(d) && d@ == domain@,
    {
        ScloudInvalid::Host(domain.to_owned())
    }

    /// A rejection described by a message.
    pub fn msg(message: &str) -> (r: Self)
        ensures
            r matches ScloudInvalid::Msg(m) && m@ == message@,
    {
        ScloudInvalid::Msg(message.to_owned())
    }
}

/// Every way in which resolving a track can fail. Each names the field or stage
/// that failed where there is one.
#[derive(Debug)]
pub enum ScloudError {
    /// Validation rejection: present and typed, but breaks a domain rule.
    Invalid(ScloudInvalid),
    /// Structural absence: an expected script, array entry or key is not there.
    Missing(String),
    /// Type mismatch: the value is there but not of the expected type.
    Mismatch(String),
    /// The page is of a kind that is not handled.
    NoImplemented,
    /// No bundled script held a client id.
    NoClientId,
    /// The HTTP exchange failed.
    Reqwest(reqwest::Error),
    /// The HTTP exchange answered with a status other than success.
    Status(u16),
}

/// What kind of failure an error is, with the field or stage it names.
pub enum Fault {
    Invalid,
    Missing(Seq<char>),
    Mismatch(Seq<char>),
    NoImplemented,
    NoClientId,
    Transport,
}

impl ScloudError {
    pub open spec fn fault(&self) -> Fault {
        match self {
            ScloudError::Invalid(_) => Fault::Invalid,
            ScloudError::Missing(s) => Fault::Missing(s@),
            ScloudError::Mismatch(s) => Fault::Mismatch(s@),
            ScloudError::NoImplemented => Fault::NoImplemented,
            ScloudError::NoClientId => Fault::NoClientId,
            ScloudError::Reqwest(_) => Fault::Transport,
            ScloudError::Status(_) => Fault::Transport,
        }
    }

    pub fn invalid_host(domain: &str) -> (r: Self)
        ensures
            r matches ScloudError::Invalid(ScloudInvalid::Host(d)) && d@ == domain@,
    {
        ScloudError::Invalid(ScloudInvalid::host(domain))
    }

    pub fn invalid_msg(message: &str) -> (r: Self)
        ensures
            r matches ScloudError::Invalid(ScloudInvalid::Msg(m)) && m@ == message@,
    {
        ScloudError::Invalid(ScloudInvalid::msg(message))
    }

    /// The error for an absent `what`.
    pub fn missing(what: &str) -> (r: Self)
        ensures
            r.fault() == Fault::Missing(what@),
    {
        ScloudError::Missing(what.to_owned())
    }

    /// The error for a `what` of the wrong type.
    pub fn mismatch(what: &str) -> (r: Self)
        ensures
            r.fault() == Fault::Mismatch(what@),
    {
        ScloudError::Mismatch(what.to_owned())
    }
}

/// Whether an HTTP status is one of success (2xx).
pub open spec fn success_status(status: u16) -> bool {
    200 <= status < 300
}

/// Accepts a success status; any other is a transport failure that names it.
pub fn check_status(status: u16) -> (r: Result<(), ScloudError>)
    ensures
        r is Ok <==> success_status(status),
        r matches Err(e) ==> e matches ScloudError::Status(s) && s == status,
{
    if 200 <= status && status < 300 {
        Ok(())
    } else {
        Err(ScloudError::Status(status))
    }
}

/// The fault of a failed result, or the mapped value of a successful one.
pub open spec fn fault_of<T>(r: Result<T, ScloudError>) -> Result<T, Fault> {
    match r {
        Ok(v) => Ok(v),
        Err(e) => Err(e.fault()),
    }
}

} // verus!
