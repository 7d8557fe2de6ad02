//! The conditions under which an operation of the library fails.

use vstd::prelude::*;

verus! {

/// Why an operation failed. Each variant carries the text that tells the
/// failure apart: a message, or the name of what was not found.
#[derive(Debug, Clone, PartialEq)]
pub enum Error {
    /// A file or directory could not be read or written.
    Io(String),
    /// A stored document could not be decoded or encoded.
    Yaml(String),
    /// No team is stored under the given name.
    TeamNotFound(String),
    /// No member is stored under the given identifier.
    MemberNotFound(String),
    /// A value breaks a rule of the domain, such as a pincode that is too short.
    InvalidConfig(String),
    /// The store is in a state that the operation cannot work with.
    Storage(String),
    /// A person could not be authenticated.
    AuthFailed(String),
    /// No credentials are stored for the given member.
    CredentialsNotFound(String),
}

impl Error {
    /// The text that `message` returns.
    pub open spec fn spec_message(&self) -> Seq<char> {
        match self {
            Error::Io(m) => "IO error: "@ + m@,
            Error::Yaml(m) => "YAML parsing error: "@ + m@,
            Error::TeamNotFound(m) => "Team not found: "@ + m@,
            Error::MemberNotFound(m) => "Member not found: "@ + m@,
            Error::InvalidConfig(m) => "Invalid configuration: "@ + m@,
            Error::Storage(m) => "Storage error: "@ + m@,
            Error::AuthFailed(m) => "Authentication failed: "@ + m@,
            Error::CredentialsNotFound(m) => "Credentials not found for: "@ + m@,
        }
    }

    /// The text carried by the error, whatever its variant.
    pub open spec fn spec_detail(&self) -> Seq<char> {
        match self {
            Error::Io(m) => m@,
            Error::Yaml(m) => m@,
            Error::TeamNotFound(m) => m@,
            Error::MemberNotFound(m) => m@,
            Error::InvalidConfig(m) => m@,
            Error::Storage(m) => m@,
            Error::AuthFailed(m) => m@,
            Error::CredentialsNotFound(m) => m@,
        }
    }

    /// A line for a person to read: what kind of failure, then its detail.
    pub fn message(&self) -> (r: String)
        ensures
            r@ == self.spec_message(),
    {
        let (prefix, detail) = match self {
            Error::Io(m) => ("IO error: ", m),
            Error::Yaml(m) => ("YAML parsing error: ", m),
            Error::TeamNotFound(m) => ("Team not found: ", m),
            Error::MemberNotFound(m) => ("Member not found: ", m),
            Error::InvalidConfig(m) => ("Invalid configuration: ", m),
            Error::Storage(m) => ("Storage error: ", m),
            Error::AuthFailed(m) => ("Authentication failed: ", m),
            Error::CredentialsNotFound(m) => ("Credentials not found for: ", m),
        };
        let mut out = String::new();
        out.append(prefix);
        out.append(detail.as_str());
        out
    }
}

} // verus!
