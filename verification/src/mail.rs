//! Errors of the mail-delivery collaborator.
//!
//! Delivery itself — SMTP transport, template rendering, configuration —
//! is an external collaborator; the library only defines the error
//! vocabulary the collaborator reports with.

use vstd::prelude::*;
use vstd::string::StringExecFns;

verus! {

/// Why a confirmation mail could not be sent.
#[derive(Debug)]
pub enum EmailError {
    /// The mail configuration could not be loaded or parsed.
    ConfigError(String),
    /// The SMTP relay could not be reached.
    ConnectionError(String),
    /// The mail template could not be built or rendered.
    TemplateError(String),
    /// The transport refused the message.
    SendError(String),
}

impl EmailError {
    /// The full description: the error's kind, then the carried detail.
    pub open spec fn spec_message(&self) -> Seq<char> {
        match self {
            EmailError::ConfigError(e) => "ConfigError: "@ + e@,
            EmailError::ConnectionError(e) => "ConnectionError: "@ + e@,
            EmailError::TemplateError(e) => "TemplateError: "@ + e@,
            EmailError::SendError(e) => "SendError: "@ + e@,
        }
    }

    /// Render the error as text, kind first, detail after.
    pub fn message(&self) -> (m: String)
        ensures
            m@ == self.spec_message(),
    {
        match self {
            EmailError::ConfigError(e) => String::from_str("ConfigError: ").concat(e.as_str()),
            EmailError::ConnectionError(e) => String::from_str("ConnectionError: ").concat(
                e.as_str(),
            ),
            EmailError::TemplateError(e) => String::from_str("TemplateError: ").concat(e.as_str()),
            EmailError::SendError(e) => String::from_str("SendError: ").concat(e.as_str()),
        }
    }
}

} // verus!
