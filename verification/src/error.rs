//! Why provisioning stopped.

use vstd::prelude::*;

verus! {

/// A failure of provisioning. The first failure ends a run; what was
/// written before it stays on disk.
#[derive(Debug, PartialEq, Eq)]
pub enum ProvisionError {
    /// The key directory could not be made, or the key generator did not
    /// exit with success. Holds the message, with the generator's output in
    /// it.
    KeyGenerationError(String),
    /// The agent did not take the key. Holds the message, with the agent
    /// utility's output in it.
    AgentRegistrationError(String),
    /// The registry holds no account of this name.
    AccountNotFoundError(String),
    /// A configuration file or its directory could not be read or written.
    /// Holds the message.
    ConfigWriteError(String),
    /// The home directory is not known.
    EnvironmentError,
}

/// A `ProvisionError` as a mathematical value.
pub enum ProvisionErrorView {
    KeyGenerationError(Seq<char>),
    AgentRegistrationError(Seq<char>),
    AccountNotFoundError(Seq<char>),
    ConfigWriteError(Seq<char>),
    EnvironmentError,
}

impl View for ProvisionError {
    type V = ProvisionErrorView;

    open spec fn view(&self) -> ProvisionErrorView {
        match self {
            ProvisionError::KeyGenerationError(m) => ProvisionErrorView::KeyGenerationError(m@),
            ProvisionError::AgentRegistrationError(m) => ProvisionErrorView::AgentRegistrationError(
                m@,
            ),
            ProvisionError::AccountNotFoundError(n) => ProvisionErrorView::AccountNotFoundError(n@),
            ProvisionError::ConfigWriteError(m) => ProvisionErrorView::ConfigWriteError(m@),
            ProvisionError::EnvironmentError => ProvisionErrorView::EnvironmentError,
        }
    }
}

impl ProvisionErrorView {
    /// The text shown to the operator.
    pub open spec fn message(self) -> Seq<char> {
        match self {
            ProvisionErrorView::KeyGenerationError(m) => m,
            ProvisionErrorView::AgentRegistrationError(m) => m,
            ProvisionErrorView::AccountNotFoundError(_) => "Account not found"@,
            ProvisionErrorView::ConfigWriteError(m) => m,
            ProvisionErrorView::EnvironmentError => "$HOME directory not found"@,
        }
    }
}

impl ProvisionError {
    /// The text shown to the operator. Where a utility's output is part of
    /// the error, it stands in the text unchanged.
    pub fn message(&self) -> (text: String)
        ensures
            text@ == self@.message(),
    {
        match self {
            ProvisionError::KeyGenerationError(m) => m.clone(),
            ProvisionError::AgentRegistrationError(m) => m.clone(),
            ProvisionError::AccountNotFoundError(_) => String::from_str("Account not found"),
            ProvisionError::ConfigWriteError(m) => m.clone(),
            ProvisionError::EnvironmentError => String::from_str("$HOME directory not found"),
        }
    }
}

} // verus!
