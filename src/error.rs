//! Error values of the library.
use vstd::prelude::*;

verus! {

/// Application error kinds with structured context.
#[derive(Debug, Clone, PartialEq, Eq)]
pub enum CloudPingError {
    Config { message: String },
    DataLoading { message: String },
    InvalidUrl { url: String },
    TestExecution { message: String },
    Timeout { timeout_ms: u64 },
    Validation { field: String, message: String },
    Concurrency { message: String },
}

impl CloudPingError {
    pub fn config(message: &str) -> (r: Self)
        ensures
            r matches CloudPingError::Config { message: m } && m@ == message@,
    {
        CloudPingError::Config { message: message.to_owned() }
    }

    pub fn data_loading(message: &str) -> (r: Self)
        ensures
            r matches CloudPingError::DataLoading { message: m } && m@ == message@,
    {
        CloudPingError::DataLoading { message: message.to_owned() }
    }

    pub fn invalid_url(url: &str) -> (r: Self)
        ensures
            r matches CloudPingError::InvalidUrl { url: u } && u@ == url@,
    {
        CloudPingError::InvalidUrl { url: url.to_owned() }
    }

    pub fn test_execution(message: &str) -> (r: Self)
        ensures
            r matches CloudPingError::TestExecution { message: m } && m@ == message@,
    {
        CloudPingError::TestExecution { message: message.to_owned() }
    }

    pub fn timeout(timeout_ms: u64) -> (r: Self)
        ensures
            r == (CloudPingError::Timeout { timeout_ms }),
    {
        CloudPingError::Timeout { timeout_ms }
    }

    pub fn validation(field: &str, message: &str) -> (r: Self)
        ensures
            r matches CloudPingError::Validation { field: f, message: m } && f@ == field@ && m@
                == message@,
    {
        CloudPingError::Validation { field: field.to_owned(), message: message.to_owned() }
    }

    pub fn concurrency(message: &str) -> (r: Self)
        ensures
            r matches CloudPingError::Concurrency { message: m } && m@ == message@,
    {
        CloudPingError::Concurrency { message: message.to_owned() }
    }

    /// Network failures are reported as test-execution errors.
    pub fn network(message: &str) -> (r: Self)
        ensures
            r matches CloudPingError::TestExecution { message: m } && m@ == message@,
    {
        CloudPingError::TestExecution { message: message.to_owned() }
    }

    /// System failures are reported as test-execution errors.
    pub fn system(message: &str) -> (r: Self)
        ensures
            r matches CloudPingError::TestExecution { message: m } && m@ == message@,
    {
        CloudPingError::TestExecution { message: message.to_owned() }
    }
}

} // verus!
