//! The one error type of the client.

use vstd::prelude::*;

verus! {

/// Why an operation of the client failed.
#[derive(Debug, PartialEq, Eq)]
pub enum ApiError {
    /// The client could not be set up: the token is missing.
    Configuration { message: String },
    /// The exchange itself failed: no connection, or a body that could not be
    /// read as what was expected.
    Transport { message: String },
    /// The service answered with a status outside 200 to 299. `payload` is the
    /// body as it came, `message` the same body parsed and printed for reading.
    Remote { status: u16, payload: String, message: String },
}

/// An error as a mathematical value.
pub enum ApiErrorModel {
    Configuration { message: Seq<char> },
    Transport { message: Seq<char> },
    Remote { status: u16, payload: Seq<char>, message: Seq<char> },
}

impl View for ApiError {
    type V = ApiErrorModel;

    open spec fn view(&self) -> ApiErrorModel {
        match self {
            ApiError::Configuration { message } => ApiErrorModel::Configuration {
                message: message@,
            },
            ApiError::Transport { message } => ApiErrorModel::Transport { message: message@ },
            ApiError::Remote { status, payload, message } => ApiErrorModel::Remote {
                status: *status,
                payload: payload@,
                message: message@,
            },
        }
    }
}

impl ApiErrorModel {
    /// The text that describes the error.
    pub open spec fn message(self) -> Seq<char> {
        match self {
            ApiErrorModel::Configuration { message } => message,
            ApiErrorModel::Transport { message } => message,
            ApiErrorModel::Remote { message, .. } => message,
        }
    }
}

impl ApiError {
    /// The text that describes the error.
    pub fn message(&self) -> (text: String)
        ensures
            text@ == self@.message(),
    {
        match self {
            ApiError::Configuration { message } => message.clone(),
            ApiError::Transport { message } => message.clone(),
            ApiError::Remote { message, .. } => message.clone(),
        }
    }

    /// The error of an exchange that failed with the given description.
    pub fn transport(message: &str) -> (e: ApiError)
        ensures
            e@ == (ApiErrorModel::Transport { message: message@ }),
    {
        ApiError::Transport { message: message.to_owned() }
    }

    /// The error of a client that could not be set up.
    pub fn configuration(message: &str) -> (e: ApiError)
        ensures
            e@ == (ApiErrorModel::Configuration { message: message@ }),
    {
        ApiError::Configuration { message: message.to_owned() }
    }
}

} // verus!
