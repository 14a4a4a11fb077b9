use vstd::prelude::*;

verus! {

/// A failure to write to the request's primary output stream.
pub struct WriteFailure {
    /// The peer closed the connection before everything was written.
    pub broken_pipe: bool,
    /// The system's description of the failure.
    pub message: String,
}

/// Why one request could not be answered.
pub enum ServeError {
    /// The request carried no document path parameter.
    MissingPath,
    /// The named file could not be opened or read; the system's description.
    Filesystem(String),
    /// The file's contents are not a valid xz stream.
    Data,
    /// Writing the response failed.
    Write(WriteFailure),
}

/// The description logged for a missing document path.
pub const MISSING_PATH_MESSAGE: &'static str = "Missing Path FastCGI Parameter";

/// The description logged for contents that do not decode.
pub const DATA_MESSAGE: &'static str = "corrupt xz stream";

impl ServeError {
    /// The peer is gone: nothing is logged and nothing more is written.
    pub open spec fn client_gone(&self) -> bool {
        match self {
            ServeError::Write(f) => f.broken_pipe,
            _ => false,
        }
    }

    /// The text that describes this error in the logs.
    pub open spec fn message_spec(&self) -> Seq<char> {
        match self {
            ServeError::MissingPath => MISSING_PATH_MESSAGE@,
            ServeError::Filesystem(m) => m@,
            ServeError::Data => DATA_MESSAGE@,
            ServeError::Write(f) => f.message@,
        }
    }

    pub fn is_client_gone(&self) -> (r: bool)
        ensures
            r == self.client_gone(),
    {
        match self {
            ServeError::Write(f) => f.broken_pipe,
            _ => false,
        }
    }

    pub fn message(&self) -> (r: String)
        ensures
            r@ == self.message_spec(),
    {
        match self {
            ServeError::MissingPath => MISSING_PATH_MESSAGE.to_owned(),
            ServeError::Filesystem(m) => m.clone(),
            ServeError::Data => DATA_MESSAGE.to_owned(),
            ServeError::Write(f) => f.message.clone(),
        }
    }
}

} // verus!
