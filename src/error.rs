//! The library's error type.
use vstd::prelude::*;

verus! {

/// What went wrong in a step of a weather check.
#[derive(Clone, Debug)]
pub enum WeatherCheckerError {
    /// The store refused or failed an operation.
    Database(String),
    /// A document could not be fetched.
    Http(String),
    /// A notification could not be sent.
    Email(String),
    /// A document is not well-formed XML.
    XmlParse(String),
    /// A file could not be read or written.
    Io(String),
    /// The configuration is missing or invalid.
    Config(String),
    /// The periodic trigger could not be set up.
    Scheduler(String),
    /// Anything else.
    Other(String),
}

/// `e` is a configuration error with the message `msg`.
pub open spec fn is_config_error(e: WeatherCheckerError, msg: Seq<char>) -> bool {
    match e {
        WeatherCheckerError::Config(m) => m@ == msg,
        _ => false,
    }
}

} // verus!
