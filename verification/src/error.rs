//! Failure values returned by the core: local validation faults that
//! callers surface to the user, never process-fatal conditions.

use vstd::prelude::*;
use crate::text::spec_dec;
use crate::text::i32_to_string;

verus! {

/// The core's failure values.
#[derive(Debug, Clone)]
pub enum Error {
    /// The platform offers no default application data path.
    DefaultAppPathError,
    /// The configuration file does not parse.
    ConfigSyntaxError,
    /// No configuration file was found.
    ConfigNotFoundError,
    /// The configuration cannot be rendered for saving.
    ConfigTomlGenerateError,
    /// The configuration file cannot be written.
    ConfigFileSaveError,
    /// A requested range of days is inverted.
    BadDaysRangeError,
    /// A requested range of days is longer than the supported window.
    LongDaysRangeError(i32),
    /// A timestamp lies outside the representable range.
    InvalidTimestampError { sec: i64, nano: u32 },
    /// The store rejected an insertion.
    DatabaseInsertError(String),
    /// The store rejected a query.
    DatabaseSelectError(String),
    /// The database file cannot be copied.
    DatabaseFileCopyError,
    /// The database file cannot be created.
    DatabaseFileCreateError,
    /// The database file cannot be removed.
    DatabaseFileRemoveError,
    /// The file at the requested database path is not a valid database.
    DatabaseFileInvalidError,
}

/// The user-facing description of each failure value.
pub open spec fn spec_error_message(e: Error) -> Seq<char> {
    match e {
        Error::DefaultAppPathError => "can not get OS default application path!"@,
        Error::ConfigSyntaxError => "the config file does not parse!"@,
        Error::ConfigNotFoundError => "the config file not found!"@,
        Error::ConfigTomlGenerateError => "can not generate toml file"@,
        Error::ConfigFileSaveError => "can not save (write) config toml file"@,
        Error::BadDaysRangeError => "provided days range is not correct"@,
        Error::LongDaysRangeError(n) => "provided days range is very long: "@ + spec_dec(
            n as int,
        ) + " days"@,
        Error::InvalidTimestampError { sec, nano } => "invalid timestamp"@,
        Error::DatabaseInsertError(s) => "database error: "@ + s@,
        Error::DatabaseSelectError(s) => "database error: "@ + s@,
        Error::DatabaseFileCopyError => "can not copy database file"@,
        Error::DatabaseFileCreateError => "can not create database file"@,
        Error::DatabaseFileRemoveError => "can not delete database file"@,
        Error::DatabaseFileInvalidError => "the data file is not valid"@,
    }
}

impl Error {
    /// The user-facing description of this failure.
    pub fn message(&self) -> (r: String)
        ensures
            r@ == spec_error_message(*self),
    {
        match self {
            Error::DefaultAppPathError => String::from_str(
                "can not get OS default application path!",
            ),
            Error::ConfigSyntaxError => String::from_str("the config file does not parse!"),
            Error::ConfigNotFoundError => String::from_str("the config file not found!"),
            Error::ConfigTomlGenerateError => String::from_str("can not generate toml file"),
            Error::ConfigFileSaveError => String::from_str("can not save (write) config toml file"),
            Error::BadDaysRangeError => String::from_str("provided days range is not correct"),
            Error::LongDaysRangeError(n) => {
                let mut s = String::from_str("provided days range is very long: ");
                let digits = i32_to_string(*n);
                s.append(digits.as_str());
                s.append(" days");
                s
            },
            Error::InvalidTimestampError { sec: _, nano: _ } => String::from_str(
                "invalid timestamp",
            ),
            Error::DatabaseInsertError(s) => {
                let mut m = String::from_str("database error: ");
                m.append(s.as_str());
                m
            },
            Error::DatabaseSelectError(s) => {
                let mut m = String::from_str("database error: ");
                m.append(s.as_str());
                m
            },
            Error::DatabaseFileCopyError => String::from_str("can not copy database file"),
            Error::DatabaseFileCreateError => String::from_str("can not create database file"),
            Error::DatabaseFileRemoveError => String::from_str("can not delete database file"),
            Error::DatabaseFileInvalidError => String::from_str("the data file is not valid"),
        }
    }
}

} // verus!
