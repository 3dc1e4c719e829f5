//! The errors of the engine.

use crate::engine::commands::CommandError;
use vstd::prelude::*;

verus! {

/// What can go wrong in the engine.
#[derive(Debug)]
pub enum CatalystError {
    /// A file could not be used.
    FileError(String),
    /// A command step failed.
    CommandError(CommandError),
    /// An HTTP request failed.
    HttpError(String),
    /// A text was to be JSON and is none.
    JsonError(String),
    /// A suite or a test is not valid.
    ValidationError(String),
    /// The configuration is wrong.
    ConfigError(String),
    /// A variable could not be substituted.
    VariableError(String),
    /// A test could not be run.
    TestError(String),
    /// Reading or writing failed.
    IoError(String),
    /// JSON could not be written or read.
    SerdeError(String),
}

/// What the engine returns.
pub type CatalystResult<T> = Result<T, CatalystError>;

impl CatalystError {
    /// The text that describes the error.
    pub open spec fn message(&self) -> Seq<char> {
        match self {
            CatalystError::FileError(msg) => "File operation failed: "@ + msg@,
            CatalystError::CommandError(err) => "Command execution failed: "@ + err.message(),
            CatalystError::HttpError(msg) => "HTTP request failed: "@ + msg@,
            CatalystError::JsonError(msg) => "JSON processing failed: "@ + msg@,
            CatalystError::ValidationError(msg) => "Validation failed: "@ + msg@,
            CatalystError::ConfigError(msg) => "Configuration error: "@ + msg@,
            CatalystError::VariableError(msg) => "Variable substitution failed: "@ + msg@,
            CatalystError::TestError(msg) => "Test execution failed: "@ + msg@,
            CatalystError::IoError(msg) => "IO operation failed: "@ + msg@,
            CatalystError::SerdeError(msg) => "JSON serialization/deserialization failed: "@ + msg@,
        }
    }

    /// The text that describes the error.
    pub fn to_string(&self) -> (r: String)
        ensures
            r@ == self.message(),
    {
        let (head, detail): (&str, String) = match self {
            CatalystError::FileError(msg) => ("File operation failed: ", msg.clone()),
            CatalystError::CommandError(err) => ("Command execution failed: ", err.to_string()),
            CatalystError::HttpError(msg) => ("HTTP request failed: ", msg.clone()),
            CatalystError::JsonError(msg) => ("JSON processing failed: ", msg.clone()),
            CatalystError::ValidationError(msg) => ("Validation failed: ", msg.clone()),
            CatalystError::ConfigError(msg) => ("Configuration error: ", msg.clone()),
            CatalystError::VariableError(msg) => ("Variable substitution failed: ", msg.clone()),
            CatalystError::TestError(msg) => ("Test execution failed: ", msg.clone()),
            CatalystError::IoError(msg) => ("IO operation failed: ", msg.clone()),
            CatalystError::SerdeError(msg) => (
                "JSON serialization/deserialization failed: ",
                msg.clone(),
            ),
        };
        let mut out = String::from_str(head);
        out.append(detail.as_str());
        out
    }

    /// An error about a file.
    pub fn file_error(msg: &str) -> (r: Self)
        ensures
            r matches CatalystError::FileError(m) && m@ == msg@,
    {
        CatalystError::FileError(String::from_str(msg))
    }

    /// An error about an HTTP request.
    pub fn http_error(msg: &str) -> (r: Self)
        ensures
            r matches CatalystError::HttpError(m) && m@ == msg@,
    {
        CatalystError::HttpError(String::from_str(msg))
    }

    /// An error about JSON.
    pub fn json_error(msg: &str) -> (r: Self)
        ensures
            r matches CatalystError::JsonError(m) && m@ == msg@,
    {
        CatalystError::JsonError(String::from_str(msg))
    }

    /// An error about a suite or a test that is not valid.
    pub fn validation_error(msg: &str) -> (r: Self)
        ensures
            r matches CatalystError::ValidationError(m) && m@ == msg@,
    {
        CatalystError::ValidationError(String::from_str(msg))
    }

    /// An error about the configuration.
    pub fn config_error(msg: &str) -> (r: Self)
        ensures
            r matches CatalystError::ConfigError(m) && m@ == msg@,
    {
        CatalystError::ConfigError(String::from_str(msg))
    }

    /// An error about a variable.
    pub fn variable_error(msg: &str) -> (r: Self)
        ensures
            r matches CatalystError::VariableError(m) && m@ == msg@,
    {
        CatalystError::VariableError(String::from_str(msg))
    }

    /// An error about a test.
    pub fn test_error(msg: &str) -> (r: Self)
        ensures
            r matches CatalystError::TestError(m) && m@ == msg@,
    {
        CatalystError::TestError(String::from_str(msg))
    }

    /// The error that a failed command step gives.
    pub fn from_command(err: CommandError) -> (r: Self)
        ensures
            r == CatalystError::CommandError(err),
    {
        CatalystError::CommandError(err)
    }
}

/// Turns the text of a failure into an error of the engine.
pub trait StringResultExt<T> {
    /// The failure as an error about a file.
    fn map_file_err(self) -> CatalystResult<T>;

    /// The failure as an error about an HTTP request.
    fn map_http_err(self) -> CatalystResult<T>;

    /// The failure as an error about JSON.
    fn map_json_err(self) -> CatalystResult<T>;

    /// The failure as an error about a suite or a test that is not valid.
    fn map_validation_err(self) -> CatalystResult<T>;

    /// The failure as an error about the configuration.
    fn map_config_err(self) -> CatalystResult<T>;

    /// The failure as an error about a variable.
    fn map_variable_err(self) -> CatalystResult<T>;

    /// The failure as an error about a test.
    fn map_test_err(self) -> CatalystResult<T>;
}

impl<T> StringResultExt<T> for Result<T, String> {
    fn map_file_err(self) -> (r: CatalystResult<T>)
        ensures
            match self {
                Ok(v) => r == Ok::<T, CatalystError>(v),
                Err(msg) => r == Err::<T, CatalystError>(CatalystError::FileError(msg)),
            },
    {
        match self {
            Ok(v) => Ok(v),
            Err(msg) => Err(CatalystError::FileError(msg)),
        }
    }

    fn map_http_err(self) -> (r: CatalystResult<T>)
        ensures
            match self {
                Ok(v) => r == Ok::<T, CatalystError>(v),
                Err(msg) => r == Err::<T, CatalystError>(CatalystError::HttpError(msg)),
            },
    {
        match self {
            Ok(v) => Ok(v),
            Err(msg) => Err(CatalystError::HttpError(msg)),
        }
    }

    fn map_json_err(self) -> (r: CatalystResult<T>)
        ensures
            match self {
                Ok(v) => r == Ok::<T, CatalystError>(v),
                Err(msg) => r == Err::<T, CatalystError>(CatalystError::JsonError(msg)),
            },
    {
        match self {
            Ok(v) => Ok(v),
            Err(msg) => Err(CatalystError::JsonError(msg)),
        }
    }

    fn map_validation_err(self) -> (r: CatalystResult<T>)
        ensures
            match self {
                Ok(v) => r == Ok::<T, CatalystError>(v),
                Err(msg) => r == Err::<T, CatalystError>(CatalystError::ValidationError(msg)),
            },
    {
        match self {
            Ok(v) => Ok(v),
            Err(msg) => Err(CatalystError::ValidationError(msg)),
        }
    }

    fn map_config_err(self) -> (r: CatalystResult<T>)
        ensures
            match self {
                Ok(v) => r == Ok::<T, CatalystError>(v),
                Err(msg) => r == Err::<T, CatalystError>(CatalystError::ConfigError(msg)),
            },
    {
        match self {
            Ok(v) => Ok(v),
            Err(msg) => Err(CatalystError::ConfigError(msg)),
        }
    }

    fn map_variable_err(self) -> (r: CatalystResult<T>)
        ensures
            match self {
                Ok(v) => r == Ok::<T, CatalystError>(v),
                Err(msg) => r == Err::<T, CatalystError>(CatalystError::VariableError(msg)),
            },
    {
        match self {
            Ok(v) => Ok(v),
            Err(msg) => Err(CatalystError::VariableError(msg)),
        }
    }

    fn map_test_err(self) -> (r: CatalystResult<T>)
        ensures
            match self {
                Ok(v) => r == Ok::<T, CatalystError>(v),
                Err(msg) => r == Err::<T, CatalystError>(CatalystError::TestError(msg)),
            },
    {
        match self {
            Ok(v) => Ok(v),
            Err(msg) => Err(CatalystError::TestError(msg)),
        }
    }
}

} // verus!
