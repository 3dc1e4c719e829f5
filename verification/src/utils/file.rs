//! The body of a request that is held in a file.
//!
//! The engine does not read files. The caller looks the file up below
//! the directory of the suite and hands over what it found.

use crate::engine::variables::Variables;
use crate::error::{CatalystError, CatalystResult};
use crate::json::{parse_failure, parsed, Json, JsonValue};
use crate::text::{contains, contains_text, ends_with, ends_with_text};
use crate::utils::string::{replace_variables, substituted};
use vstd::prelude::*;

verus! {

/// What was found at the path of a body file.
#[derive(Debug)]
pub enum FileProbe {
    /// The path is absolute, and was not looked up.
    Absolute,
    /// Nothing is there.
    Missing,
    /// Something is there that is not a regular file.
    NotAFile,
    /// The file could not be read; the text says why.
    Unreadable(String),
    /// The text of the file.
    Content(String),
}

/// Whether a path leaves the directory of the suite: it holds `..`.
pub open spec fn escapes(file_path: Seq<char>) -> bool {
    contains(file_path, ".."@)
}

/// Whether a path names a JSON file: it ends with `.json`.
pub open spec fn names_json(file_path: Seq<char>) -> bool {
    ends_with(file_path, ".json"@)
}

/// What stands in the way of a body file, as the message of a file
/// error: the path leaves the directory of the suite or is absolute, or
/// the file is missing, no regular file or not readable.
pub open spec fn file_failure(file_path: Seq<char>, probe: FileProbe) -> Option<Seq<char>> {
    if escapes(file_path) {
        Some("File path cannot escape test directory"@)
    } else {
        match probe {
            FileProbe::Absolute => Some("File path cannot be absolute"@),
            FileProbe::Missing => Some("File '"@ + file_path + "' does not exist"@),
            FileProbe::NotAFile => Some("'"@ + file_path + "' is not a file"@),
            FileProbe::Unreadable(why) => Some(
                "Cannot read file '"@ + file_path + "': "@ + why@,
            ),
            FileProbe::Content(_) => None,
        }
    }
}

/// The body that the text of a file gives, after substitution: read as
/// JSON where the path names a JSON file, which may fail, and a string
/// otherwise.
pub open spec fn file_body(
    file_path: Seq<char>,
    text: Seq<char>,
    env: Map<Seq<char>, Seq<char>>,
    vars: Map<Seq<char>, Seq<char>>,
) -> Option<JsonValue> {
    let made = substituted(text, env, vars);
    if names_json(file_path) {
        parsed(made)
    } else {
        Some(JsonValue::String(made))
    }
}

/// The message of the JSON error for a file whose text is no JSON.
pub open spec fn json_failure(
    file_path: Seq<char>,
    text: Seq<char>,
    env: Map<Seq<char>, Seq<char>>,
    vars: Map<Seq<char>, Seq<char>>,
) -> Seq<char> {
    "Invalid JSON in file '"@ + file_path + "': "@ + parse_failure(substituted(text, env, vars))
}

/// Whether `result` is the body that the file at `file_path` gives.
///
/// A path that leaves the directory of the suite is refused whatever was
/// found, and so is an absolute path and a file that is missing, no
/// regular file or not readable. The text of the file is taken after substitution: read as
/// JSON where the path names a JSON file, as a string otherwise.
pub open spec fn loaded(
    result: CatalystResult<Json>,
    file_path: Seq<char>,
    probe: FileProbe,
    env: Map<Seq<char>, Seq<char>>,
    vars: Map<Seq<char>, Seq<char>>,
) -> bool {
    match file_failure(file_path, probe) {
        Some(why) => result matches Err(CatalystError::FileError(msg)) && msg@ == why,
        None => match file_body(file_path, probe->Content_0@, env, vars) {
            Some(json) => result matches Ok(body) && body@ == json,
            None => result matches Err(CatalystError::JsonError(msg)) && msg@ == json_failure(
                file_path,
                probe->Content_0@,
                env,
                vars,
            ),
        },
    }
}

/// Whether `file_path` leaves the directory of the suite.
pub fn escapes_directory(file_path: &str) -> (r: bool)
    ensures
        r == escapes(file_path@),
{
    contains_text(file_path, "..")
}

/// Makes the body of a request from what was found at `file_path`.
pub fn load_body_from_file(file_path: &str, probe: &FileProbe, env: &Variables, vars: &Variables) -> (r:
    CatalystResult<Json>)
    ensures
        loaded(r, file_path@, *probe, env@, vars@),
{
    if escapes_directory(file_path) {
        return Err(CatalystError::file_error("File path cannot escape test directory"));
    }
    match probe {
        FileProbe::Absolute => Err(CatalystError::file_error("File path cannot be absolute")),
        FileProbe::Missing => {
            let mut msg = String::from_str("File '");
            msg.append(file_path);
            msg.append("' does not exist");
            Err(CatalystError::FileError(msg))
        },
        FileProbe::NotAFile => {
            let mut msg = String::from_str("'");
            msg.append(file_path);
            msg.append("' is not a file");
            Err(CatalystError::FileError(msg))
        },
        FileProbe::Unreadable(why) => {
            let mut msg = String::from_str("Cannot read file '");
            msg.append(file_path);
            msg.append("': ");
            msg.append(why.as_str());
            Err(CatalystError::FileError(msg))
        },
        FileProbe::Content(text) => {
            let made = replace_variables(text.as_str(), env, vars);
            if ends_with_text(file_path, ".json") {
                match Json::parse(made.as_str()) {
                    Ok(json) => Ok(json),
                    Err(detail) => {
                        let mut msg = String::from_str("Invalid JSON in file '");
                        msg.append(file_path);
                        msg.append("': ");
                        msg.append(detail.as_str());
                        Err(CatalystError::JsonError(msg))
                    },
                }
            } else {
                Ok(Json::String(made))
            }
        },
    }
}

} // verus!
