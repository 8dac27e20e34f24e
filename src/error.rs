//! Errors that end a run.
use vstd::prelude::*;

verus! {

/// Why a run stopped. Each variant carries the paths or names involved.
#[derive(Clone, Debug)]
pub enum RunError {
    /// No running process has the target name in its name.
    TargetNotFound { name: String },
    /// The session to the target process could not be established.
    AttachFailure { detail: String },
    /// The script could not be compiled or activated.
    ScriptLoadFailure { detail: String },
    /// The remote `decrypt` export failed; `detail` is the remote error.
    RemoteCallFailure { source: String, temp: String, detail: String },
    /// The file's extension is missing or not in the mapping table.
    UnsupportedExtension { path: String },
    /// The supplied path does not exist.
    FileNotFound { path: String },
    /// The supplied path exists but is not a regular file.
    NotAFile { path: String },
    /// The converted temporary file could not be renamed to its final name.
    PublishFailure { from: String, to: String, detail: String },
    /// The directory that holds the supplied file could not be determined.
    DirectoryResolutionFailure { path: String },
}

/// The message shown to the user for an error.
pub open spec fn spec_message(e: RunError) -> Seq<char> {
    match e {
        RunError::TargetNotFound { name } => "no running process matches \""@ + name@
            + "\": start the target application first"@,
        RunError::AttachFailure { detail } => "cannot attach to the target process: "@ + detail@,
        RunError::ScriptLoadFailure { detail } => "cannot load the script: "@ + detail@,
        RunError::RemoteCallFailure { source, temp, detail } => "remote decrypt failed for "@
            + source@ + " -> "@ + temp@ + ": "@ + detail@,
        RunError::UnsupportedExtension { path } => "unsupported extension: "@ + path@,
        RunError::FileNotFound { path } => "file does not exist: "@ + path@,
        RunError::NotAFile { path } => "not a file: "@ + path@,
        RunError::PublishFailure { from, to, detail } => "cannot rename "@ + from@ + " -> "@ + to@
            + ": "@ + detail@,
        RunError::DirectoryResolutionFailure { path } => "cannot determine the directory of "@
            + path@,
    }
}

impl RunError {
    /// A copy of the error, field by field.
    pub fn duplicate(&self) -> (r: RunError)
        ensures
            r == *self,
    {
        match self {
            RunError::TargetNotFound { name } => RunError::TargetNotFound { name: name.clone() },
            RunError::AttachFailure { detail } => RunError::AttachFailure { detail: detail.clone() },
            RunError::ScriptLoadFailure { detail } => RunError::ScriptLoadFailure {
                detail: detail.clone(),
            },
            RunError::RemoteCallFailure { source, temp, detail } => RunError::RemoteCallFailure {
                source: source.clone(),
                temp: temp.clone(),
                detail: detail.clone(),
            },
            RunError::UnsupportedExtension { path } => RunError::UnsupportedExtension {
                path: path.clone(),
            },
            RunError::FileNotFound { path } => RunError::FileNotFound { path: path.clone() },
            RunError::NotAFile { path } => RunError::NotAFile { path: path.clone() },
            RunError::PublishFailure { from, to, detail } => RunError::PublishFailure {
                from: from.clone(),
                to: to.clone(),
                detail: detail.clone(),
            },
            RunError::DirectoryResolutionFailure { path } => RunError::DirectoryResolutionFailure {
                path: path.clone(),
            },
        }
    }

    /// Human-readable description of the error.
    pub fn message(&self) -> (r: String)
        ensures
            r@ == spec_message(*self),
    {
        match self {
            RunError::TargetNotFound { name } => "no running process matches \"".to_owned().concat(
                name.as_str(),
            ).concat("\": start the target application first"),
            RunError::AttachFailure { detail } => "cannot attach to the target process: ".to_owned().concat(
                detail.as_str(),
            ),
            RunError::ScriptLoadFailure { detail } => "cannot load the script: ".to_owned().concat(
                detail.as_str(),
            ),
            RunError::RemoteCallFailure { source, temp, detail } => "remote decrypt failed for ".to_owned().concat(
                source.as_str(),
            ).concat(" -> ").concat(temp.as_str()).concat(": ").concat(detail.as_str()),
            RunError::UnsupportedExtension { path } => "unsupported extension: ".to_owned().concat(
                path.as_str(),
            ),
            RunError::FileNotFound { path } => "file does not exist: ".to_owned().concat(
                path.as_str(),
            ),
            RunError::NotAFile { path } => "not a file: ".to_owned().concat(path.as_str()),
            RunError::PublishFailure { from, to, detail } => "cannot rename ".to_owned().concat(
                from.as_str(),
            ).concat(" -> ").concat(to.as_str()).concat(": ").concat(detail.as_str()),
            RunError::DirectoryResolutionFailure { path } => "cannot determine the directory of ".to_owned().concat(
                path.as_str(),
            ),
        }
    }
}

} // verus!
