//! Error taxonomy of the version manager, with the one-line user-facing
//! message of each error.

use vstd::prelude::*;
use vstd::string::StringExecFns;

verus! {

/// Everything that can go wrong while resolving, fetching or installing a
/// release.
#[derive(Debug)]
pub enum Error {
    /// The shell has not sourced the tool's initialization file.
    Precondition,
    /// The release catalog or an artifact could not be fetched.
    Network,
    /// No release satisfies the requested constraint (the field holds the
    /// constraint's text, or `latest` when none was given).
    NotFound { requested: String },
    /// The resolved release is already the active one; a short-circuit, not a
    /// true failure.
    AlreadyInstalled { version: String },
    /// No release artifact exists for this operating system and
    /// architecture.
    UnsupportedPlatform { os: String, arch: String },
    /// The downloaded archive could not be unpacked.
    Extraction,
    /// A directory, symlink or rename operation failed.
    Filesystem,
    /// A release tag or probe output does not parse as a semantic version.
    MalformedVersion,
    /// A shell path with no final component was handed to the `shell`
    /// command.
    InvalidShellPath,
    /// The `shell` command was asked about a shell it has no snippet for.
    ShellNotRecognized { name: String },
}

/// The mathematical view of an [`Error`]: the same variants over character
/// sequences.
#[verifier::ext_equal]
pub enum ErrorModel {
    Precondition,
    Network,
    NotFound { requested: Seq<char> },
    AlreadyInstalled { version: Seq<char> },
    UnsupportedPlatform { os: Seq<char>, arch: Seq<char> },
    Extraction,
    Filesystem,
    MalformedVersion,
    InvalidShellPath,
    ShellNotRecognized { name: Seq<char> },
}

impl View for Error {
    type V = ErrorModel;

    open spec fn view(&self) -> ErrorModel {
        match self {
            Error::Precondition => ErrorModel::Precondition,
            Error::Network => ErrorModel::Network,
            Error::NotFound { requested } => ErrorModel::NotFound { requested: requested@ },
            Error::AlreadyInstalled { version } => ErrorModel::AlreadyInstalled {
                version: version@,
            },
            Error::UnsupportedPlatform { os, arch } => ErrorModel::UnsupportedPlatform {
                os: os@,
                arch: arch@,
            },
            Error::Extraction => ErrorModel::Extraction,
            Error::Filesystem => ErrorModel::Filesystem,
            Error::MalformedVersion => ErrorModel::MalformedVersion,
            Error::InvalidShellPath => ErrorModel::InvalidShellPath,
            Error::ShellNotRecognized { name } => ErrorModel::ShellNotRecognized { name: name@ },
        }
    }
}

impl Error {
    /// The one-line message reported to the user for this error.
    pub fn message(&self) -> (r: String)
        ensures
            r@ == self.spec_message(),
    {
        match self {
            Error::Precondition => String::from_str(
                "Looks like you haven't initialized wasmerenv.\nrun `wasmerenv shell | source` to initialize it.\n",
            ),
            Error::Network => String::from_str("Could not fetch the list of wasmer releases"),
            Error::NotFound { requested } => {
                let mut s = String::from_str("Wasmer release `");
                s.append(requested.as_str());
                s.append("` was not found");
                s
            },
            Error::AlreadyInstalled { version } => {
                let mut s = String::from_str("You're already using wasmer ");
                s.append(version.as_str());
                s.append(", which is the latest version.");
                s
            },
            Error::UnsupportedPlatform { os, arch } => {
                let mut s = String::from_str("Unsupported architecture: ");
                s.append(os.as_str());
                s.append("-");
                s.append(arch.as_str());
                s
            },
            Error::Extraction => String::from_str("Failed to extract the wasmer archive"),
            Error::Filesystem => String::from_str(
                "Could not update the current wasmer installation",
            ),
            Error::MalformedVersion => String::from_str(
                "Could not get wasmer version form the version string",
            ),
            Error::InvalidShellPath => String::from_str("Invalid shell name"),
            Error::ShellNotRecognized { name } => {
                let mut s = String::from_str("Shell `");
                s.append(name.as_str());
                s.append("` not recognized. Try one of `bash`, `zsh` or `fish`");
                s
            },
        }
    }

    /// What `message` returns, as a sequence of characters.
    pub open spec fn spec_message(&self) -> Seq<char> {
        spec_error_message(self@)
    }
}

/// The one-line message of each error, over its mathematical view.
pub open spec fn spec_error_message(e: ErrorModel) -> Seq<char> {
    match e {
        ErrorModel::Precondition => "Looks like you haven't initialized wasmerenv.\nrun `wasmerenv shell | source` to initialize it.\n"@,
        ErrorModel::Network => "Could not fetch the list of wasmer releases"@,
        ErrorModel::NotFound { requested } => "Wasmer release `"@ + requested
            + "` was not found"@,
        ErrorModel::AlreadyInstalled { version } => "You're already using wasmer "@ + version
            + ", which is the latest version."@,
        ErrorModel::UnsupportedPlatform { os, arch } => "Unsupported architecture: "@ + os + "-"@
            + arch,
        ErrorModel::Extraction => "Failed to extract the wasmer archive"@,
        ErrorModel::Filesystem => "Could not update the current wasmer installation"@,
        ErrorModel::MalformedVersion => "Could not get wasmer version form the version string"@,
        ErrorModel::InvalidShellPath => "Invalid shell name"@,
        ErrorModel::ShellNotRecognized { name } => "Shell `"@ + name
            + "` not recognized. Try one of `bash`, `zsh` or `fish`"@,
    }
}

} // verus!
