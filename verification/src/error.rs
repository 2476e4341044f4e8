//! The ways in which a launch can fail before the tool takes over.

use vstd::prelude::*;

verus! {

/// Why a launch was abandoned. Every kind is fatal: nothing is retried.
#[derive(Clone, Copy, Debug, PartialEq, Eq, Structural)]
pub enum BootstrapError {
    /// No distribution exists for this operating system and architecture.
    UnsupportedPlatform,
    /// The download address built for the platform is not a valid URL.
    MalformedUrl,
    /// The archive could not be fetched.
    Transfer,
    /// The archive could not be decompressed or read as a tar container.
    Archive,
    /// A file or directory could not be created, opened or written.
    Filesystem,
    /// A process could not be started.
    Launch,
    /// The search for the binary printed something that is not text.
    SearchOutput,
    /// The search reported a path at which nothing exists.
    InconsistentEnvironment,
    /// The environment listing could not be parsed.
    Protocol,
    /// Creating the default environment ended with a failure status.
    CreateEnvironment,
    /// The driver reported something that does not answer the pending action.
    UnexpectedEvent,
}

impl BootstrapError {
    /// The text shown to the user for each kind of failure.
    pub open spec fn message_text(self) -> Seq<char> {
        match self {
            BootstrapError::UnsupportedPlatform => "failed to get mamba url"@,
            BootstrapError::MalformedUrl => "mamba url is not a valid url"@,
            BootstrapError::Transfer => "failed to download the archive"@,
            BootstrapError::Archive => "failed to read the archive"@,
            BootstrapError::Filesystem => "failed to access the file system"@,
            BootstrapError::Launch => "failed to start a process"@,
            BootstrapError::SearchOutput => "which printed a path that is not text"@,
            BootstrapError::InconsistentEnvironment => "which successful but path does not exist"@,
            BootstrapError::Protocol => "failed to parse the environment list"@,
            BootstrapError::CreateEnvironment => "failed to create base env"@,
            BootstrapError::UnexpectedEvent => "unexpected event"@,
        }
    }

    /// Renders the failure for the user.
    pub fn message(&self) -> (r: String)
        ensures
            r@ == self.message_text(),
    {
        match self {
            BootstrapError::UnsupportedPlatform => "failed to get mamba url".to_owned(),
            BootstrapError::MalformedUrl => "mamba url is not a valid url".to_owned(),
            BootstrapError::Transfer => "failed to download the archive".to_owned(),
            BootstrapError::Archive => "failed to read the archive".to_owned(),
            BootstrapError::Filesystem => "failed to access the file system".to_owned(),
            BootstrapError::Launch => "failed to start a process".to_owned(),
            BootstrapError::SearchOutput => "which printed a path that is not text".to_owned(),
            BootstrapError::InconsistentEnvironment => "which successful but path does not exist".to_owned(),
            BootstrapError::Protocol => "failed to parse the environment list".to_owned(),
            BootstrapError::CreateEnvironment => "failed to create base env".to_owned(),
            BootstrapError::UnexpectedEvent => "unexpected event".to_owned(),
        }
    }
}

} // verus!
