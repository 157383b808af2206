use vstd::prelude::*;

verus! {

/// The error taxonomy of configuration resolution and first-run
/// initialization. Every variant is fatal to startup except
/// `ConfigNotFound`, which `init_or_read` recovers from locally by
/// synthesizing a default document.
#[derive(Clone, Copy, Debug, PartialEq, Eq, Structural)]
pub enum ConfigError {
    /// The required home-directory environment variable is unset.
    EnvironmentMissing,
    /// No config document exists at the deterministic path.
    ConfigNotFound,
    /// A config document exists but does not decode.
    ConfigParseError,
    /// A directory-creation step failed. This includes the strict
    /// (non-idempotent) primitive finding its directory already present
    /// during first-run synthesis.
    DirectoryCreateError,
    /// Encoding or writing the default config document failed.
    PersistError,
}

} // verus!
