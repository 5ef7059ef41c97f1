//! The error cases of the manifest readers.

use vstd::prelude::*;

verus! {

/// Why reading a manifest file failed.  A missing manifest file is not an
/// error (the readers take `Option<String>` and treat `None` as absence);
/// these cases arise only when a manifest exists but cannot be used.
#[derive(Debug, Clone, Copy, PartialEq, Eq, Structural)]
pub enum ManifestError {
    /// Cargo.toml exists but is not valid TOML.
    CargoTomlParse,
    /// Cargo.toml has no `package` section (and no `workspace` section).
    CargoTomlNoPackage,
    /// The `package` section has no `name` key.
    CargoTomlNoName,
    /// The `package` section has no `version` key.
    CargoTomlNoVersion,
    /// The `version` key is present but its value is not a string.
    CargoTomlVersionNotString,
    /// setup.cfg exists but is not valid INI.
    SetupCfgParse,
    /// setup.cfg has no `metadata.name` key.
    SetupCfgNoName,
    /// setup.cfg has no `metadata.version` key.
    SetupCfgNoVersion,
}

impl ManifestError {
    /// A human-readable description of the failure.
    pub fn message(&self) -> (r: &'static str)
        ensures
            r@ == self.spec_message(),
    {
        match self {
            ManifestError::CargoTomlParse => "could not parse Cargo.toml",
            ManifestError::CargoTomlNoPackage => "could not find package section",
            ManifestError::CargoTomlNoName => "could not find name in package section",
            ManifestError::CargoTomlNoVersion => "could not find version in package section",
            ManifestError::CargoTomlVersionNotString => "could not convert version to string",
            ManifestError::SetupCfgParse => "could not parse setup.cfg",
            ManifestError::SetupCfgNoName => "could not find metadata.name",
            ManifestError::SetupCfgNoVersion => "could not find metadata.version",
        }
    }

    pub open spec fn spec_message(self) -> Seq<char> {
        match self {
            ManifestError::CargoTomlParse => "could not parse Cargo.toml"@,
            ManifestError::CargoTomlNoPackage => "could not find package section"@,
            ManifestError::CargoTomlNoName => "could not find name in package section"@,
            ManifestError::CargoTomlNoVersion => "could not find version in package section"@,
            ManifestError::CargoTomlVersionNotString => "could not convert version to string"@,
            ManifestError::SetupCfgParse => "could not parse setup.cfg"@,
            ManifestError::SetupCfgNoName => "could not find metadata.name"@,
            ManifestError::SetupCfgNoVersion => "could not find metadata.version"@,
        }
    }
}

} // verus!
