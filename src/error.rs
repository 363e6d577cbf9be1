use vstd::prelude::*;

verus! {

/// What can go wrong in one run of the installer.
#[derive(Debug, Clone, PartialEq, Eq)]
pub enum Error {
    /// The release source could not be queried for its tags.
    Git { resource: String },
    /// The version token is not a semantic version.
    SemVer { input: String },
    /// A release URL could not be built.
    Url { input: String },
    /// A network request failed; `resource` names what was fetched.
    Request { resource: String },
    /// The archive could not be unpacked, or one of its entries leaves the destination.
    Extract { entry: String },
    /// No asset is published for this combination of OS and architecture.
    AssetResolution { os: String, arch: String },
    /// The release listing holds no semantic-version tag.
    NoRelease,
    /// The startup file has no parent directory.
    RcDirNotFound { path: String },
    /// The manifest holds no checksum for the asset.
    ChecksumNotFound { version: String, asset: String },
    /// The downloaded bytes do not hash to the published digest.
    ChecksumMismatch { expected: String, actual: String },
    /// A path cannot be used as asked.
    InvalidPath { path: String, reason: String },
    /// A filesystem action failed.
    Io { action: String, path: String },
    /// The PATH store could not be read or written.
    PathRegistration { path: String },
    Unknown,
}

} // verus!
