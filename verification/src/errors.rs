//! Failure kinds of the install pipeline.
//!
//! Every fallible operation of this crate reports one of these kinds; the
//! contracts of the public functions state exactly which kind comes back on
//! which input.

use vstd::prelude::*;

verus! {

/// One failure kind per stage of the install pipeline. The `detail` field
/// carries the offending value (a path, an url, an extension, ...) verbatim.
#[derive(Debug, Clone, PartialEq, Eq)]
pub enum InstallError {
    /// Unparsable url, or an url with no usable host or path segment.
    SourceResolution { detail: String },
    /// An archive extension with no configured external extractor.
    Configuration { detail: String },
    /// Unknown or unsupported archive extension.
    ArchiveFormat { detail: String },
    /// Decoder failure or external tool failure while unpacking.
    Extraction { detail: String },
    /// Pre-copy command failed to spawn or exited with an error.
    Hook { detail: String },
    /// Empty or all-blank glob pattern set for a module.
    Selection { detail: String },
    /// Move or copy collision, or a filesystem failure while placing files.
    Placement { detail: String },
    /// A path that is absolute where it may not be, escapes the manifest
    /// tree, or resolves to the filesystem root.
    PathSafety { detail: String },
    /// Failure of an external collaborator (download, patch, replace).
    Upstream { detail: String },
}

impl InstallError {
    /// A short fixed description of the failure kind.
    pub fn kind_name(&self) -> (r: &'static str)
        ensures
            r@ == self.kind_name_spec(),
    {
        match self {
            InstallError::SourceResolution { .. } => "source resolution error",
            InstallError::Configuration { .. } => "configuration error",
            InstallError::ArchiveFormat { .. } => "archive format error",
            InstallError::Extraction { .. } => "extraction error",
            InstallError::Hook { .. } => "hook error",
            InstallError::Selection { .. } => "selection error",
            InstallError::Placement { .. } => "placement error",
            InstallError::PathSafety { .. } => "path safety error",
            InstallError::Upstream { .. } => "upstream error",
        }
    }

    pub open spec fn kind_name_spec(&self) -> Seq<char> {
        match self {
            InstallError::SourceResolution { .. } => "source resolution error"@,
            InstallError::Configuration { .. } => "configuration error"@,
            InstallError::ArchiveFormat { .. } => "archive format error"@,
            InstallError::Extraction { .. } => "extraction error"@,
            InstallError::Hook { .. } => "hook error"@,
            InstallError::Selection { .. } => "selection error"@,
            InstallError::Placement { .. } => "placement error"@,
            InstallError::PathSafety { .. } => "path safety error"@,
            InstallError::Upstream { .. } => "upstream error"@,
        }
    }

    /// The offending value this failure reports.
    pub fn detail(&self) -> (r: &String)
        ensures
            r@ == self.detail_spec(),
    {
        match self {
            InstallError::SourceResolution { detail } => detail,
            InstallError::Configuration { detail } => detail,
            InstallError::ArchiveFormat { detail } => detail,
            InstallError::Extraction { detail } => detail,
            InstallError::Hook { detail } => detail,
            InstallError::Selection { detail } => detail,
            InstallError::Placement { detail } => detail,
            InstallError::PathSafety { detail } => detail,
            InstallError::Upstream { detail } => detail,
        }
    }

    pub open spec fn detail_spec(&self) -> Seq<char> {
        match self {
            InstallError::SourceResolution { detail } => detail@,
            InstallError::Configuration { detail } => detail@,
            InstallError::ArchiveFormat { detail } => detail@,
            InstallError::Extraction { detail } => detail@,
            InstallError::Hook { detail } => detail@,
            InstallError::Selection { detail } => detail@,
            InstallError::Placement { detail } => detail@,
            InstallError::PathSafety { detail } => detail@,
            InstallError::Upstream { detail } => detail@,
        }
    }
}

} // verus!
