//! Extracting a container package to a directory.
//!
//! The container format itself is an external collaborator: an opaque
//! package object exposes one extract operation.  This layer owns the
//! command's decision logic — the order of the steps and which descriptive
//! failure each failing step produces — while the embedder performs the
//! steps themselves (opening the package, creating the directory,
//! extracting) against the real file system.

use vstd::prelude::*;

verus! {

/// Why an unpack command failed, with the path the failing step worked on.
#[derive(PartialEq, Eq, Debug)]
pub enum UnpackError {
    /// The package could not be opened (missing or unreadable).
    OpenPackage { package_path: String },
    /// The output directory could not be created.
    CreateOutDir { out_dir: String },
    /// The package contents could not be extracted (for instance, a
    /// conflict with existing files while overwriting is not allowed).
    Extract,
}

/// Extract contents of a container to a directory.
pub struct PackageUnpack {
    /// The output directory.
    pub out_dir: String,
    /// Overwrite existing directories/files.
    pub overwrite: bool,
    /// Path to the package.
    pub package_path: String,
}

impl PackageUnpack {
    /// The command's outcome, given how far the embedder's three steps got:
    /// opening the package, creating the output directory, extracting into
    /// it.  Success needs all three; the first step that failed decides the
    /// error, and the error carries the path that step worked on.
    pub fn resolve(&self, opened: bool, out_dir_created: bool, extracted: bool) -> (r: Result<
        (),
        UnpackError,
    >)
        ensures
            r is Ok <==> (opened && out_dir_created && extracted),
            !opened ==> (r matches Err(UnpackError::OpenPackage { package_path })
                && package_path@ == self.package_path@),
            (opened && !out_dir_created) ==> (r matches Err(UnpackError::CreateOutDir { out_dir })
                && out_dir@ == self.out_dir@),
            (opened && out_dir_created && !extracted) ==> r matches Err(UnpackError::Extract),
    {
        if !opened {
            Err(UnpackError::OpenPackage { package_path: self.package_path.clone() })
        } else if !out_dir_created {
            Err(UnpackError::CreateOutDir { out_dir: self.out_dir.clone() })
        } else if !extracted {
            Err(UnpackError::Extract)
        } else {
            Ok(())
        }
    }
}

} // verus!
