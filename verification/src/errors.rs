//! The pipeline's error taxonomy.
//!
//! Every stage failure is one of these variants; nothing is caught and
//! suppressed.  The status entrypoint turns the same values into "missing /
//! invalid" report lines instead of aborting.

use vstd::prelude::*;

verus! {

/// The delegated tool or filesystem operation a failure came from.
#[derive(Debug, Clone, Copy, PartialEq, Eq, Structural)]
pub enum ToolKind {
    /// Recursive scan granting owner-read to executables of the source tree.
    NormalizePermissions,
    /// The recipe engine resolving and extracting package material.
    RecipeEngine,
    /// The compressed read-only filesystem image builder.
    RootfsImageBuilder,
    /// The writable-overlay scaffold generator.
    OverlayGenerator,
    /// The boot-time minimal filesystem builder.
    InitramfsBuilder,
    /// The bootable image composer.
    IsoComposer,
    /// The static busybox binary fetcher.
    BusyboxFetcher,
}

/// A plain filesystem operation the pipeline performs itself.
#[derive(Debug, Clone, Copy, PartialEq, Eq, Structural)]
pub enum FileOp {
    Remove,
    Rename,
}

/// A failure of one pipeline stage.
#[derive(Debug, Clone)]
pub enum StageError {
    /// A required recipe file is absent; `path` names the first absent one.
    MissingRecipe { path: String },
    /// An expected file or directory is absent at inspection time.
    MissingArtifact { path: String },
    /// The kernel release identifier file is blank.
    EmptyRelease { path: String },
    /// The release string does not start with the expected version token.
    VersionMismatch { release: String, actual: String, expected: String },
    /// The release string does not end with the expected local-version token.
    LocalVersionMismatch { release: String, actual: String, expected: String },
    /// Neither candidate module directory exists for the release.
    MissingModulesDir { release: String },
    /// A delegated process exited non-zero; the code is kept as captured.
    ExternalTool { tool: ToolKind, exit_code: i32 },
    /// The recipe engine reported failure for one recipe.
    RecipeFailed { recipe_path: String, description: String },
    /// A delegated builder reported failure.
    BuildFailed { tool: ToolKind, detail: String },
    /// A stage reported success but its expected output is absent.
    PostconditionViolation { path: String },
    /// A remove or rename of the pipeline's own failed.
    FileOpFailed { op: FileOp, path: String },
}

} // verus!
