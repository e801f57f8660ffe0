//! Root filesystem payload resolution.
//!
//! Ensures a packaged root filesystem image and an optional writable-overlay
//! scaffold exist under the output directory, building them from source
//! material when absent.  The expensive extraction is gated for idempotence,
//! a postcondition check refuses a recipe run that claims success but
//! produced nothing, and the generated image is published atomically: it is
//! built under a temporary name and renamed into place, so the canonical
//! path never holds a partially written image.

use vstd::prelude::*;
use vstd::string::*;
use crate::errors::{StageError, ToolKind};
use crate::strutil::{path_join, str_concat};

verus! {

/// The resolved payload: the root filesystem image and, when present, the
/// writable-overlay scaffold.
#[derive(Debug, Clone)]
pub struct BasePayload {
    /// Path of the packaged root filesystem image.
    pub rootfs: String,
    /// Path of the overlay scaffold, when one exists; its absence is
    /// tolerated.
    pub live_overlay: Option<String>,
}

/// Download cache under the base directory.
pub fn downloads_dir(base_dir: &str) -> (r: String)
    ensures
        r@ == base_dir@ + seq!['/'] + "downloads"@,
{
    path_join(base_dir, "downloads")
}

/// Extracted source tree under the download cache.
pub fn source_rootfs_path(base_dir: &str) -> (r: String)
    ensures
        r@ == base_dir@ + seq!['/'] + "downloads/rootfs"@,
{
    path_join(base_dir, "downloads/rootfs")
}

/// Directory whose presence marks the source tree as extracted.
pub fn source_usr_path(base_dir: &str) -> (r: String)
    ensures
        r@ == base_dir@ + seq!['/'] + "downloads/rootfs/usr"@,
{
    path_join(base_dir, "downloads/rootfs/usr")
}

/// Package-index directory whose presence marks the packages as resolved.
pub fn iso_contents_path(base_dir: &str) -> (r: String)
    ensures
        r@ == base_dir@ + seq!['/'] + "downloads/iso-contents/BaseOS/Packages"@,
{
    path_join(base_dir, "downloads/iso-contents/BaseOS/Packages")
}

/// Canonical path of the packaged root filesystem image.
pub fn rootfs_image_path(out_dir: &str, rootfs_name: &str) -> (r: String)
    ensures
        r@ == out_dir@ + seq!['/'] + rootfs_name@,
{
    path_join(out_dir, rootfs_name)
}

/// Temporary path the image is built under before promotion.
pub fn work_image_path(out_dir: &str, rootfs_name: &str) -> (r: String)
    ensures
        r@ == out_dir@ + seq!['/'] + rootfs_name@ + ".work"@,
{
    let canonical = path_join(out_dir, rootfs_name);
    let r = str_concat(canonical.as_str(), ".work");
    proof {
        assert(r@ =~= out_dir@ + seq!['/'] + rootfs_name@ + ".work"@);
    }
    r
}

/// Overlay scaffold directory under the output directory.
pub fn overlay_dir_path(out_dir: &str) -> (r: String)
    ensures
        r@ == out_dir@ + seq!['/'] + "live-overlay"@,
{
    path_join(out_dir, "live-overlay")
}

/// Checks that the three required recipe files exist; the error names the
/// first absent one, in the fixed order they are run.
pub fn ensure_ralph_deps(
    base_dir: &str,
    rocky_is_file: bool,
    packages_is_file: bool,
    epel_is_file: bool,
) -> (r: Result<(), StageError>)
    ensures
        match r {
            Ok(_) => rocky_is_file && packages_is_file && epel_is_file,
            Err(e) => match e {
                StageError::MissingRecipe { path } => (!rocky_is_file && path@ == base_dir@
                    + seq!['/'] + "deps/rocky.rhai"@) || (rocky_is_file && !packages_is_file
                    && path@ == base_dir@ + seq!['/'] + "deps/packages.rhai"@) || (rocky_is_file
                    && packages_is_file && !epel_is_file && path@ == base_dir@ + seq!['/']
                    + "deps/epel.rhai"@),
                _ => false,
            },
        },
{
    if !rocky_is_file {
        return Err(StageError::MissingRecipe { path: path_join(base_dir, "deps/rocky.rhai") });
    }
    if !packages_is_file {
        return Err(StageError::MissingRecipe { path: path_join(base_dir, "deps/packages.rhai") });
    }
    if !epel_is_file {
        return Err(StageError::MissingRecipe { path: path_join(base_dir, "deps/epel.rhai") });
    }
    Ok(())
}

/// One delegated recipe run: the recipe file, the download cache it fills,
/// and the human-readable description used in failure context.
#[derive(Debug, Clone)]
pub struct RecipeInvocation {
    pub recipe_path: String,
    pub downloads_dir: String,
    pub description: String,
}

/// The three recipe runs in their fixed order: base distribution resolve,
/// supplementary packages, auxiliary repository packages.
pub fn recipe_invocations(base_dir: &str) -> (r: Vec<RecipeInvocation>)
    ensures
        r@.len() == 3,
        r@[0].recipe_path@ == base_dir@ + seq!['/'] + "deps/rocky.rhai"@,
        r@[1].recipe_path@ == base_dir@ + seq!['/'] + "deps/packages.rhai"@,
        r@[2].recipe_path@ == base_dir@ + seq!['/'] + "deps/epel.rhai"@,
        forall|i: int| 0 <= i < 3 ==> #[trigger] r@[i].downloads_dir@ == base_dir@ + seq!['/']
            + "downloads"@,
        r@[0].description@ == "Rocky base rootfs"@,
        r@[1].description@ == "supplementary packages"@,
        r@[2].description@ == "EPEL packages"@,
{
    let mut r: Vec<RecipeInvocation> = Vec::new();
    r.push(
        RecipeInvocation {
            recipe_path: path_join(base_dir, "deps/rocky.rhai"),
            downloads_dir: downloads_dir(base_dir),
            description: "Rocky base rootfs".to_owned(),
        },
    );
    r.push(
        RecipeInvocation {
            recipe_path: path_join(base_dir, "deps/packages.rhai"),
            downloads_dir: downloads_dir(base_dir),
            description: "supplementary packages".to_owned(),
        },
    );
    r.push(
        RecipeInvocation {
            recipe_path: path_join(base_dir, "deps/epel.rhai"),
            downloads_dir: downloads_dir(base_dir),
            description: "EPEL packages".to_owned(),
        },
    );
    r
}

/// Maps one recipe run's reported outcome; a failure aborts with context
/// naming the recipe.
pub fn recipe_outcome(inv: &RecipeInvocation, engine_ok: bool) -> (r: Result<(), StageError>)
    ensures
        match r {
            Ok(_) => engine_ok,
            Err(e) => match e {
                StageError::RecipeFailed { recipe_path, description } => !engine_ok && recipe_path
                    == inv.recipe_path && description == inv.description,
                _ => false,
            },
        },
{
    if engine_ok {
        Ok(())
    } else {
        Err(
            StageError::RecipeFailed {
                recipe_path: inv.recipe_path.clone(),
                description: inv.description.clone(),
            },
        )
    }
}

/// What the source-material step has to do.
#[derive(Debug, Clone, Copy, PartialEq, Eq, Structural)]
pub enum SourcePlan {
    /// The source tree and the package index already exist: skip the
    /// expensive extraction.
    AlreadyExtracted,
    /// Run the three recipes in their fixed order.
    RunRecipes,
}

/// Decides the source-material step: the three recipe files are required
/// first, then extraction is skipped exactly when the extracted source tree
/// and the package-index directory both already exist.
pub fn plan_source_rootfs(
    base_dir: &str,
    rocky_is_file: bool,
    packages_is_file: bool,
    epel_is_file: bool,
    source_usr_is_dir: bool,
    iso_contents_is_dir: bool,
) -> (r: Result<SourcePlan, StageError>)
    ensures
        match r {
            Ok(plan) => rocky_is_file && packages_is_file && epel_is_file && plan == (
            if source_usr_is_dir && iso_contents_is_dir {
                SourcePlan::AlreadyExtracted
            } else {
                SourcePlan::RunRecipes
            }),
            Err(e) => match e {
                StageError::MissingRecipe { path } => (!rocky_is_file && path@ == base_dir@
                    + seq!['/'] + "deps/rocky.rhai"@) || (rocky_is_file && !packages_is_file
                    && path@ == base_dir@ + seq!['/'] + "deps/packages.rhai"@) || (rocky_is_file
                    && packages_is_file && !epel_is_file && path@ == base_dir@ + seq!['/']
                    + "deps/epel.rhai"@),
                _ => false,
            },
        },
{
    match ensure_ralph_deps(base_dir, rocky_is_file, packages_is_file, epel_is_file) {
        Ok(_) => {},
        Err(e) => {
            return Err(e);
        },
    }
    if source_usr_is_dir && iso_contents_is_dir {
        Ok(SourcePlan::AlreadyExtracted)
    } else {
        Ok(SourcePlan::RunRecipes)
    }
}

/// Refuses a step that reported success while its expected output is still
/// absent; such an invariant break is never silently continued past.
pub fn confirm_produced(produced: bool, path: String) -> (r: Result<(), StageError>)
    ensures
        match r {
            Ok(_) => produced,
            Err(e) => match e {
                StageError::PostconditionViolation { path: p } => !produced && p == path,
                _ => false,
            },
        },
{
    if produced {
        Ok(())
    } else {
        Err(StageError::PostconditionViolation { path })
    }
}

/// The permission-normalization pass needs an existing source tree.
pub fn normalize_permissions_precheck(rootfs_is_dir: bool, rootfs_path: String) -> (r: Result<
    (),
    StageError,
>)
    ensures
        match r {
            Ok(_) => rootfs_is_dir,
            Err(e) => match e {
                StageError::MissingArtifact { path } => !rootfs_is_dir && path == rootfs_path,
                _ => false,
            },
        },
{
    if rootfs_is_dir {
        Ok(())
    } else {
        Err(StageError::MissingArtifact { path: rootfs_path })
    }
}

/// Maps the exit of the recursive scan-and-grant pass; a non-zero or
/// missing exit code is an external-tool failure carrying the captured code.
pub fn normalize_permissions_outcome(success: bool, exit_code: Option<i32>) -> (r: Result<
    (),
    StageError,
>)
    ensures
        match r {
            Ok(_) => success,
            Err(e) => match e {
                StageError::ExternalTool { tool, exit_code: c } => !success && tool
                    == ToolKind::NormalizePermissions && c == (match exit_code {
                    Some(c0) => c0,
                    None => -1i32,
                }),
                _ => false,
            },
        },
{
    if success {
        Ok(())
    } else {
        let c = match exit_code {
            Some(c0) => c0,
            None => -1,
        };
        Err(StageError::ExternalTool { tool: ToolKind::NormalizePermissions, exit_code: c })
    }
}

/// Read-only inspection shared by build-time postcondition checking and
/// status reporting: the image must exist; the overlay is optional.
pub fn inspect_ralph_payload(
    out_dir: &str,
    rootfs_name: &str,
    rootfs_is_file: bool,
    overlay_is_dir: bool,
) -> (r: Result<BasePayload, StageError>)
    ensures
        match r {
            Ok(p) => rootfs_is_file && p.rootfs@ == out_dir@ + seq!['/'] + rootfs_name@ && (
            match p.live_overlay {
                Some(o) => overlay_is_dir && o@ == out_dir@ + seq!['/'] + "live-overlay"@,
                None => !overlay_is_dir,
            }),
            Err(e) => match e {
                StageError::MissingArtifact { path } => !rootfs_is_file && path@ == out_dir@
                    + seq!['/'] + rootfs_name@,
                _ => false,
            },
        },
{
    let rootfs = rootfs_image_path(out_dir, rootfs_name);
    if !rootfs_is_file {
        return Err(StageError::MissingArtifact { path: rootfs });
    }
    let live_overlay = if overlay_is_dir {
        Some(overlay_dir_path(out_dir))
    } else {
        None
    };
    Ok(BasePayload { rootfs, live_overlay })
}

/// What the payload stage still has to do.
#[derive(Debug, Clone, Copy, PartialEq, Eq, Structural)]
pub enum PayloadNeed {
    /// Image and overlay both validate: nothing to do.
    Complete,
    /// Only the optional overlay scaffold is absent.
    OverlayOnly,
    /// The image itself is absent: full source resolution and build.
    Full,
}

/// The payload stage's re-entrancy gate as a function of output validity.
pub open spec fn spec_payload_decision(rootfs_is_file: bool, overlay_is_dir: bool) -> PayloadNeed {
    if !rootfs_is_file {
        PayloadNeed::Full
    } else if !overlay_is_dir {
        PayloadNeed::OverlayOnly
    } else {
        PayloadNeed::Complete
    }
}

/// Decides whether the payload stage may skip its work: a validating image
/// skips source resolution and image building entirely.
pub fn payload_decision(rootfs_is_file: bool, overlay_is_dir: bool) -> (r: PayloadNeed)
    ensures
        r == spec_payload_decision(rootfs_is_file, overlay_is_dir),
{
    if !rootfs_is_file {
        PayloadNeed::Full
    } else if !overlay_is_dir {
        PayloadNeed::OverlayOnly
    } else {
        PayloadNeed::Complete
    }
}

/// The recognized options of the overlay scaffold generator.
#[derive(Debug, Clone)]
pub struct OverlayConfig {
    /// OS display name.
    pub os_name: String,
    /// Optional issue/banner message.
    pub issue_message: Option<String>,
    /// System-unit names to mask.
    pub masked_units: Vec<String>,
    /// Whether to write a serial-console test profile.
    pub write_serial_test_profile: bool,
    /// Optional fixed machine identifier.
    pub machine_id: Option<String>,
    /// Whether to enforce a UTF-8 locale profile.
    pub enforce_utf8_locale_profile: bool,
}

/// Requests an overlay scaffold only when none exists; absence afterwards
/// is tolerated, so the request's failure never fails the stage by itself.
pub fn overlay_request(overlay_is_dir: bool, os_name: &str) -> (r: Option<OverlayConfig>)
    ensures
        match r {
            None => overlay_is_dir,
            Some(c) => !overlay_is_dir && c.os_name@ == os_name@ && c.issue_message is None
                && c.masked_units@.len() == 0 && c.write_serial_test_profile && c.machine_id
                is None && c.enforce_utf8_locale_profile,
        },
{
    if overlay_is_dir {
        None
    } else {
        Some(
            OverlayConfig {
                os_name: os_name.to_owned(),
                issue_message: None,
                masked_units: Vec::new(),
                write_serial_test_profile: true,
                machine_id: None,
                enforce_utf8_locale_profile: true,
            },
        )
    }
}

} // verus!
