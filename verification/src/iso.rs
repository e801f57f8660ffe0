//! Final bootable image planning.
//!
//! Assembles the composition configuration the external composer is
//! delegated with: kernel image, boot-time filesystem, root filesystem
//! image, volume label, output path, OS-release metadata, and the optional
//! overlay scaffold.

use vstd::prelude::*;
use vstd::string::*;
use crate::config::BuildSpec;
use crate::errors::{StageError, ToolKind};
use crate::payload::BasePayload;
use crate::strutil::path_join;

verus! {

/// The configuration record the external composer is delegated with.
#[derive(Debug, Clone)]
pub struct IsoPlan {
    /// Path of the kernel image.
    pub kernel: String,
    /// Path of the generated boot-time filesystem.
    pub initramfs: String,
    /// Path of the packaged root filesystem image.
    pub rootfs: String,
    /// Volume label.
    pub label: String,
    /// Output path of the composed image.
    pub output: String,
    /// OS display name of the release metadata.
    pub os_name: String,
    /// OS identifier of the release metadata.
    pub os_id: String,
    /// OS version of the release metadata.
    pub os_version: String,
    /// Overlay scaffold directory, when one exists.
    pub overlay: Option<String>,
}

/// Canonical output path of the composed image.
pub fn iso_output_path(out_dir: &str, iso_filename: &str) -> (r: String)
    ensures
        r@ == out_dir@ + seq!['/'] + iso_filename@,
{
    path_join(out_dir, iso_filename)
}

/// Assembles the composer's configuration from the prior stages' outputs
/// and the build specification; the overlay is included exactly when the
/// payload has one.
pub fn plan_iso(
    build: &BuildSpec,
    out_dir: &str,
    kernel: String,
    initramfs: String,
    payload: &BasePayload,
) -> (r: IsoPlan)
    ensures
        r.kernel == kernel,
        r.initramfs == initramfs,
        r.rootfs == payload.rootfs,
        r.label == build.iso_label,
        r.output@ == out_dir@ + seq!['/'] + build.iso_filename@,
        r.os_name == build.os_name,
        r.os_id == build.os_id,
        r.os_version == build.os_version,
        r.overlay == payload.live_overlay,
{
    let overlay = match &payload.live_overlay {
        Some(o) => Some(o.clone()),
        None => None,
    };
    IsoPlan {
        kernel,
        initramfs,
        rootfs: payload.rootfs.clone(),
        label: build.iso_label.clone(),
        output: iso_output_path(out_dir, build.iso_filename.as_str()),
        os_name: build.os_name.clone(),
        os_id: build.os_id.clone(),
        os_version: build.os_version.clone(),
        overlay,
    }
}

/// Maps the delegated composer's reported outcome.
pub fn iso_outcome(ok: bool, output: String) -> (r: Result<(), StageError>)
    ensures
        match r {
            Ok(_) => ok,
            Err(e) => match e {
                StageError::BuildFailed { tool, detail } => !ok && tool == ToolKind::IsoComposer
                    && detail == output,
                _ => false,
            },
        },
{
    if ok {
        Ok(())
    } else {
        Err(StageError::BuildFailed { tool: ToolKind::IsoComposer, detail: output })
    }
}

} // verus!
