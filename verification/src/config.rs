//! The static build specification: the values the pipeline's validation and
//! planning are keyed by.  They are injected once at startup; the core never
//! reads ambient state.

use vstd::prelude::*;

verus! {

/// The static build specification for one image.
#[derive(Debug, Clone)]
pub struct BuildSpec {
    /// Version token the kernel release string must start with.
    pub kernel_version: String,
    /// Local-version token the kernel release string must end with.
    pub kernel_localversion: String,
    /// File name of the packaged root filesystem image.
    pub rootfs_name: String,
    /// File name of the final bootable image.
    pub iso_filename: String,
    /// File name of the generated boot-time minimal filesystem.
    pub initramfs_filename: String,
    /// OS display name for the release metadata and the overlay scaffold.
    pub os_name: String,
    /// OS identifier for the release metadata.
    pub os_id: String,
    /// OS version for the release metadata.
    pub os_version: String,
    /// Volume label of the bootable image.
    pub iso_label: String,
    /// Path of the root filesystem image inside the bootable image.
    pub rootfs_iso_path: String,
    /// Path of the overlay image inside the bootable image.
    pub live_overlay_iso_path: String,
    /// Ordered boot-device probe candidates.
    pub boot_devices: Vec<String>,
    /// Baseline kernel module list for the boot-time filesystem.
    pub base_modules: Vec<String>,
    /// Compression level for the boot-time filesystem archive.
    pub gzip_level: u8,
}

} // verus!
