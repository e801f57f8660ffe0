//! Stage orchestration.
//!
//! The pipeline advances through verified kernel, resolved payload, built
//! boot-time filesystem, and composed image; each stage's "already done"
//! predicate is a pure function of output-path validity, decoupled from the
//! side-effecting work.  The build entrypoint plans only the stages whose
//! outputs do not validate; the status entrypoint runs the same predicates
//! and only assembles a report — it is a function of the probes alone and
//! mutates nothing.

use vstd::prelude::*;
use vstd::pervasive::unreached;
use crate::errors::{StageError, ToolKind};
use crate::kernel::KernelArtifacts;
use crate::payload::{spec_payload_decision, BasePayload, PayloadNeed};

verus! {

/// The stages a build still has to perform.
#[derive(Debug, Clone, Copy, PartialEq, Eq, Structural)]
pub struct StagePlan {
    /// What the payload stage has to do.
    pub payload: PayloadNeed,
    /// Whether the boot-time filesystem has to be built.
    pub build_initramfs: bool,
    /// Whether the final image has to be composed.
    pub build_iso: bool,
}

/// The plan as a function of output validity: a stage whose output already
/// validates is not rebuilt.
pub open spec fn spec_plan_stages(
    rootfs_is_file: bool,
    overlay_is_dir: bool,
    initramfs_is_file: bool,
    iso_is_file: bool,
) -> StagePlan {
    StagePlan {
        payload: spec_payload_decision(rootfs_is_file, overlay_is_dir),
        build_initramfs: !initramfs_is_file,
        build_iso: !iso_is_file,
    }
}

/// Decides, from the existence probes alone, which stages a build performs.
/// Kernel verification is read-only and runs on every invocation.
pub fn plan_stages(
    rootfs_is_file: bool,
    overlay_is_dir: bool,
    initramfs_is_file: bool,
    iso_is_file: bool,
) -> (r: StagePlan)
    ensures
        r == spec_plan_stages(rootfs_is_file, overlay_is_dir, initramfs_is_file, iso_is_file),
{
    let payload = crate::payload::payload_decision(rootfs_is_file, overlay_is_dir);
    StagePlan { payload, build_initramfs: !initramfs_is_file, build_iso: !iso_is_file }
}

/// Law: a stage whose output already validates is never rebuilt: with the
/// image and overlay in place the payload stage does nothing, and an
/// existing boot-time filesystem or composed image is left alone.  On a
/// repeat of a fully successful build, the plan carries zero delegated
/// invocations.
pub proof fn law_validated_stages_not_rebuilt(
    rootfs_is_file: bool,
    overlay_is_dir: bool,
    initramfs_is_file: bool,
    iso_is_file: bool,
)
    ensures
        rootfs_is_file && overlay_is_dir ==> spec_plan_stages(
            rootfs_is_file,
            overlay_is_dir,
            initramfs_is_file,
            iso_is_file,
        ).payload == PayloadNeed::Complete,
        rootfs_is_file ==> spec_plan_stages(
            rootfs_is_file,
            overlay_is_dir,
            initramfs_is_file,
            iso_is_file,
        ).payload != PayloadNeed::Full,
        initramfs_is_file ==> !spec_plan_stages(
            rootfs_is_file,
            overlay_is_dir,
            initramfs_is_file,
            iso_is_file,
        ).build_initramfs,
        iso_is_file ==> !spec_plan_stages(
            rootfs_is_file,
            overlay_is_dir,
            initramfs_is_file,
            iso_is_file,
        ).build_iso,
        spec_plan_stages(true, true, true, true) == (StagePlan {
            payload: PayloadNeed::Complete,
            build_initramfs: false,
            build_iso: false,
        }),
{
}

/// Maps the overlay generator's reported outcome.
pub fn overlay_outcome(ok: bool, out_dir: String) -> (r: Result<(), StageError>)
    ensures
        match r {
            Ok(_) => ok,
            Err(e) => match e {
                StageError::BuildFailed { tool, detail } => !ok && tool
                    == ToolKind::OverlayGenerator && detail == out_dir,
                _ => false,
            },
        },
{
    if ok {
        Ok(())
    } else {
        Err(StageError::BuildFailed { tool: ToolKind::OverlayGenerator, detail: out_dir })
    }
}

/// The kernel line of the status report.
#[derive(Debug, Clone)]
pub enum KernelStatus {
    /// The kernel verifies; the resolved artifacts are reported.
    Verified { artifacts: KernelArtifacts },
    /// Verification failed; the cause is reported, not raised.
    Invalid { cause: StageError },
}

/// The payload line of the status report.
#[derive(Debug, Clone)]
pub enum PayloadStatus {
    /// The image exists; the overlay is reported when present.
    Available { payload: BasePayload },
    /// The image is absent; the cause is reported, not raised.
    Missing { cause: StageError },
}

/// One generated file's line of the status report.
#[derive(Debug, Clone)]
pub enum FileStatus {
    Present { path: String },
    Absent { path: String },
}

/// The read-only status report: one line per artifact class.
#[derive(Debug, Clone)]
pub struct StatusReport {
    pub kernel: KernelStatus,
    pub payload: PayloadStatus,
    pub initramfs: FileStatus,
    pub iso: FileStatus,
}

/// The report as a function of the same verification predicates the build
/// runs: every error becomes a "missing / invalid" line instead of an abort.
pub open spec fn spec_status_report(
    kernel: Result<KernelArtifacts, StageError>,
    payload: Result<BasePayload, StageError>,
    initramfs_path: String,
    initramfs_is_file: bool,
    iso_path: String,
    iso_is_file: bool,
) -> StatusReport {
    StatusReport {
        kernel: match kernel {
            Ok(artifacts) => KernelStatus::Verified { artifacts },
            Err(cause) => KernelStatus::Invalid { cause },
        },
        payload: match payload {
            Ok(payload) => PayloadStatus::Available { payload },
            Err(cause) => PayloadStatus::Missing { cause },
        },
        initramfs: if initramfs_is_file {
            FileStatus::Present { path: initramfs_path }
        } else {
            FileStatus::Absent { path: initramfs_path }
        },
        iso: if iso_is_file {
            FileStatus::Present { path: iso_path }
        } else {
            FileStatus::Absent { path: iso_path }
        },
    }
}

/// Assembles the status report.  It takes the outcomes of the same read-only
/// predicates the build uses, so the two entrypoints can never disagree, and
/// it only constructs a value: producing a report mutates nothing.
pub fn status_report(
    kernel: Result<KernelArtifacts, StageError>,
    payload: Result<BasePayload, StageError>,
    initramfs_path: String,
    initramfs_is_file: bool,
    iso_path: String,
    iso_is_file: bool,
) -> (r: StatusReport)
    ensures
        r == spec_status_report(
            kernel,
            payload,
            initramfs_path,
            initramfs_is_file,
            iso_path,
            iso_is_file,
        ),
{
    let kernel_line = match kernel {
        Ok(artifacts) => KernelStatus::Verified { artifacts },
        Err(cause) => KernelStatus::Invalid { cause },
    };
    let payload_line = match payload {
        Ok(payload) => PayloadStatus::Available { payload },
        Err(cause) => PayloadStatus::Missing { cause },
    };
    let initramfs_line = if initramfs_is_file {
        FileStatus::Present { path: initramfs_path }
    } else {
        FileStatus::Absent { path: initramfs_path }
    };
    let iso_line = if iso_is_file {
        FileStatus::Present { path: iso_path }
    } else {
        FileStatus::Absent { path: iso_path }
    };
    StatusReport { kernel: kernel_line, payload: payload_line, initramfs: initramfs_line, iso: iso_line }
}

/// One stage of the build, for failure context.
#[derive(Debug, Clone, Copy, PartialEq, Eq, Structural)]
pub enum StageKind {
    Kernel,
    Payload,
    Initramfs,
    Iso,
}

/// The final summary of a successful build.
#[derive(Debug, Clone)]
pub struct BuildSummary {
    /// The verified kernel release.
    pub release: String,
    /// Path of the boot-time filesystem the image carries.
    pub initramfs: String,
    /// Path of the composed image.
    pub iso: String,
    /// Whether the image was built without an overlay; a warning, no error.
    pub overlay_missing: bool,
}

/// How far a build has advanced.  Stages run strictly in order — each holds
/// the outputs of the stages before it — and the first failure aborts the
/// run with the stage and its cause; no later stage can be stepped from an
/// aborted run.
#[derive(Debug, Clone)]
pub enum BuildProgress {
    /// The kernel artifacts are being verified.
    VerifyingKernel,
    /// The payload is being resolved.
    ResolvingPayload { kernel: KernelArtifacts },
    /// The boot-time filesystem is being built.
    BuildingInitramfs { kernel: KernelArtifacts, payload: BasePayload },
    /// The final image is being composed.
    ComposingIso { kernel: KernelArtifacts, payload: BasePayload, initramfs: String },
    /// Every stage succeeded.
    Ready { summary: BuildSummary },
    /// A stage failed; nothing later ran.
    Aborted { stage: StageKind, cause: StageError },
}

impl BuildProgress {
    /// A fresh run: kernel verification comes first.
    pub fn begin() -> (r: BuildProgress)
        ensures
            r is VerifyingKernel,
    {
        BuildProgress::VerifyingKernel
    }

    /// Feeds in the kernel stage's outcome.
    pub fn kernel_done(self, outcome: Result<KernelArtifacts, StageError>) -> (r: BuildProgress)
        requires
            self is VerifyingKernel,
        ensures
            match outcome {
                Ok(kernel) => r == (BuildProgress::ResolvingPayload { kernel }),
                Err(cause) => r == (BuildProgress::Aborted { stage: StageKind::Kernel, cause }),
            },
    {
        match outcome {
            Ok(kernel) => BuildProgress::ResolvingPayload { kernel },
            Err(cause) => BuildProgress::Aborted { stage: StageKind::Kernel, cause },
        }
    }

    /// Feeds in the payload stage's outcome.
    pub fn payload_done(self, outcome: Result<BasePayload, StageError>) -> (r: BuildProgress)
        requires
            self is ResolvingPayload,
        ensures
            match outcome {
                Ok(payload) => r == (BuildProgress::BuildingInitramfs {
                    kernel: self->ResolvingPayload_kernel,
                    payload,
                }),
                Err(cause) => r == (BuildProgress::Aborted { stage: StageKind::Payload, cause }),
            },
    {
        match self {
            BuildProgress::ResolvingPayload { kernel } => match outcome {
                Ok(payload) => BuildProgress::BuildingInitramfs { kernel, payload },
                Err(cause) => BuildProgress::Aborted { stage: StageKind::Payload, cause },
            },
            _ => unreached(),
        }
    }

    /// Feeds in the boot-time filesystem stage's outcome: the path of the
    /// archive, already existing or freshly built.
    pub fn initramfs_done(self, outcome: Result<String, StageError>) -> (r: BuildProgress)
        requires
            self is BuildingInitramfs,
        ensures
            match outcome {
                Ok(initramfs) => r == (BuildProgress::ComposingIso {
                    kernel: self->BuildingInitramfs_kernel,
                    payload: self->BuildingInitramfs_payload,
                    initramfs,
                }),
                Err(cause) => r == (BuildProgress::Aborted { stage: StageKind::Initramfs, cause }),
            },
    {
        match self {
            BuildProgress::BuildingInitramfs { kernel, payload } => match outcome {
                Ok(initramfs) => BuildProgress::ComposingIso { kernel, payload, initramfs },
                Err(cause) => BuildProgress::Aborted { stage: StageKind::Initramfs, cause },
            },
            _ => unreached(),
        }
    }

    /// Feeds in the composition stage's outcome.  On success the run is
    /// ready, and the summary carries the verified release, the two output
    /// paths, and whether the image went out without an overlay.
    pub fn iso_done(self, outcome: Result<String, StageError>) -> (r: BuildProgress)
        requires
            self is ComposingIso,
        ensures
            match outcome {
                Ok(iso) => match r {
                    BuildProgress::Ready { summary } => summary.release
                        == self->ComposingIso_kernel.release && summary.initramfs
                        == self->ComposingIso_initramfs && summary.iso == iso
                        && summary.overlay_missing == (
                    self->ComposingIso_payload.live_overlay is None),
                    _ => false,
                },
                Err(cause) => r == (BuildProgress::Aborted { stage: StageKind::Iso, cause }),
            },
    {
        match self {
            BuildProgress::ComposingIso { kernel, payload, initramfs } => match outcome {
                Ok(iso) => BuildProgress::Ready {
                    summary: BuildSummary {
                        release: kernel.release,
                        initramfs,
                        iso,
                        overlay_missing: payload.live_overlay.is_none(),
                    },
                },
                Err(cause) => BuildProgress::Aborted { stage: StageKind::Iso, cause },
            },
            _ => unreached(),
        }
    }
}

/// Law: before any build — the kernel unverifiable, the payload missing,
/// both generated files absent — the report marks every artifact class
/// missing or invalid, carrying each underlying cause.
pub proof fn law_status_before_build(
    kernel_cause: StageError,
    payload_cause: StageError,
    initramfs_path: String,
    iso_path: String,
)
    ensures
        spec_status_report(
            Err(kernel_cause),
            Err(payload_cause),
            initramfs_path,
            false,
            iso_path,
            false,
        ) == (StatusReport {
            kernel: KernelStatus::Invalid { cause: kernel_cause },
            payload: PayloadStatus::Missing { cause: payload_cause },
            initramfs: FileStatus::Absent { path: initramfs_path },
            iso: FileStatus::Absent { path: iso_path },
        }),
{
}

/// Law: after a fully successful build the report marks every artifact
/// present, with the same resolved paths the build produced.
pub proof fn law_status_after_build(
    artifacts: KernelArtifacts,
    payload: BasePayload,
    initramfs_path: String,
    iso_path: String,
)
    ensures
        spec_status_report(Ok(artifacts), Ok(payload), initramfs_path, true, iso_path, true) == (
        StatusReport {
            kernel: KernelStatus::Verified { artifacts },
            payload: PayloadStatus::Available { payload },
            initramfs: FileStatus::Present { path: initramfs_path },
            iso: FileStatus::Present { path: iso_path },
        }),
{
}

} // verus!
