use ralphos::config::BuildSpec;
use ralphos::errors::{StageError, ToolKind};
use ralphos::initramfs::{
    busybox_cache_path, fetch_outcome, plan_busybox, plan_initramfs, ralph_live_module_names,
    select_modules, template_check, template_path, BusyboxSource,
};
use ralphos::iso::{iso_outcome, plan_iso};
use ralphos::kernel::KernelArtifacts;
use ralphos::payload::{overlay_request, BasePayload, PayloadNeed};
use ralphos::pipeline::{
    overlay_outcome, plan_stages, status_report, BuildProgress, FileStatus, KernelStatus,
    PayloadStatus, StageKind,
};

fn owned(names: &[&str]) -> Vec<String> {
    names.iter().map(|s| s.to_string()).collect()
}

fn build_spec() -> BuildSpec {
    BuildSpec {
        kernel_version: "5.14.0".to_string(),
        kernel_localversion: "-xyz".to_string(),
        rootfs_name: "ralph.erofs".to_string(),
        iso_filename: "ralphos.iso".to_string(),
        initramfs_filename: "initramfs-live.img".to_string(),
        os_name: "RalphOS".to_string(),
        os_id: "ralphos".to_string(),
        os_version: "0.1".to_string(),
        iso_label: "RALPHOS".to_string(),
        rootfs_iso_path: "/ralph.erofs".to_string(),
        live_overlay_iso_path: "/live-overlay.img".to_string(),
        boot_devices: owned(&["/dev/sr0", "/dev/vda"]),
        base_modules: owned(&["squashfs", "nvme", "virtio_blk", "nvme-core", "erofs"]),
        gzip_level: 6,
    }
}

#[test]
fn module_selection_drops_exclusions_keeping_order() {
    let baseline = owned(&["a", "b", "c", "b", "d"]);
    let exclusions = owned(&["b", "e"]);
    let selected = select_modules(&baseline, &exclusions);
    assert_eq!(selected, owned(&["a", "c", "d"]));

    // An empty exclusion set keeps the baseline untouched.
    let selected = select_modules(&baseline, &owned(&[]));
    assert_eq!(selected, baseline);
}

#[test]
fn live_module_names_drop_nvme_pair() {
    let baseline = owned(&["squashfs", "nvme", "virtio_blk", "nvme-core", "erofs"]);
    let live = ralph_live_module_names(&baseline);
    assert_eq!(live, owned(&["squashfs", "virtio_blk", "erofs"]));
}

#[test]
fn busybox_prefers_cache_then_override_then_default() {
    assert_eq!(busybox_cache_path("/b"), "/b/downloads/busybox-static");
    match plan_busybox("/b", true, Some("https://x/bb"), "https://d/bb") {
        BusyboxSource::Cached { path } => assert_eq!(path, "/b/downloads/busybox-static"),
        other => panic!("expected cached busybox, got {:?}", other),
    }
    match plan_busybox("/b", false, Some("https://x/bb"), "https://d/bb") {
        BusyboxSource::Download { url, dest } => {
            assert_eq!(url, "https://x/bb");
            assert_eq!(dest, "/b/downloads/busybox-static");
        }
        other => panic!("expected download, got {:?}", other),
    }
    match plan_busybox("/b", false, None, "https://d/bb") {
        BusyboxSource::Download { url, .. } => assert_eq!(url, "https://d/bb"),
        other => panic!("expected download, got {:?}", other),
    }
    match fetch_outcome(false, "https://d/bb".to_string()) {
        Err(StageError::BuildFailed { tool, detail }) => {
            assert_eq!(tool, ToolKind::BusyboxFetcher);
            assert_eq!(detail, "https://d/bb");
        }
        other => panic!("expected fetch failure, got {:?}", other),
    }
}

#[test]
fn initramfs_plan_carries_policy_and_inputs() {
    let spec = build_spec();
    assert_eq!(template_path("/b"), "/b/profile/init_tiny.template");
    match template_check(false, "/b/profile/init_tiny.template".to_string()) {
        Err(StageError::MissingArtifact { path }) => {
            assert_eq!(path, "/b/profile/init_tiny.template");
        }
        other => panic!("expected missing template, got {:?}", other),
    }
    let plan = plan_initramfs(
        &spec,
        "/out",
        "/out/staging/usr/lib/modules/5.14.0-xyz".to_string(),
        "/b/downloads/busybox-static".to_string(),
        "/b/profile/init_tiny.template".to_string(),
    );
    assert_eq!(plan.modules_dir, "/out/staging/usr/lib/modules/5.14.0-xyz");
    assert_eq!(plan.busybox_path, "/b/downloads/busybox-static");
    assert_eq!(plan.template_path, "/b/profile/init_tiny.template");
    assert_eq!(plan.output, "/out/initramfs-live.img");
    assert_eq!(plan.iso_label, "RALPHOS");
    assert_eq!(plan.rootfs_path, "/ralph.erofs");
    assert_eq!(plan.live_overlay_image_path.as_deref(), Some("/live-overlay.img"));
    assert_eq!(plan.live_overlay_path.as_deref(), Some("/live-overlay.img"));
    assert_eq!(plan.boot_devices, owned(&["/dev/sr0", "/dev/vda"]));
    assert_eq!(plan.modules, owned(&["squashfs", "virtio_blk", "erofs"]));
    assert_eq!(plan.gzip_level, 6);
    assert!(plan.check_builtin);
}

#[test]
fn iso_plan_carries_metadata_and_optional_overlay() {
    let spec = build_spec();
    let payload = BasePayload {
        rootfs: "/out/ralph.erofs".to_string(),
        live_overlay: Some("/out/live-overlay".to_string()),
    };
    let plan = plan_iso(
        &spec,
        "/out",
        "/out/staging/boot/vmlinuz".to_string(),
        "/out/initramfs-live.img".to_string(),
        &payload,
    );
    assert_eq!(plan.kernel, "/out/staging/boot/vmlinuz");
    assert_eq!(plan.initramfs, "/out/initramfs-live.img");
    assert_eq!(plan.rootfs, "/out/ralph.erofs");
    assert_eq!(plan.label, "RALPHOS");
    assert_eq!(plan.output, "/out/ralphos.iso");
    assert_eq!(plan.os_name, "RalphOS");
    assert_eq!(plan.os_id, "ralphos");
    assert_eq!(plan.os_version, "0.1");
    assert_eq!(plan.overlay.as_deref(), Some("/out/live-overlay"));

    let bare = BasePayload { rootfs: "/out/ralph.erofs".to_string(), live_overlay: None };
    let plan = plan_iso(
        &spec,
        "/out",
        "/k".to_string(),
        "/i".to_string(),
        &bare,
    );
    assert!(plan.overlay.is_none());

    match iso_outcome(false, "/out/ralphos.iso".to_string()) {
        Err(StageError::BuildFailed { tool, detail }) => {
            assert_eq!(tool, ToolKind::IsoComposer);
            assert_eq!(detail, "/out/ralphos.iso");
        }
        other => panic!("expected composer failure, got {:?}", other),
    }
}

#[test]
fn overlay_requested_only_when_absent() {
    assert!(overlay_request(true, "RalphOS").is_none());
    let cfg = overlay_request(false, "RalphOS").unwrap();
    assert_eq!(cfg.os_name, "RalphOS");
    assert!(cfg.issue_message.is_none());
    assert!(cfg.masked_units.is_empty());
    assert!(cfg.write_serial_test_profile);
    assert!(cfg.machine_id.is_none());
    assert!(cfg.enforce_utf8_locale_profile);
    match overlay_outcome(false, "/out".to_string()) {
        Err(StageError::BuildFailed { tool, detail }) => {
            assert_eq!(tool, ToolKind::OverlayGenerator);
            assert_eq!(detail, "/out");
        }
        other => panic!("expected overlay failure, got {:?}", other),
    }
}

#[test]
fn second_build_plans_zero_invocations() {
    let plan = plan_stages(true, true, true, true);
    assert_eq!(plan.payload, PayloadNeed::Complete);
    assert!(!plan.build_initramfs);
    assert!(!plan.build_iso);
}

#[test]
fn only_invalid_stages_are_rebuilt() {
    let plan = plan_stages(false, false, true, false);
    assert_eq!(plan.payload, PayloadNeed::Full);
    assert!(!plan.build_initramfs);
    assert!(plan.build_iso);

    let plan = plan_stages(true, false, false, false);
    assert_eq!(plan.payload, PayloadNeed::OverlayOnly);
    assert!(plan.build_initramfs);
    assert!(plan.build_iso);
}

#[test]
fn status_before_any_build_reports_everything_missing() {
    let report = status_report(
        Err(StageError::MissingArtifact { path: "/out/release".to_string() }),
        Err(StageError::MissingArtifact { path: "/out/ralph.erofs".to_string() }),
        "/out/initramfs-live.img".to_string(),
        false,
        "/out/ralphos.iso".to_string(),
        false,
    );
    match report.kernel {
        KernelStatus::Invalid { cause: StageError::MissingArtifact { path } } => {
            assert_eq!(path, "/out/release");
        }
        other => panic!("expected invalid kernel, got {:?}", other),
    }
    match report.payload {
        PayloadStatus::Missing { cause: StageError::MissingArtifact { path } } => {
            assert_eq!(path, "/out/ralph.erofs");
        }
        other => panic!("expected missing payload, got {:?}", other),
    }
    match report.initramfs {
        FileStatus::Absent { path } => assert_eq!(path, "/out/initramfs-live.img"),
        other => panic!("expected absent initramfs, got {:?}", other),
    }
    match report.iso {
        FileStatus::Absent { path } => assert_eq!(path, "/out/ralphos.iso"),
        other => panic!("expected absent iso, got {:?}", other),
    }
}

#[test]
fn status_after_build_reports_resolved_paths() {
    let artifacts = KernelArtifacts {
        release: "5.14.0-xyz".to_string(),
        vmlinuz: "/out/staging/boot/vmlinuz".to_string(),
        modules_dir: "/out/staging/usr/lib/modules/5.14.0-xyz".to_string(),
    };
    let payload = BasePayload {
        rootfs: "/out/ralph.erofs".to_string(),
        live_overlay: Some("/out/live-overlay".to_string()),
    };
    let report = status_report(
        Ok(artifacts),
        Ok(payload),
        "/out/initramfs-live.img".to_string(),
        true,
        "/out/ralphos.iso".to_string(),
        true,
    );
    match report.kernel {
        KernelStatus::Verified { artifacts } => {
            assert_eq!(artifacts.release, "5.14.0-xyz");
            assert_eq!(artifacts.vmlinuz, "/out/staging/boot/vmlinuz");
            assert_eq!(artifacts.modules_dir, "/out/staging/usr/lib/modules/5.14.0-xyz");
        }
        other => panic!("expected verified kernel, got {:?}", other),
    }
    match report.payload {
        PayloadStatus::Available { payload } => {
            assert_eq!(payload.rootfs, "/out/ralph.erofs");
            assert_eq!(payload.live_overlay.as_deref(), Some("/out/live-overlay"));
        }
        other => panic!("expected available payload, got {:?}", other),
    }
    match report.initramfs {
        FileStatus::Present { path } => assert_eq!(path, "/out/initramfs-live.img"),
        other => panic!("expected present initramfs, got {:?}", other),
    }
    match report.iso {
        FileStatus::Present { path } => assert_eq!(path, "/out/ralphos.iso"),
        other => panic!("expected present iso, got {:?}", other),
    }
}

#[test]
fn build_progression_collects_summary() {
    let kernel = KernelArtifacts {
        release: "5.14.0-xyz".to_string(),
        vmlinuz: "/out/staging/boot/vmlinuz".to_string(),
        modules_dir: "/out/staging/usr/lib/modules/5.14.0-xyz".to_string(),
    };
    let payload = BasePayload { rootfs: "/out/ralph.erofs".to_string(), live_overlay: None };
    let run = BuildProgress::begin()
        .kernel_done(Ok(kernel))
        .payload_done(Ok(payload))
        .initramfs_done(Ok("/out/initramfs-live.img".to_string()))
        .iso_done(Ok("/out/ralphos.iso".to_string()));
    match run {
        BuildProgress::Ready { summary } => {
            assert_eq!(summary.release, "5.14.0-xyz");
            assert_eq!(summary.initramfs, "/out/initramfs-live.img");
            assert_eq!(summary.iso, "/out/ralphos.iso");
            assert!(summary.overlay_missing);
        }
        other => panic!("expected a ready run, got {:?}", other),
    }
}

#[test]
fn build_progression_aborts_on_first_failure() {
    let run = BuildProgress::begin().kernel_done(Err(StageError::EmptyRelease {
        path: "/out/release".to_string(),
    }));
    match run {
        BuildProgress::Aborted { stage, cause } => {
            assert_eq!(stage, StageKind::Kernel);
            assert!(matches!(cause, StageError::EmptyRelease { .. }));
        }
        other => panic!("expected an aborted run, got {:?}", other),
    }

    let kernel = KernelArtifacts {
        release: "5.14.0-xyz".to_string(),
        vmlinuz: "/k".to_string(),
        modules_dir: "/m".to_string(),
    };
    let run = BuildProgress::begin()
        .kernel_done(Ok(kernel))
        .payload_done(Err(StageError::MissingArtifact { path: "/out/ralph.erofs".to_string() }));
    match run {
        BuildProgress::Aborted { stage, cause } => {
            assert_eq!(stage, StageKind::Payload);
            assert!(matches!(cause, StageError::MissingArtifact { .. }));
        }
        other => panic!("expected an aborted run, got {:?}", other),
    }
}
