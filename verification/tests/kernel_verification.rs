use ralphos::errors::StageError;
use ralphos::kernel::{
    lib_modules_path, release_file_path, usr_modules_path, vmlinuz_path, KernelVerifier,
};

fn make_verifier() -> KernelVerifier {
    KernelVerifier::new("5.14.0".to_string(), "-xyz".to_string())
}

#[test]
fn release_accepts_matching_tokens() {
    let kv = make_verifier();
    let r = kv.parse_release(Some("5.14.0-xyz"), "/out/release");
    match r {
        Ok(rel) => assert_eq!(rel, "5.14.0-xyz"),
        Err(e) => panic!("expected acceptance, got {:?}", e),
    }
}

#[test]
fn release_trims_trailing_newlines() {
    let kv = make_verifier();
    let r = kv.parse_release(Some("5.14.0-xyz\r\n"), "/out/release");
    match r {
        Ok(rel) => assert_eq!(rel, "5.14.0-xyz"),
        Err(e) => panic!("expected acceptance, got {:?}", e),
    }
}

#[test]
fn release_rejects_wrong_suffix_naming_tokens() {
    let kv = make_verifier();
    let r = kv.parse_release(Some("5.14.0-abc"), "/out/release");
    match r {
        Err(StageError::LocalVersionMismatch { release, actual, expected }) => {
            assert_eq!(release, "5.14.0-abc");
            assert_eq!(actual, "-abc");
            assert_eq!(expected, "-xyz");
        }
        other => panic!("expected local-version mismatch, got {:?}", other),
    }
}

#[test]
fn release_rejects_wrong_prefix() {
    let kv = make_verifier();
    let r = kv.parse_release(Some("6.1.00-xyz"), "/out/release");
    match r {
        Err(StageError::VersionMismatch { release, actual, expected }) => {
            assert_eq!(release, "6.1.00-xyz");
            assert_eq!(actual, "6.1.00");
            assert_eq!(expected, "5.14.0");
        }
        other => panic!("expected version mismatch, got {:?}", other),
    }
}

#[test]
fn release_rejects_blank_content() {
    let kv = make_verifier();
    match kv.parse_release(Some(""), "/out/release") {
        Err(StageError::EmptyRelease { path }) => assert_eq!(path, "/out/release"),
        other => panic!("expected empty-release error, got {:?}", other),
    }
    match kv.parse_release(Some("\n\r\n"), "/out/release") {
        Err(StageError::EmptyRelease { path }) => assert_eq!(path, "/out/release"),
        other => panic!("expected empty-release error, got {:?}", other),
    }
}

#[test]
fn release_unreadable_is_missing_artifact() {
    let kv = make_verifier();
    match kv.parse_release(None, "/out/release") {
        Err(StageError::MissingArtifact { path }) => assert_eq!(path, "/out/release"),
        other => panic!("expected missing artifact, got {:?}", other),
    }
}

#[test]
fn modules_dir_resolution_order() {
    let kv = make_verifier();
    let usr = "/out/staging/usr/lib/modules/5.14.0-xyz".to_string();
    let lib = "/out/staging/lib/modules/5.14.0-xyz".to_string();

    // Both exist: the "user"-prefixed candidate wins.
    let r = kv.resolve_modules_dir(usr.clone(), lib.clone(), true, true, "5.14.0-xyz");
    assert_eq!(r.unwrap(), usr);

    // Only the second exists: fall back to it.
    let r = kv.resolve_modules_dir(usr.clone(), lib.clone(), false, true, "5.14.0-xyz");
    assert_eq!(r.unwrap(), lib);

    // Neither exists: failure naming the release.
    match kv.resolve_modules_dir(usr, lib, false, false, "5.14.0-xyz") {
        Err(StageError::MissingModulesDir { release }) => assert_eq!(release, "5.14.0-xyz"),
        other => panic!("expected missing modules dir, got {:?}", other),
    }
}

#[test]
fn assemble_requires_kernel_image() {
    let kv = make_verifier();
    match kv.assemble(
        "5.14.0-xyz".to_string(),
        "/out/staging/boot/vmlinuz".to_string(),
        false,
        "/u".to_string(),
        "/l".to_string(),
        true,
        true,
    ) {
        Err(StageError::MissingArtifact { path }) => {
            assert_eq!(path, "/out/staging/boot/vmlinuz");
        }
        other => panic!("expected missing vmlinuz, got {:?}", other),
    }
}

#[test]
fn assemble_builds_artifacts() {
    let kv = make_verifier();
    let a = kv
        .assemble(
            "5.14.0-xyz".to_string(),
            "/out/staging/boot/vmlinuz".to_string(),
            true,
            "/out/staging/usr/lib/modules/5.14.0-xyz".to_string(),
            "/out/staging/lib/modules/5.14.0-xyz".to_string(),
            false,
            true,
        )
        .unwrap();
    assert_eq!(a.release, "5.14.0-xyz");
    assert_eq!(a.vmlinuz, "/out/staging/boot/vmlinuz");
    assert_eq!(a.modules_dir, "/out/staging/lib/modules/5.14.0-xyz");
}

#[test]
fn kernel_paths_are_canonical() {
    assert_eq!(
        release_file_path("/out"),
        "/out/kernel-build/include/config/kernel.release"
    );
    assert_eq!(vmlinuz_path("/out"), "/out/staging/boot/vmlinuz");
    assert_eq!(
        usr_modules_path("/out", "5.14.0-xyz"),
        "/out/staging/usr/lib/modules/5.14.0-xyz"
    );
    assert_eq!(
        lib_modules_path("/out", "5.14.0-xyz"),
        "/out/staging/lib/modules/5.14.0-xyz"
    );
}
