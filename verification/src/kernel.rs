//! Kernel artifact verification.
//!
//! The verifier validates a previously built kernel: the release identifier
//! read from the output tree must be non-blank and carry the expected
//! version prefix and local-version suffix, the kernel image must exist at
//! its fixed relative path, and the module tree is resolved by trying two
//! candidate conventions in order.  All of it is read-only: the surrounding
//! program reads the release file and probes the paths this module computes,
//! and hands the outcomes in as plain values.

use vstd::prelude::*;
use vstd::string::*;
use crate::errors::StageError;
use crate::strutil::{
    head_token, is_prefix_of, is_suffix_of, path_join, str_ends_with, str_starts_with,
    tail_token, trim_newlines, trim_trailing_newlines,
};

verus! {

/// A verified kernel build: its release identifier and resolved paths.
#[derive(Debug, Clone)]
pub struct KernelArtifacts {
    /// The release identifier, trimmed of trailing newline characters.
    pub release: String,
    /// Path of the kernel image.
    pub vmlinuz: String,
    /// Path of the kernel module tree.
    pub modules_dir: String,
}

/// The verdict on a release identifier string.
#[derive(Debug, Clone, Copy, PartialEq, Eq, Structural)]
pub enum ReleaseCheck {
    /// Blank once trailing newlines are removed.
    Empty,
    /// Does not start with the expected version token.
    WrongVersion,
    /// Does not end with the expected local-version token.
    WrongLocalVersion,
    /// Non-blank with both tokens matching.
    Accepted,
}

/// The verdict on raw release-file content `raw` against the expected
/// version token `ver` and local-version token `lv`.
pub open spec fn release_verdict(raw: Seq<char>, ver: Seq<char>, lv: Seq<char>) -> ReleaseCheck {
    let t = trim_newlines(raw);
    if t.len() == 0 {
        ReleaseCheck::Empty
    } else if !is_prefix_of(ver, t) {
        ReleaseCheck::WrongVersion
    } else if !is_suffix_of(lv, t) {
        ReleaseCheck::WrongLocalVersion
    } else {
        ReleaseCheck::Accepted
    }
}

/// Law: the verdict accepts exactly the strings that are non-blank after
/// trimming, start with the version token, and end with the local-version
/// token; each rejection names the first failing condition, so a correct
/// prefix with a wrong suffix, a wrong prefix with a correct suffix, and a
/// blank string are all rejected.
pub proof fn law_release_acceptance(raw: Seq<char>, ver: Seq<char>, lv: Seq<char>)
    ensures
        release_verdict(raw, ver, lv) == ReleaseCheck::Accepted <==> (trim_newlines(raw).len() > 0
            && is_prefix_of(ver, trim_newlines(raw)) && is_suffix_of(lv, trim_newlines(raw))),
        release_verdict(raw, ver, lv) == ReleaseCheck::Empty <==> trim_newlines(raw).len() == 0,
        release_verdict(raw, ver, lv) == ReleaseCheck::WrongVersion <==> (trim_newlines(
            raw,
        ).len() > 0 && !is_prefix_of(ver, trim_newlines(raw))),
        release_verdict(raw, ver, lv) == ReleaseCheck::WrongLocalVersion <==> (trim_newlines(
            raw,
        ).len() > 0 && is_prefix_of(ver, trim_newlines(raw)) && !is_suffix_of(
            lv,
            trim_newlines(raw),
        )),
{
}

/// Law: with expected version token `"5.14.0"` and local-version token
/// `"-xyz"`, the release string `"5.14.0-xyz"` is accepted, while
/// `"5.14.0-abc"` is rejected for its local-version with `"-abc"` as the
/// actual trailing token.
pub proof fn law_release_scenario()
    ensures
        release_verdict("5.14.0-xyz"@, "5.14.0"@, "-xyz"@) == ReleaseCheck::Accepted,
        release_verdict("5.14.0-abc"@, "5.14.0"@, "-xyz"@) == ReleaseCheck::WrongLocalVersion,
        tail_token(trim_newlines("5.14.0-abc"@), "-xyz"@) == "-abc"@,
{
    reveal_strlit("5.14.0-xyz");
    reveal_strlit("5.14.0-abc");
    reveal_strlit("5.14.0");
    reveal_strlit("-xyz");
    reveal_strlit("-abc");
    let a = "5.14.0-xyz"@;
    let b = "5.14.0-abc"@;
    let v = "5.14.0"@;
    let l = "-xyz"@;
    assert(a.len() == 10 && b.len() == 10 && v.len() == 6 && l.len() == 4);
    assert(trim_newlines(a) == a);
    assert(trim_newlines(b) == b);
    assert(a.subrange(0, 6) =~= v);
    assert(a.subrange(6, 10) =~= l);
    assert(b.subrange(0, 6) =~= v);
    assert(b.subrange(6, 10) =~= "-abc"@);
    assert(b.subrange(6, 10)[1] == 'a' && l[1] == 'x');
}

/// Relative path of the release identifier file under the output directory.
pub fn release_file_path(out_dir: &str) -> (r: String)
    ensures
        r@ == out_dir@ + seq!['/'] + "kernel-build/include/config/kernel.release"@,
{
    path_join(out_dir, "kernel-build/include/config/kernel.release")
}

/// Fixed path of the kernel image under the output directory.
pub fn vmlinuz_path(out_dir: &str) -> (r: String)
    ensures
        r@ == out_dir@ + seq!['/'] + "staging/boot/vmlinuz"@,
{
    path_join(out_dir, "staging/boot/vmlinuz")
}

/// First module-tree candidate: the "user"-prefixed convention.
pub fn usr_modules_path(out_dir: &str, release: &str) -> (r: String)
    ensures
        r@ == out_dir@ + seq!['/'] + "staging/usr/lib/modules"@ + seq!['/'] + release@,
{
    let base = path_join(out_dir, "staging/usr/lib/modules");
    path_join(base.as_str(), release)
}

/// Second module-tree candidate: the "system" convention.
pub fn lib_modules_path(out_dir: &str, release: &str) -> (r: String)
    ensures
        r@ == out_dir@ + seq!['/'] + "staging/lib/modules"@ + seq!['/'] + release@,
{
    let base = path_join(out_dir, "staging/lib/modules");
    path_join(base.as_str(), release)
}

/// Validates a previously built kernel against the expected version and
/// local-version tokens of the static build specification.
pub struct KernelVerifier {
    /// Version token the release string must start with.
    pub expected_version: String,
    /// Local-version token the release string must end with.
    pub expected_localversion: String,
}

impl KernelVerifier {
    /// A verifier for the given expected tokens.
    pub fn new(expected_version: String, expected_localversion: String) -> (r: KernelVerifier)
        ensures
            r.expected_version == expected_version,
            r.expected_localversion == expected_localversion,
    {
        KernelVerifier { expected_version, expected_localversion }
    }

    /// Checks the raw content of the release identifier file (`None` when
    /// the file could not be read) and returns the trimmed release string.
    ///
    /// The result is `Ok` exactly when the file was readable and its content,
    /// trimmed of trailing newlines, is non-blank, starts with the expected
    /// version token, and ends with the expected local-version token; each
    /// error names the failing condition, with the actual and expected token
    /// for a mismatch.
    pub fn parse_release(&self, raw: Option<&str>, release_path: &str) -> (r: Result<
        String,
        StageError,
    >)
        ensures
            match r {
                Ok(rel) => match raw {
                    Some(c) => release_verdict(
                        c@,
                        self.expected_version@,
                        self.expected_localversion@,
                    ) == ReleaseCheck::Accepted && rel@ == trim_newlines(c@),
                    None => false,
                },
                Err(e) => match e {
                    StageError::MissingArtifact { path } => raw is None && path@
                        == release_path@,
                    StageError::EmptyRelease { path } => match raw {
                        Some(c) => release_verdict(
                            c@,
                            self.expected_version@,
                            self.expected_localversion@,
                        ) == ReleaseCheck::Empty && path@ == release_path@,
                        None => false,
                    },
                    StageError::VersionMismatch { release, actual, expected } => match raw {
                        Some(c) => {
                            let t = trim_newlines(c@);
                            release_verdict(
                                c@,
                                self.expected_version@,
                                self.expected_localversion@,
                            ) == ReleaseCheck::WrongVersion && release@ == t && actual@
                                == head_token(t, self.expected_version@) && expected@
                                == self.expected_version@
                        },
                        None => false,
                    },
                    StageError::LocalVersionMismatch { release, actual, expected } => match raw {
                        Some(c) => {
                            let t = trim_newlines(c@);
                            release_verdict(
                                c@,
                                self.expected_version@,
                                self.expected_localversion@,
                            ) == ReleaseCheck::WrongLocalVersion && release@ == t && actual@
                                == tail_token(t, self.expected_localversion@) && expected@
                                == self.expected_localversion@
                        },
                        None => false,
                    },
                    _ => false,
                },
            },
    {
        let content = match raw {
            Some(c) => c,
            None => {
                return Err(StageError::MissingArtifact { path: release_path.to_owned() });
            },
        };
        let rel = trim_trailing_newlines(content);
        let rlen = rel.as_str().unicode_len();
        if rlen == 0 {
            return Err(StageError::EmptyRelease { path: release_path.to_owned() });
        }
        if !str_starts_with(rel.as_str(), self.expected_version.as_str()) {
            let vlen = self.expected_version.as_str().unicode_len();
            let actual = if vlen <= rlen {
                rel.as_str().substring_char(0, vlen).to_owned()
            } else {
                rel.clone()
            };
            return Err(StageError::VersionMismatch {
                release: rel,
                actual,
                expected: self.expected_version.clone(),
            });
        }
        if !str_ends_with(rel.as_str(), self.expected_localversion.as_str()) {
            let lvlen = self.expected_localversion.as_str().unicode_len();
            let actual = if lvlen <= rlen {
                rel.as_str().substring_char(rlen - lvlen, rlen).to_owned()
            } else {
                rel.clone()
            };
            return Err(StageError::LocalVersionMismatch {
                release: rel,
                actual,
                expected: self.expected_localversion.clone(),
            });
        }
        Ok(rel)
    }

    /// Resolves the module tree by trying the "user"-prefixed candidate
    /// first, then the "system" candidate; the first existing directory
    /// wins, and neither existing is a missing-artifact failure naming the
    /// release.
    pub fn resolve_modules_dir(
        &self,
        usr_path: String,
        lib_path: String,
        usr_is_dir: bool,
        lib_is_dir: bool,
        release: &str,
    ) -> (r: Result<String, StageError>)
        ensures
            match r {
                Ok(p) => (usr_is_dir && p == usr_path) || (!usr_is_dir && lib_is_dir && p
                    == lib_path),
                Err(e) => match e {
                    StageError::MissingModulesDir { release: rl } => !usr_is_dir && !lib_is_dir
                        && rl@ == release@,
                    _ => false,
                },
            },
    {
        if usr_is_dir {
            Ok(usr_path)
        } else if lib_is_dir {
            Ok(lib_path)
        } else {
            Err(StageError::MissingModulesDir { release: release.to_owned() })
        }
    }

    /// Combines the existence checks on the kernel image and the module
    /// tree into the verified artifact record for a parsed release.
    pub fn assemble(
        &self,
        release: String,
        vmlinuz: String,
        vmlinuz_is_file: bool,
        usr_path: String,
        lib_path: String,
        usr_is_dir: bool,
        lib_is_dir: bool,
    ) -> (r: Result<KernelArtifacts, StageError>)
        ensures
            match r {
                Ok(a) => vmlinuz_is_file && a.release == release && a.vmlinuz == vmlinuz && (
                (usr_is_dir && a.modules_dir == usr_path) || (!usr_is_dir && lib_is_dir
                    && a.modules_dir == lib_path)),
                Err(e) => match e {
                    StageError::MissingArtifact { path } => !vmlinuz_is_file && path == vmlinuz,
                    StageError::MissingModulesDir { release: rl } => vmlinuz_is_file && !usr_is_dir
                        && !lib_is_dir && rl == release,
                    _ => false,
                },
            },
    {
        if !vmlinuz_is_file {
            return Err(StageError::MissingArtifact { path: vmlinuz });
        }
        let modules_dir = match self.resolve_modules_dir(
            usr_path,
            lib_path,
            usr_is_dir,
            lib_is_dir,
            release.as_str(),
        ) {
            Ok(p) => p,
            Err(_) => {
                return Err(StageError::MissingModulesDir { release });
            },
        };
        Ok(KernelArtifacts { release, vmlinuz, modules_dir })
    }
}

} // verus!
