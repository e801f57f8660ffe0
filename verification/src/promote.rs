//! Atomic promotion of the generated root filesystem image.
//!
//! The image is built under a temporary name and renamed into place only
//! once complete, so at every observable instant the canonical path either
//! does not exist or holds a complete image — never a half-written one, even
//! across a process crash.  The protocol is a small state machine: the
//! surrounding program performs each pending action (a removal, the
//! delegated image build, an existence probe, the final rename) and feeds
//! the outcome back through [`RootfsPromotion::advance`].

use vstd::prelude::*;
use crate::errors::{FileOp, StageError, ToolKind};
use crate::payload::{rootfs_image_path, work_image_path};

verus! {

/// Where the promotion protocol stands.
#[derive(Debug, Clone, Copy, PartialEq, Eq, Structural)]
pub enum PromotionPhase {
    /// A stale temporary file has to be removed first.
    ClearingWork,
    /// The image is being built into the temporary path.
    Building,
    /// The canonical path is probed for a stale file.
    CheckingStale,
    /// A stale file at the canonical path has to be removed.
    ClearingStale,
    /// The completed temporary file is renamed into place.
    Publishing,
    /// The image stands complete under its canonical name.
    Published,
    /// An action failed; the protocol stops.
    Failed,
}

/// An action the surrounding program performs for the protocol.
#[derive(Debug, Clone)]
pub enum PromoteAction {
    /// Remove the file at `path`.
    RemoveFile { path: String },
    /// Delegate building the compressed image from `source` into `dest`.
    BuildImage { source: String, dest: String },
    /// Probe whether a file exists at `path`.
    CheckCanonical { path: String },
    /// Atomically rename `from` onto `to`.
    Rename { from: String, to: String },
}

/// The outcome of a performed action, fed back into the protocol.
#[derive(Debug, Clone, Copy)]
pub enum PromoteEvent {
    /// Outcome of a removal.
    Removed { ok: bool },
    /// Outcome of the delegated image build.
    Built { ok: bool },
    /// Outcome of the canonical-path probe.
    CanonicalChecked { exists: bool },
    /// Outcome of the rename.
    Renamed { ok: bool },
}

/// The promotion protocol for one root filesystem image.
#[derive(Debug, Clone)]
pub struct RootfsPromotion {
    /// Source tree the image is built from.
    pub source_dir: String,
    /// Temporary path the image is built under.
    pub work_path: String,
    /// Canonical path the image is published at.
    pub canonical_path: String,
    /// Where the protocol stands.
    pub phase: PromotionPhase,
}

impl RootfsPromotion {
    /// The temporary path is the canonical path with a distinct suffix, so
    /// no action aimed at one can touch the other.
    pub open spec fn wf(self) -> bool {
        self.work_path@ == self.canonical_path@ + ".work"@
    }

    /// The action the surrounding program has to perform next, if any.
    pub open spec fn spec_pending(self) -> Option<PromoteAction> {
        match self.phase {
            PromotionPhase::ClearingWork => Some(
                PromoteAction::RemoveFile { path: self.work_path },
            ),
            PromotionPhase::Building => Some(
                PromoteAction::BuildImage { source: self.source_dir, dest: self.work_path },
            ),
            PromotionPhase::CheckingStale => Some(
                PromoteAction::CheckCanonical { path: self.canonical_path },
            ),
            PromotionPhase::ClearingStale => Some(
                PromoteAction::RemoveFile { path: self.canonical_path },
            ),
            PromotionPhase::Publishing => Some(
                PromoteAction::Rename { from: self.work_path, to: self.canonical_path },
            ),
            PromotionPhase::Published => None,
            PromotionPhase::Failed => None,
        }
    }

    /// Whether `ev` answers the pending action.
    pub open spec fn expects(self, ev: PromoteEvent) -> bool {
        match self.phase {
            PromotionPhase::ClearingWork => ev is Removed,
            PromotionPhase::Building => ev is Built,
            PromotionPhase::CheckingStale => ev is CanonicalChecked,
            PromotionPhase::ClearingStale => ev is Removed,
            PromotionPhase::Publishing => ev is Renamed,
            PromotionPhase::Published => false,
            PromotionPhase::Failed => false,
        }
    }

    /// The protocol's transition relation: the next phase and, on a failed
    /// action, the error the stage aborts with.
    pub open spec fn spec_advance(pre: RootfsPromotion, ev: PromoteEvent) -> (
        PromotionPhase,
        Result<bool, StageError>,
    ) {
        match (pre.phase, ev) {
            (PromotionPhase::ClearingWork, PromoteEvent::Removed { ok }) => if ok {
                (PromotionPhase::Building, Ok(false))
            } else {
                (
                    PromotionPhase::Failed,
                    Err(StageError::FileOpFailed { op: FileOp::Remove, path: pre.work_path }),
                )
            },
            (PromotionPhase::Building, PromoteEvent::Built { ok }) => if ok {
                (PromotionPhase::CheckingStale, Ok(false))
            } else {
                (
                    PromotionPhase::Failed,
                    Err(
                        StageError::BuildFailed {
                            tool: ToolKind::RootfsImageBuilder,
                            detail: pre.source_dir,
                        },
                    ),
                )
            },
            (PromotionPhase::CheckingStale, PromoteEvent::CanonicalChecked { exists }) => if exists {
                (PromotionPhase::ClearingStale, Ok(false))
            } else {
                (PromotionPhase::Publishing, Ok(false))
            },
            (PromotionPhase::ClearingStale, PromoteEvent::Removed { ok }) => if ok {
                (PromotionPhase::Publishing, Ok(false))
            } else {
                (
                    PromotionPhase::Failed,
                    Err(StageError::FileOpFailed { op: FileOp::Remove, path: pre.canonical_path }),
                )
            },
            (PromotionPhase::Publishing, PromoteEvent::Renamed { ok }) => if ok {
                (PromotionPhase::Published, Ok(true))
            } else {
                (
                    PromotionPhase::Failed,
                    Err(StageError::FileOpFailed { op: FileOp::Rename, path: pre.work_path }),
                )
            },
            _ => (pre.phase, Ok(false)),
        }
    }

    /// Begins a promotion.  A stale temporary file from an interrupted
    /// earlier run is removed first; the canonical path is never built into
    /// directly.
    pub fn start(source_dir: String, out_dir: &str, rootfs_name: &str, work_exists: bool) -> (r:
        RootfsPromotion)
        ensures
            r.wf(),
            r.source_dir == source_dir,
            r.canonical_path@ == out_dir@ + seq!['/'] + rootfs_name@,
            r.work_path@ == out_dir@ + seq!['/'] + rootfs_name@ + ".work"@,
            r.phase == (if work_exists {
                PromotionPhase::ClearingWork
            } else {
                PromotionPhase::Building
            }),
    {
        let canonical_path = rootfs_image_path(out_dir, rootfs_name);
        let work_path = work_image_path(out_dir, rootfs_name);
        let phase = if work_exists {
            PromotionPhase::ClearingWork
        } else {
            PromotionPhase::Building
        };
        RootfsPromotion { source_dir, work_path, canonical_path, phase }
    }

    /// The action the surrounding program has to perform next, if any.
    pub fn pending_action(&self) -> (r: Option<PromoteAction>)
        ensures
            r == self.spec_pending(),
    {
        match self.phase {
            PromotionPhase::ClearingWork => Some(
                PromoteAction::RemoveFile { path: self.work_path.clone() },
            ),
            PromotionPhase::Building => Some(
                PromoteAction::BuildImage {
                    source: self.source_dir.clone(),
                    dest: self.work_path.clone(),
                },
            ),
            PromotionPhase::CheckingStale => Some(
                PromoteAction::CheckCanonical { path: self.canonical_path.clone() },
            ),
            PromotionPhase::ClearingStale => Some(
                PromoteAction::RemoveFile { path: self.canonical_path.clone() },
            ),
            PromotionPhase::Publishing => Some(
                PromoteAction::Rename {
                    from: self.work_path.clone(),
                    to: self.canonical_path.clone(),
                },
            ),
            PromotionPhase::Published => None,
            PromotionPhase::Failed => None,
        }
    }

    /// Feeds back the outcome of the pending action.  `Ok(true)` reports the
    /// image published; an error reports which action failed, and the
    /// protocol stops.
    pub fn advance(&mut self, ev: PromoteEvent) -> (r: Result<bool, StageError>)
        requires
            old(self).expects(ev),
        ensures
            final(self).source_dir == old(self).source_dir,
            final(self).work_path == old(self).work_path,
            final(self).canonical_path == old(self).canonical_path,
            final(self).phase == Self::spec_advance(*old(self), ev).0,
            r == Self::spec_advance(*old(self), ev).1,
    {
        match ev {
            PromoteEvent::Removed { ok } => {
                if ok {
                    match self.phase {
                        PromotionPhase::ClearingWork => {
                            self.phase = PromotionPhase::Building;
                        },
                        _ => {
                            self.phase = PromotionPhase::Publishing;
                        },
                    }
                    Ok(false)
                } else {
                    let path = match self.phase {
                        PromotionPhase::ClearingWork => self.work_path.clone(),
                        _ => self.canonical_path.clone(),
                    };
                    self.phase = PromotionPhase::Failed;
                    Err(StageError::FileOpFailed { op: FileOp::Remove, path })
                }
            },
            PromoteEvent::Built { ok } => {
                if ok {
                    self.phase = PromotionPhase::CheckingStale;
                    Ok(false)
                } else {
                    self.phase = PromotionPhase::Failed;
                    Err(
                        StageError::BuildFailed {
                            tool: ToolKind::RootfsImageBuilder,
                            detail: self.source_dir.clone(),
                        },
                    )
                }
            },
            PromoteEvent::CanonicalChecked { exists } => {
                if exists {
                    self.phase = PromotionPhase::ClearingStale;
                } else {
                    self.phase = PromotionPhase::Publishing;
                }
                Ok(false)
            },
            PromoteEvent::Renamed { ok } => {
                if ok {
                    self.phase = PromotionPhase::Published;
                    Ok(true)
                } else {
                    self.phase = PromotionPhase::Failed;
                    Err(
                        StageError::FileOpFailed {
                            op: FileOp::Rename,
                            path: self.work_path.clone(),
                        },
                    )
                }
            },
        }
    }
}

/// Whether performing `a` can bring a file into existence at `path`.
pub open spec fn creates_path(a: PromoteAction, path: Seq<char>) -> bool {
    match a {
        PromoteAction::RemoveFile { .. } => false,
        PromoteAction::BuildImage { dest, .. } => dest@ == path,
        PromoteAction::CheckCanonical { .. } => false,
        PromoteAction::Rename { to, .. } => to@ == path,
    }
}

/// Whether a file exists at `path` after `a` is performed, given whether one
/// existed before.
pub open spec fn exists_after(a: PromoteAction, path: Seq<char>, before: bool) -> bool {
    match a {
        PromoteAction::RemoveFile { path: p } => if p@ == path {
            false
        } else {
            before
        },
        PromoteAction::BuildImage { dest, .. } => if dest@ == path {
            true
        } else {
            before
        },
        PromoteAction::CheckCanonical { .. } => before,
        PromoteAction::Rename { to, .. } => if to@ == path {
            true
        } else {
            before
        },
    }
}

/// Law: before the protocol reaches its publishing step, no pending action
/// can bring a file into existence at the canonical path.  In particular, an
/// interruption after the temporary image is written but before the rename
/// leaves the canonical path absent.
pub proof fn law_canonical_untouched_before_publish(p: RootfsPromotion)
    requires
        p.wf(),
        p.phase != PromotionPhase::Publishing,
    ensures
        match p.spec_pending() {
            Some(a) => !creates_path(a, p.canonical_path@),
            None => true,
        },
{
    reveal_strlit(".work");
    assert(p.work_path@.len() == p.canonical_path@.len() + 5);
}

/// Law: a promotion begun with the canonical path absent keeps it absent
/// through every action up to, and excluding, the publishing rename.
pub proof fn law_absent_until_publish(p: RootfsPromotion)
    requires
        p.wf(),
        p.phase != PromotionPhase::Publishing,
    ensures
        match p.spec_pending() {
            Some(a) => !exists_after(a, p.canonical_path@, false),
            None => true,
        },
{
    law_canonical_untouched_before_publish(p);
}

/// The machine after processing one event.
pub open spec fn step(p: RootfsPromotion, ev: PromoteEvent) -> RootfsPromotion {
    RootfsPromotion {
        source_dir: p.source_dir,
        work_path: p.work_path,
        canonical_path: p.canonical_path,
        phase: RootfsPromotion::spec_advance(p, ev).0,
    }
}

/// Whether a file exists at the canonical path once each step's pending
/// action has been performed, in order, starting from `before`.
pub open spec fn canonical_after_run(
    p: RootfsPromotion,
    evs: Seq<PromoteEvent>,
    before: bool,
) -> bool
    decreases evs.len(),
{
    if evs.len() == 0 {
        before
    } else {
        let after_action = match p.spec_pending() {
            Some(a) => exists_after(a, p.canonical_path@, before),
            None => before,
        };
        canonical_after_run(step(p, evs[0]), evs.drop_first(), after_action)
    }
}

/// No step of the run stands at the publishing rename.
pub open spec fn stops_before_publish(p: RootfsPromotion, evs: Seq<PromoteEvent>) -> bool
    decreases evs.len(),
{
    if evs.len() == 0 {
        true
    } else {
        p.phase != PromotionPhase::Publishing && stops_before_publish(
            step(p, evs[0]),
            evs.drop_first(),
        )
    }
}

/// Law: a run of the protocol interrupted at any point before the publishing
/// rename — in particular right after the temporary image is written — leaves
/// a canonical path that was absent at the start still absent.
pub proof fn law_interrupted_run_leaves_canonical_absent(
    p: RootfsPromotion,
    evs: Seq<PromoteEvent>,
)
    requires
        p.wf(),
        stops_before_publish(p, evs),
    ensures
        !canonical_after_run(p, evs, false),
    decreases evs.len(),
{
    if evs.len() > 0 {
        law_absent_until_publish(p);
        law_interrupted_run_leaves_canonical_absent(step(p, evs[0]), evs.drop_first());
    }
}

} // verus!
