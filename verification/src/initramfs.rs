//! Boot-time minimal filesystem planning.
//!
//! Computes the kernel-module selection policy and assembles the
//! configuration record the external builder is delegated with.  Module
//! selection filters a static baseline list through an exclusion set,
//! deterministically and order-preservingly.

use vstd::prelude::*;
use vstd::string::*;
use crate::config::BuildSpec;
use crate::errors::{StageError, ToolKind};
use crate::strutil::path_join;

verus! {

/// The views of a list of owned strings.
pub open spec fn module_views(v: Seq<String>) -> Seq<Seq<char>> {
    v.map_values(|m: String| m@)
}

/// The predicate a module name must satisfy to stay selected.
pub open spec fn keeps(exclusions: Seq<Seq<char>>) -> spec_fn(Seq<char>) -> bool {
    |m: Seq<char>| !exclusions.contains(m)
}

/// The baseline list with every excluded name dropped, order kept.
pub open spec fn selected(baseline: Seq<Seq<char>>, exclusions: Seq<Seq<char>>) -> Seq<Seq<char>> {
    baseline.filter(keeps(exclusions))
}

/// Whether `a` is `b` with zero or more elements dropped, order kept.
pub open spec fn subsequence_of<T>(a: Seq<T>, b: Seq<T>) -> bool
    decreases b.len(),
{
    if a.len() == 0 {
        true
    } else if b.len() == 0 {
        false
    } else if a.last() == b.last() {
        subsequence_of(a.drop_last(), b.drop_last())
    } else {
        subsequence_of(a, b.drop_last())
    }
}

/// Filtering a sequence keeps the survivors in their original order.
pub proof fn lemma_filter_subsequence<T>(s: Seq<T>, p: spec_fn(T) -> bool)
    ensures
        subsequence_of(s.filter(p), s),
    decreases s.len(),
{
    reveal(Seq::filter);
    if s.len() == 0 {
    } else {
        let rest = s.drop_last().filter(p);
        lemma_filter_subsequence(s.drop_last(), p);
        if p(s.last()) {
            assert(s.filter(p) == rest.push(s.last()));
            assert(s.filter(p).drop_last() =~= rest);
            assert(s.filter(p).last() == s.last());
        } else {
            assert(s.filter(p) == rest);
            if rest.len() > 0 {
                s.drop_last().lemma_filter_pred(p, rest.len() - 1);
                assert(p(rest.last()));
                assert(rest.last() != s.last());
            }
        }
    }
}

/// Two pointwise-equal predicates filter a sequence identically.
proof fn lemma_filter_congruence<T>(s: Seq<T>, p: spec_fn(T) -> bool, q: spec_fn(T) -> bool)
    requires
        forall|x: T| #[trigger] p(x) == q(x),
    ensures
        s.filter(p) == s.filter(q),
    decreases s.len(),
{
    reveal(Seq::filter);
    if s.len() == 0 {
    } else {
        lemma_filter_congruence(s.drop_last(), p, q);
    }
}

/// Whether `v` holds a string with the view of `s`.
pub fn contains_string(v: &Vec<String>, s: &String) -> (r: bool)
    ensures
        r == module_views(v@).contains(s@),
{
    let ghost vm = module_views(v@);
    let mut i: usize = 0;
    while i < v.len()
        invariant
            i <= v.len(),
            vm == module_views(v@),
            forall|j: int| 0 <= j < i ==> vm[j] != s@,
        decreases v.len() - i,
    {
        if v[i] == *s {
            proof {
                assert(vm[i as int] == s@);
            }
            return true;
        }
        i = i + 1;
    }
    proof {
        assert(!vm.contains(s@));
    }
    false
}

/// Filters the baseline module list by dropping every name present in the
/// exclusion set; deterministic and order-preserving.
pub fn select_modules(baseline: &Vec<String>, exclusions: &Vec<String>) -> (r: Vec<String>)
    ensures
        module_views(r@) == selected(module_views(baseline@), module_views(exclusions@)),
{
    let ghost bv = module_views(baseline@);
    let ghost ev = module_views(exclusions@);
    let mut r: Vec<String> = Vec::new();
    let mut i: usize = 0;
    proof {
        reveal(Seq::filter);
        assert(bv.subrange(0, 0).filter(keeps(ev)) =~= module_views(r@));
    }
    while i < baseline.len()
        invariant
            i <= baseline.len(),
            bv == module_views(baseline@),
            ev == module_views(exclusions@),
            module_views(r@) == bv.subrange(0, i as int).filter(keeps(ev)),
        decreases baseline.len() - i,
    {
        let keep = !contains_string(exclusions, &baseline[i]);
        proof {
            reveal(Seq::filter);
            let s1 = bv.subrange(0, i + 1);
            assert(s1.drop_last() =~= bv.subrange(0, i as int));
            assert(s1.last() == bv[i as int]);
            assert(bv[i as int] == baseline@[i as int]@);
        }
        if keep {
            r.push(baseline[i].clone());
            proof {
                assert(module_views(r@) =~= bv.subrange(0, i as int).filter(keeps(ev)).push(
                    bv[i as int],
                ));
            }
        }
        i = i + 1;
    }
    proof {
        assert(bv.subrange(0, baseline@.len() as int) =~= bv);
    }
    r
}

/// Law: module selection drops every excluded name, keeps every other
/// baseline name, and preserves the baseline's relative order.
pub proof fn law_module_selection(baseline: Seq<Seq<char>>, exclusions: Seq<Seq<char>>)
    ensures
        forall|i: int| 0 <= i < selected(baseline, exclusions).len() ==> !exclusions.contains(
            #[trigger] selected(baseline, exclusions)[i],
        ),
        forall|m: Seq<char>| baseline.contains(m) && !exclusions.contains(m) ==> selected(
            baseline,
            exclusions,
        ).contains(m),
        subsequence_of(selected(baseline, exclusions), baseline),
{
    let p = keeps(exclusions);
    assert forall|i: int| 0 <= i < selected(baseline, exclusions).len() implies !exclusions
        .contains(selected(baseline, exclusions)[i]) by {
        baseline.lemma_filter_pred(p, i);
    }
    assert forall|m: Seq<char>|
        baseline.contains(m) && !exclusions.contains(m) implies selected(
        baseline,
        exclusions,
    ).contains(m) by {
        let j = choose|j: int| 0 <= j < baseline.len() && baseline[j] == m;
        baseline.lemma_filter_contains(p, j);
    }
    lemma_filter_subsequence(baseline, p);
}

/// The baseline module list with the storage-controller names the current
/// kernel configuration intentionally omits dropped.
pub fn ralph_live_module_names(baseline: &Vec<String>) -> (r: Vec<String>)
    ensures
        module_views(r@) == module_views(baseline@).filter(
            |m: Seq<char>| m != "nvme-core"@ && m != "nvme"@,
        ),
{
    let mut exclusions: Vec<String> = Vec::new();
    exclusions.push("nvme-core".to_owned());
    exclusions.push("nvme".to_owned());
    let r = select_modules(baseline, &exclusions);
    proof {
        let ev = module_views(exclusions@);
        assert(ev.len() == 2 && ev[0] == "nvme-core"@ && ev[1] == "nvme"@);
        let q = |m: Seq<char>| m != "nvme-core"@ && m != "nvme"@;
        assert forall|m: Seq<char>| #[trigger] keeps(ev)(m) == q(m) by {
            if ev.contains(m) {
                let j = choose|j: int| 0 <= j < ev.len() && ev[j] == m;
                assert(j == 0 || j == 1);
            }
            if m == "nvme-core"@ {
                assert(ev[0] == m);
            }
            if m == "nvme"@ {
                assert(ev[1] == m);
            }
        }
        lemma_filter_congruence(module_views(baseline@), keeps(ev), q);
    }
    r
}

/// Local cache location of the static busybox binary.
pub fn busybox_cache_path(base_dir: &str) -> (r: String)
    ensures
        r@ == base_dir@ + seq!['/'] + "downloads/busybox-static"@,
{
    path_join(base_dir, "downloads/busybox-static")
}

/// Where the static busybox binary comes from.
#[derive(Debug, Clone)]
pub enum BusyboxSource {
    /// A cached binary is present; no download happens.
    Cached { path: String },
    /// Download from `url` (the override when one is set, the built-in
    /// default otherwise) into the cache.
    Download { url: String, dest: String },
}

/// Decides whether the cached binary is reused or a download is needed, and
/// from which URL.
pub fn plan_busybox(
    base_dir: &str,
    cached_is_file: bool,
    url_override: Option<&str>,
    default_url: &str,
) -> (r: BusyboxSource)
    ensures
        match r {
            BusyboxSource::Cached { path } => cached_is_file && path@ == base_dir@ + seq!['/']
                + "downloads/busybox-static"@,
            BusyboxSource::Download { url, dest } => !cached_is_file && dest@ == base_dir@
                + seq!['/'] + "downloads/busybox-static"@ && url@ == (match url_override {
                Some(u) => u@,
                None => default_url@,
            }),
        },
{
    let path = busybox_cache_path(base_dir);
    if cached_is_file {
        BusyboxSource::Cached { path }
    } else {
        let url = match url_override {
            Some(u) => u.to_owned(),
            None => default_url.to_owned(),
        };
        BusyboxSource::Download { url, dest: path }
    }
}

/// Maps the fetcher's reported outcome.
pub fn fetch_outcome(ok: bool, url: String) -> (r: Result<(), StageError>)
    ensures
        match r {
            Ok(_) => ok,
            Err(e) => match e {
                StageError::BuildFailed { tool, detail } => !ok && tool == ToolKind::BusyboxFetcher
                    && detail == url,
                _ => false,
            },
        },
{
    if ok {
        Ok(())
    } else {
        Err(StageError::BuildFailed { tool: ToolKind::BusyboxFetcher, detail: url })
    }
}

/// Fixed location of the boot-script template under the base directory.
pub fn template_path(base_dir: &str) -> (r: String)
    ensures
        r@ == base_dir@ + seq!['/'] + "profile/init_tiny.template"@,
{
    path_join(base_dir, "profile/init_tiny.template")
}

/// The template is a required input of the builder.
pub fn template_check(template_is_file: bool, template: String) -> (r: Result<(), StageError>)
    ensures
        match r {
            Ok(_) => template_is_file,
            Err(e) => match e {
                StageError::MissingArtifact { path } => !template_is_file && path == template,
                _ => false,
            },
        },
{
    if template_is_file {
        Ok(())
    } else {
        Err(StageError::MissingArtifact { path: template })
    }
}

/// Copy of a list of owned strings.
pub fn clone_strings(v: &Vec<String>) -> (r: Vec<String>)
    ensures
        r@ == v@,
{
    let mut r: Vec<String> = Vec::new();
    let mut i: usize = 0;
    while i < v.len()
        invariant
            i <= v.len(),
            r@ == v@.subrange(0, i as int),
        decreases v.len() - i,
    {
        r.push(v[i].clone());
        proof {
            assert(r@ =~= v@.subrange(0, i + 1));
        }
        i = i + 1;
    }
    proof {
        assert(v@.subrange(0, v@.len() as int) =~= v@);
    }
    r
}

/// The configuration record the external builder is delegated with.
#[derive(Debug, Clone)]
pub struct InitramfsPlan {
    /// Kernel module tree the selected modules come from.
    pub modules_dir: String,
    /// Static busybox binary to embed.
    pub busybox_path: String,
    /// Boot-script template.
    pub template_path: String,
    /// Output path of the generated archive.
    pub output: String,
    /// Volume label the boot device is found by.
    pub iso_label: String,
    /// Root filesystem image path inside the image.
    pub rootfs_path: String,
    /// Optional overlay image path inside the image.
    pub live_overlay_image_path: Option<String>,
    /// Optional overlay device path inside the image.
    pub live_overlay_path: Option<String>,
    /// Ordered boot-device probe candidates.
    pub boot_devices: Vec<String>,
    /// The computed module allow-list.
    pub modules: Vec<String>,
    /// Compression level of the archive.
    pub gzip_level: u8,
    /// Verify that embedded binaries are statically linked.
    pub check_builtin: bool,
}

/// Assembles the builder's configuration: the computed module allow-list,
/// the resolved inputs, and the fixed options of the build specification.
pub fn plan_initramfs(
    build: &BuildSpec,
    out_dir: &str,
    modules_dir: String,
    busybox_path: String,
    template: String,
) -> (r: InitramfsPlan)
    ensures
        r.modules_dir == modules_dir,
        r.busybox_path == busybox_path,
        r.template_path == template,
        r.output@ == out_dir@ + seq!['/'] + build.initramfs_filename@,
        r.iso_label == build.iso_label,
        r.rootfs_path == build.rootfs_iso_path,
        r.live_overlay_image_path == Some(build.live_overlay_iso_path),
        r.live_overlay_path == Some(build.live_overlay_iso_path),
        r.boot_devices@ == build.boot_devices@,
        module_views(r.modules@) == module_views(build.base_modules@).filter(
            |m: Seq<char>| m != "nvme-core"@ && m != "nvme"@,
        ),
        r.gzip_level == build.gzip_level,
        r.check_builtin,
{
    let output = path_join(out_dir, build.initramfs_filename.as_str());
    let modules = ralph_live_module_names(&build.base_modules);
    InitramfsPlan {
        modules_dir,
        busybox_path,
        template_path: template,
        output,
        iso_label: build.iso_label.clone(),
        rootfs_path: build.rootfs_iso_path.clone(),
        live_overlay_image_path: Some(build.live_overlay_iso_path.clone()),
        live_overlay_path: Some(build.live_overlay_iso_path.clone()),
        boot_devices: clone_strings(&build.boot_devices),
        modules,
        gzip_level: build.gzip_level,
        check_builtin: true,
    }
}

/// Maps the delegated builder's reported outcome.
pub fn initramfs_outcome(ok: bool, output: String) -> (r: Result<(), StageError>)
    ensures
        match r {
            Ok(_) => ok,
            Err(e) => match e {
                StageError::BuildFailed { tool, detail } => !ok && tool
                    == ToolKind::InitramfsBuilder && detail == output,
                _ => false,
            },
        },
{
    if ok {
        Ok(())
    } else {
        Err(StageError::BuildFailed { tool: ToolKind::InitramfsBuilder, detail: output })
    }
}

} // verus!
