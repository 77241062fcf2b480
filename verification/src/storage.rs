//! How much room the projects take on disk, and how much of it can be
//! freed. The caller measures the directories; this module says what counts
//! as a checkpoint and adds the measures up.

use vstd::prelude::*;
use crate::clock::is_digit;
use crate::text::{chars_of, ends_with, has_suffix};

verus! {

/// The room that one project takes.
pub struct ProjectStorageInfo {
    pub project_id: String,
    pub project_name: Option<String>,
    pub total_bytes: u64,
    /// The room taken by what an export leaves behind.
    pub export_fused_bytes: u64,
    /// How many adapter directories hold nothing.
    pub empty_adapter_count: u32,
    /// The room taken by the checkpoints of finished trainings.
    pub checkpoint_bytes: u64,
}

/// The room that all projects take together.
pub struct StorageUsage {
    pub total_bytes: u64,
    /// The room that a cleanup would free.
    pub cleanable_bytes: u64,
    pub export_fused_bytes: u64,
    pub empty_adapter_count: u32,
    pub tmp_bytes: u64,
    pub checkpoint_bytes: u64,
    pub projects: Vec<ProjectStorageInfo>,
}

/// What a cleanup did.
pub struct CleanupResult {
    pub freed_bytes: u64,
    pub removed_export_fused: u32,
    pub removed_empty_adapters: u32,
    pub removed_tmp: bool,
}

/// How many digits `s` starts with.
pub open spec fn leading_digits(s: Seq<char>) -> nat
    decreases s.len(),
{
    if s.len() > 0 && is_digit(s[0]) {
        1 + leading_digits(s.drop_first())
    } else {
        0
    }
}

/// Whether a file of the name `name` is a checkpoint of a training: weights
/// saved on the way, numbered with three digits or more.
pub open spec fn is_checkpoint(name: Seq<char>) -> bool {
    has_suffix(name, "_adapters.safetensors"@) && leading_digits(name) >= 3
}

proof fn lemma_leading_digits(s: Seq<char>, i: int)
    requires
        0 <= i <= s.len(),
        forall|j: int| 0 <= j < i ==> is_digit(#[trigger] s[j]),
        i == s.len() || !is_digit(s[i]),
    ensures
        leading_digits(s) == i,
    decreases i,
{
    if i > 0 {
        let t = s.drop_first();
        assert forall|j: int| 0 <= j < i - 1 implies is_digit(#[trigger] t[j]) by {
            assert(t[j] == s[j + 1]);
        }
        lemma_leading_digits(t, i - 1);
    }
}

/// Tells whether a file is a checkpoint of a training.
pub fn is_checkpoint_file(name: &str) -> (r: bool)
    ensures
        r == is_checkpoint(name@),
{
    let v = chars_of(name);
    let mut i: usize = 0;
    while i < v.len() && 0x30 <= v[i] as u32 && v[i] as u32 <= 0x39
        invariant
            i <= v.len(),
            forall|j: int| 0 <= j < i ==> is_digit(#[trigger] v@[j]),
        decreases v.len() - i,
    {
        i += 1;
    }
    proof {
        lemma_leading_digits(v@, i as int);
    }
    i >= 3 && ends_with(&v, &chars_of("_adapters.safetensors"))
}

/// `n`, or the greatest number of 64 bits where `n` is greater.
pub open spec fn capped64(n: int) -> u64 {
    if n > u64::MAX {
        u64::MAX
    } else {
        n as u64
    }
}

/// `n`, or the greatest number of 32 bits where `n` is greater.
pub open spec fn capped32(n: int) -> u32 {
    if n > u32::MAX {
        u32::MAX
    } else {
        n as u32
    }
}

/// Describes the room that one project takes, from its measures. What an
/// export leaves behind lies in two places, which are added up.
pub fn scan_project(
    project_id: &str,
    total_bytes: u64,
    fused_bytes: u64,
    ollama_fused_bytes: u64,
    empty_adapter_count: u32,
    checkpoint_bytes: u64,
) -> (r: ProjectStorageInfo)
    ensures
        r.project_id@ == project_id@,
        r.project_name is None,
        r.total_bytes == total_bytes,
        r.export_fused_bytes == capped64(fused_bytes + ollama_fused_bytes),
        r.empty_adapter_count == empty_adapter_count,
        r.checkpoint_bytes == checkpoint_bytes,
{
    ProjectStorageInfo {
        project_id: project_id.to_owned(),
        project_name: None,
        total_bytes,
        export_fused_bytes: fused_bytes.saturating_add(ollama_fused_bytes),
        empty_adapter_count,
        checkpoint_bytes,
    }
}

/// The sums over the projects `ps`: of all their bytes, of what exports left
/// behind, of their empty adapter directories, and of their checkpoints.
pub open spec fn sums(ps: Seq<ProjectStorageInfo>) -> (int, int, int, int)
    decreases ps.len(),
{
    if ps.len() == 0 {
        (0, 0, 0, 0)
    } else {
        let s = sums(ps.drop_last());
        let p = ps.last();
        (
            s.0 + p.total_bytes,
            s.1 + p.export_fused_bytes,
            s.2 + p.empty_adapter_count,
            s.3 + p.checkpoint_bytes,
        )
    }
}

proof fn lemma_sums_nonnegative(ps: Seq<ProjectStorageInfo>)
    ensures
        sums(ps).0 >= 0,
        sums(ps).1 >= 0,
        sums(ps).2 >= 0,
        sums(ps).3 >= 0,
    decreases ps.len(),
{
    if ps.len() > 0 {
        lemma_sums_nonnegative(ps.drop_last());
    }
}

/// Adds up the room that the projects and the temporary files take. Every
/// sum stops at the greatest number that its type holds. What can be freed
/// is what exports left behind, the temporary files, and the checkpoints.
pub fn scan_storage_usage(tmp_bytes: u64, projects: Vec<ProjectStorageInfo>) -> (r: StorageUsage)
    ensures
        r.projects == projects,
        r.tmp_bytes == tmp_bytes,
        r.total_bytes == capped64(capped64(sums(projects@).0) + tmp_bytes),
        r.export_fused_bytes == capped64(sums(projects@).1),
        r.empty_adapter_count == capped32(sums(projects@).2),
        r.checkpoint_bytes == capped64(sums(projects@).3),
        r.cleanable_bytes == capped64(
            capped64(r.export_fused_bytes + tmp_bytes) + r.checkpoint_bytes,
        ),
{
    let mut total: u64 = 0;
    let mut fused: u64 = 0;
    let mut empty: u32 = 0;
    let mut checkpoints: u64 = 0;
    let mut i: usize = 0;
    assert(projects@.take(0) == Seq::<ProjectStorageInfo>::empty());
    while i < projects.len()
        invariant
            i <= projects.len(),
            total == capped64(sums(projects@.take(i as int)).0),
            fused == capped64(sums(projects@.take(i as int)).1),
            empty == capped32(sums(projects@.take(i as int)).2),
            checkpoints == capped64(sums(projects@.take(i as int)).3),
        decreases projects.len() - i,
    {
        proof {
            assert(projects@.take(i + 1).drop_last() == projects@.take(i as int));
            assert(projects@.take(i + 1).last() == projects@[i as int]);
            lemma_sums_nonnegative(projects@.take(i as int));
        }
        let p = &projects[i];
        total = total.saturating_add(p.total_bytes);
        fused = fused.saturating_add(p.export_fused_bytes);
        empty = empty.saturating_add(p.empty_adapter_count);
        checkpoints = checkpoints.saturating_add(p.checkpoint_bytes);
        i += 1;
    }
    assert(projects@.take(projects@.len() as int) == projects@);
    StorageUsage {
        total_bytes: total.saturating_add(tmp_bytes),
        cleanable_bytes: fused.saturating_add(tmp_bytes).saturating_add(checkpoints),
        export_fused_bytes: fused,
        empty_adapter_count: empty,
        tmp_bytes,
        checkpoint_bytes: checkpoints,
        projects,
    }
}

/// Reports a cleanup. The temporary files count as freed where their
/// directory was there, and as removed where they took any room.
pub fn cleanup_result(
    tmp_bytes: u64,
    tmp_dir_exists: bool,
    freed_in_projects: u64,
    removed_export_fused: u32,
    removed_empty_adapters: u32,
) -> (r: CleanupResult)
    ensures
        r.freed_bytes == capped64(
            freed_in_projects + (if tmp_dir_exists {
                tmp_bytes as int
            } else {
                0
            }),
        ),
        r.removed_export_fused == removed_export_fused,
        r.removed_empty_adapters == removed_empty_adapters,
        r.removed_tmp == (tmp_bytes > 0),
{
    let freed_tmp: u64 = if tmp_dir_exists {
        tmp_bytes
    } else {
        0
    };
    CleanupResult {
        freed_bytes: freed_in_projects.saturating_add(freed_tmp),
        removed_export_fused,
        removed_empty_adapters,
        removed_tmp: tmp_bytes > 0,
    }
}

} // verus!
