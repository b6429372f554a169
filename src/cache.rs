//! The environment cache: one directory per cache key under the cache root,
//! holding a metadata record; validity checks and eviction.

use vstd::prelude::*;

use crate::config::Config;
use crate::digest::{cache_key_of, key_material, lemma_cache_key_changes_with_primary_mtime, sha256_of};
use crate::environment::EnvironmentType;
use crate::text::{join_path, path_join};
use crate::vars::EnvVars;

verus! {

/// Name of the metadata record in an entry's directory.
pub const METADATA_FILE: &'static str = "metadata.json";

/// Nanoseconds in a day.
pub const NANOS_PER_DAY: u128 = 86_400_000_000_000;

/// A cached environment.
#[derive(Debug, Clone)]
pub struct CacheMetadata {
    /// When the entry was made, in nanoseconds since the epoch.
    pub created_at: i64,
    pub environment_type: EnvironmentType,
    pub cache_key: String,
    pub nix_store_paths: Vec<String>,
    pub environment_vars: EnvVars,
}

impl CacheMetadata {
    /// An entry made at `created_at` (nanoseconds since the epoch).
    pub fn new(
        environment_type: EnvironmentType,
        cache_key: String,
        nix_store_paths: Vec<String>,
        environment_vars: EnvVars,
        created_at: i64,
    ) -> (r: CacheMetadata)
        ensures
            r.created_at == created_at,
            r.environment_type == environment_type,
            r.cache_key@ == cache_key@,
            r.nix_store_paths@ == nix_store_paths@,
            r.environment_vars@ == environment_vars@,
            r.environment_vars.wf() == environment_vars.wf(),
    {
        CacheMetadata {
            created_at,
            environment_type,
            cache_key,
            nix_store_paths,
            environment_vars,
        }
    }

    /// Whether the entry was stored under `current_cache_key`.
    pub fn is_valid(&self, current_cache_key: &str) -> (r: bool)
        ensures
            r == (self.cache_key@ == current_cache_key@),
    {
        crate::text::str_eq(self.cache_key.as_str(), current_cache_key)
    }
}

/// What to do with the entry found under a key.
#[derive(Debug)]
pub enum CacheVerdict {
    /// No metadata record exists under the key: nothing to use, nothing to delete.
    Missing,
    /// The entry is current: use it.
    Use(CacheMetadata),
    /// The entry is stale: delete its directory, then rebuild.
    Evict,
}

/// Whether every dependency location was found on disk.
pub open spec fn all_present(present: Seq<bool>) -> bool {
    forall|i: int| 0 <= i < present.len() ==> present[i]
}

/// What to do with the entry read under a key: keep it when its key equals
/// `current_key` and each of its dependency locations exists (`present`
/// says which do), else evict it.
pub fn judge_entry(stored: Option<CacheMetadata>, current_key: &str, present: &Vec<bool>) -> (r:
    CacheVerdict)
    requires
        stored matches Some(m) ==> present@.len() == m.nix_store_paths@.len(),
    ensures
        stored is None ==> r is Missing,
        stored matches Some(m) ==> (m.cache_key@ == current_key@ && all_present(present@) <==> r
            is Use),
        stored matches Some(m) ==> (r matches CacheVerdict::Use(e) ==> e == m),
        stored is Some ==> !(r is Missing),
{
    let ghost st = stored;
    match stored {
        None => CacheVerdict::Missing,
        Some(m) => {
            if !m.is_valid(current_key) {
                return CacheVerdict::Evict;
            }
            let mut i: usize = 0;
            while i < present.len()
                invariant
                    i <= present@.len(),
                    st == Some(m),
                    st == stored,
                    m.cache_key@ == current_key@,
                    present@.len() == m.nix_store_paths@.len(),
                    forall|j: int| 0 <= j < i ==> present@[j],
                decreases present.len() - i,
            {
                if !present[i] {
                    assert(!all_present(present@));
                    return CacheVerdict::Evict;
                }
                i = i + 1;
            }
            CacheVerdict::Use(m)
        },
    }
}

/// The age in nanoseconds of a window of `days` days.
pub open spec fn max_age_nanos(days: u64) -> int {
    days as int * NANOS_PER_DAY as int
}

/// Whether a record made at `created` is strictly older than `max_age_days` at `now`.
pub open spec fn is_stale(created: u128, now: u128, max_age_days: u64) -> bool {
    (created as int) < now as int - max_age_nanos(max_age_days)
}

/// Whether a record made at `created` (nanoseconds since the epoch) is strictly
/// older than `max_age_days` days at `now`.
pub fn older_than(created: u128, now: u128, max_age_days: u64) -> (r: bool)
    ensures
        r == is_stale(created, now, max_age_days),
{
    assert(max_age_days as int * NANOS_PER_DAY as int <= 0xffff_ffff_ffff_ffff * 86_400_000_000_000)
        by (nonlinear_arith);
    let age = (max_age_days as u128) * NANOS_PER_DAY;
    if age > now {
        false
    } else {
        created < now - age
    }
}

/// The cache at the directories of a configuration.
#[derive(Debug)]
pub struct EnvironmentCache {
    config: Config,
}

impl EnvironmentCache {
    /// The cache under `config.cache_dir`.
    pub fn new(config: Config) -> (r: EnvironmentCache)
        ensures
            r.cache_root() == config.cache_dir@,
    {
        EnvironmentCache { config }
    }

    /// The cache root.
    pub closed spec fn cache_root(&self) -> Seq<char> {
        self.config.cache_dir@
    }

    /// The cache root.
    pub fn cache_dir(&self) -> (r: &str)
        ensures
            r@ == self.cache_root(),
    {
        self.config.cache_dir.as_str()
    }

    /// The directory of the entry for `cache_key`.
    pub fn get_cache_dir(&self, cache_key: &str) -> (r: String)
        ensures
            r@ == path_join(self.cache_root(), cache_key@),
    {
        join_path(self.config.cache_dir.as_str(), cache_key)
    }

    /// The metadata record of the entry for `cache_key`.
    pub fn get_metadata_path(&self, cache_key: &str) -> (r: String)
        ensures
            r@ == path_join(path_join(self.cache_root(), cache_key@), "metadata.json"@),
    {
        let dir = self.get_cache_dir(cache_key);
        join_path(dir.as_str(), METADATA_FILE)
    }

    /// Of the directories under the cache root, each with the time of its
    /// metadata record (`None` where it has none), those that a sweep with
    /// retention `max_age_days` at `now` deletes, in the order given.
    pub fn stale_entries(&self, dirs: &Vec<(String, Option<u128>)>, now: u128, max_age_days: u64) -> (r:
        Vec<String>)
        ensures
            r@.map_values(|s: String| s@) == swept(dirs@, now, max_age_days),
    {
        let mut out: Vec<String> = Vec::new();
        let mut i: usize = 0;
        while i < dirs.len()
            invariant
                i <= dirs@.len(),
                out@.map_values(|s: String| s@) == swept(
                    dirs@.subrange(0, i as int),
                    now,
                    max_age_days,
                ),
            decreases dirs.len() - i,
        {
            let ghost pre = dirs@.subrange(0, i as int);
            assert(dirs@.subrange(0, i + 1) == pre.push(dirs@[i as int]));
            assert(dirs@.subrange(0, i + 1).drop_last() == pre);
            match dirs[i].1 {
                Some(t) => {
                    if older_than(t, now, max_age_days) {
                        out.push(dirs[i].0.clone());
                    }
                },
                None => {},
            }
            i = i + 1;
            assert(out@.map_values(|s: String| s@) =~= swept(
                dirs@.subrange(0, i as int),
                now,
                max_age_days,
            ));
        }
        assert(dirs@.subrange(0, dirs@.len() as int) == dirs@);
        out
    }
}

/// The directories that a sweep deletes: those with a metadata record strictly
/// older than the retention window, in order.
pub open spec fn swept(dirs: Seq<(String, Option<u128>)>, now: u128, max_age_days: u64) -> Seq<
    Seq<char>,
>
    decreases dirs.len(),
{
    if dirs.len() == 0 {
        seq![]
    } else {
        let rest = swept(dirs.drop_last(), now, max_age_days);
        match dirs.last().1 {
            Some(t) => if is_stale(t, now, max_age_days) {
                rest.push(dirs.last().0@)
            } else {
                rest
            },
            None => rest,
        }
    }
}

/// A sweep deletes a directory only where its metadata record is strictly
/// older than the retention window: each directory it deletes has such a record.
pub proof fn lemma_sweep_deletes_only_stale(
    dirs: Seq<(String, Option<u128>)>,
    now: u128,
    max_age_days: u64,
    p: Seq<char>,
)
    requires
        swept(dirs, now, max_age_days).contains(p),
    ensures
        exists|i: int|
            0 <= i < dirs.len() && #[trigger] dirs[i].0@ == p && (dirs[i].1 matches Some(t)
                && is_stale(t, now, max_age_days)),
    decreases dirs.len(),
{
    let rest = swept(dirs.drop_last(), now, max_age_days);
    if rest.contains(p) {
        lemma_sweep_deletes_only_stale(dirs.drop_last(), now, max_age_days, p);
        let i = choose|i: int|
            0 <= i < dirs.drop_last().len() && #[trigger] dirs.drop_last()[i].0@ == p && (
            dirs.drop_last()[i].1 matches Some(t) && is_stale(t, now, max_age_days));
        assert(dirs[i] == dirs.drop_last()[i]);
    } else {
        let i = dirs.len() - 1;
        assert(dirs[i].0@ == p);
    }
}

/// A sweep deletes every directory whose metadata record is strictly older
/// than the retention window.
pub proof fn lemma_sweep_deletes_all_stale(
    dirs: Seq<(String, Option<u128>)>,
    now: u128,
    max_age_days: u64,
    i: int,
)
    requires
        0 <= i < dirs.len(),
        dirs[i].1 matches Some(t) && is_stale(t, now, max_age_days),
    ensures
        swept(dirs, now, max_age_days).contains(dirs[i].0@),
    decreases dirs.len(),
{
    if i < dirs.len() - 1 {
        assert(dirs.drop_last()[i] == dirs[i]);
        lemma_sweep_deletes_all_stale(dirs.drop_last(), now, max_age_days, i);
        let rest = swept(dirs.drop_last(), now, max_age_days);
        let k = choose|k: int| 0 <= k < rest.len() && rest[k] == dirs[i].0@;
        let full = swept(dirs, now, max_age_days);
        assert(full == rest || full == rest.push(dirs.last().0@));
        assert(full[k] == rest[k]);
    } else {
        let full = swept(dirs, now, max_age_days);
        assert(full[full.len() - 1] == dirs[i].0@);
    }
}

/// Directory paths that occur once each, as a listing of one directory gives them.
pub open spec fn distinct_paths(dirs: Seq<(String, Option<u128>)>) -> bool {
    forall|j: int, k: int|
        0 <= j < dirs.len() && 0 <= k < dirs.len() && j != k ==> dirs[j].0@ != dirs[k].0@
}

/// Among distinct directory paths, a sweep keeps every directory whose record
/// lies at or within the retention window, and every directory without a record.
pub proof fn lemma_sweep_keeps_fresh(
    dirs: Seq<(String, Option<u128>)>,
    now: u128,
    max_age_days: u64,
    i: int,
)
    requires
        0 <= i < dirs.len(),
        distinct_paths(dirs),
        !(dirs[i].1 matches Some(t) && is_stale(t, now, max_age_days)),
    ensures
        !swept(dirs, now, max_age_days).contains(dirs[i].0@),
{
    if swept(dirs, now, max_age_days).contains(dirs[i].0@) {
        lemma_sweep_deletes_only_stale(dirs, now, max_age_days, dirs[i].0@);
        let j = choose|j: int|
            0 <= j < dirs.len() && #[trigger] dirs[j].0@ == dirs[i].0@ && (dirs[j].1 matches Some(
                t,
            ) && is_stale(t, now, max_age_days));
        assert(j == i);
    }
}

/// An entry stored under the key of one primary-file time is not current for
/// another time, where SHA-256 keeps the two hashed inputs apart: looked up
/// after the definition file changed, it is never used.
pub proof fn lemma_changed_definition_not_current(
    m: CacheMetadata,
    p1: u64,
    p2: u64,
    lock: Option<u64>,
)
    requires
        m.cache_key@ == cache_key_of(p1, lock),
        p1 != p2,
        sha256_of(key_material(p1, lock)) != sha256_of(key_material(p2, lock)),
    ensures
        m.cache_key@ != cache_key_of(p2, lock),
{
    lemma_cache_key_changes_with_primary_mtime(p1, p2, lock);
}

} // verus!
