use vstd::prelude::*;
use crate::strutil::{contains_str, contains_substring, seq_views, spec_contains_substr};

verus! {

/// The metadata tool's search-path environment, modelled as the list of
/// directories the variable holds, together with a flag recording whether the
/// one-time augmentation has already run in this process.
pub struct SearchPathEnv {
    /// True once the build tool's directories have been folded in.
    pub augmented: bool,
    /// The directories the search-path variable holds, in order.
    pub paths: Vec<String>,
}

/// `paths` extended by each directory of `dirs` in order, skipping any that
/// is already present.
pub open spec fn add_unique(paths: Seq<Seq<char>>, dirs: Seq<Seq<char>>) -> Seq<Seq<char>>
    decreases dirs.len(),
{
    if dirs.len() == 0 {
        paths
    } else {
        let prev = add_unique(paths, dirs.drop_last());
        if prev.contains(dirs.last()) {
            prev
        } else {
            prev.push(dirs.last())
        }
    }
}

/// The one-time augmentation as a pure transition: a first call folds the
/// directories in and marks the environment; any later call changes nothing.
pub open spec fn spec_augment(
    augmented: bool,
    paths: Seq<Seq<char>>,
    dirs: Seq<Seq<char>>,
) -> (bool, Seq<Seq<char>>) {
    if augmented {
        (true, paths)
    } else {
        (true, add_unique(paths, dirs))
    }
}

/// Folds the build tool's native directories into the search-path
/// environment, once: a second call in the same process leaves the
/// environment exactly as it was.
pub fn augment_search_paths(env: &mut SearchPathEnv, dirs: &Vec<String>)
    ensures
        final(env).augmented == spec_augment(
            old(env).augmented,
            seq_views(old(env).paths@),
            seq_views(dirs@),
        ).0,
        seq_views(final(env).paths@) == spec_augment(
            old(env).augmented,
            seq_views(old(env).paths@),
            seq_views(dirs@),
        ).1,
{
    if env.augmented {
        return ;
    }
    let mut i: usize = 0;
    while i < dirs.len()
        invariant
            i <= dirs@.len(),
            seq_views(env.paths@) == add_unique(
                seq_views(old(env).paths@),
                seq_views(dirs@).take(i as int),
            ),
        decreases dirs@.len() - i,
    {
        if !contains_str(&env.paths, dirs[i].as_str()) {
            env.paths.push(dirs[i].clone());
        }
        proof {
            let all = seq_views(dirs@);
            assert(all.take(i + 1).drop_last() =~= all.take(i as int));
            assert(all.take(i + 1).last() == dirs@[i as int]@);
            assert(seq_views(env.paths@) =~= add_unique(
                seq_views(old(env).paths@),
                all.take(i + 1),
            ));
        }
        i += 1;
    }
    proof {
        assert(seq_views(dirs@).take(dirs@.len() as int) =~= seq_views(dirs@));
    }
    env.augmented = true;
}

/// Law: running the one-time augmentation twice with the same directories
/// leaves the same final environment as running it once.
pub proof fn lemma_augment_idempotent(
    augmented: bool,
    paths: Seq<Seq<char>>,
    dirs: Seq<Seq<char>>,
)
    ensures
        spec_augment(
            spec_augment(augmented, paths, dirs).0,
            spec_augment(augmented, paths, dirs).1,
            dirs,
        ) == spec_augment(augmented, paths, dirs),
{
}

/// The directories of `dirs` whose path mentions the build tool's staging
/// area for native artifacts, in order.
pub open spec fn native_dirs(dirs: Seq<Seq<char>>) -> Seq<Seq<char>>
    decreases dirs.len(),
{
    if dirs.len() == 0 {
        Seq::<Seq<char>>::empty()
    } else {
        let prev = native_dirs(dirs.drop_last());
        if spec_contains_substr(dirs.last(), "native"@) {
            prev.push(dirs.last())
        } else {
            prev
        }
    }
}

/// Keeps the library search directories that point into the build tool's
/// staging area for native artifacts: those whose path contains `native`.
pub fn filter_native_dirs(dirs: &Vec<String>) -> (r: Vec<String>)
    ensures
        seq_views(r@) == native_dirs(seq_views(dirs@)),
{
    let mut r: Vec<String> = Vec::new();
    let mut i: usize = 0;
    while i < dirs.len()
        invariant
            i <= dirs@.len(),
            seq_views(r@) == native_dirs(seq_views(dirs@).take(i as int)),
        decreases dirs@.len() - i,
    {
        if contains_substring(dirs[i].as_str(), "native") {
            r.push(dirs[i].clone());
        }
        proof {
            let all = seq_views(dirs@);
            assert(all.take(i + 1).drop_last() =~= all.take(i as int));
            assert(all.take(i + 1).last() == dirs@[i as int]@);
            assert(seq_views(r@) =~= native_dirs(all.take(i + 1)));
        }
        i += 1;
    }
    proof {
        assert(seq_views(dirs@).take(dirs@.len() as int) =~= seq_views(dirs@));
    }
    r
}

} // verus!
