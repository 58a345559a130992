use vstd::prelude::*;
use crate::state::{Favor, State, SystemDeps};
use crate::strutil::{seq_views, str_eq};

verus! {

broadcast use vstd::string::group_string_axioms;

/// The outcome of modifier parsing: which flavors to query, each with its
/// resolution state, and which directive block to favor.
#[derive(Clone, Copy)]
pub struct ModifierConfig {
    /// `Some` when a dynamic-flavor query should be issued.
    pub dylib_state: Option<State>,
    /// `Some` when a static-flavor query should be issued.
    pub static_state: Option<State>,
    /// Which flavor's block is the unconditionally active one.
    pub favor: Favor,
}

/// The configuration in force when no modifiers are given.
pub open spec fn default_config() -> ModifierConfig {
    ModifierConfig {
        dylib_state: Some(State::Dynamic),
        static_state: Some(State::Static(SystemDeps::SystemDynamic)),
        favor: Favor::FavorDynamic,
    }
}

/// Is `m` one of the fixed modifier vocabulary?
pub open spec fn is_known_modifier(m: Seq<char>) -> bool {
    ||| m == "only_static"@
    ||| m == "only_dylib"@
    ||| m == "system_static"@
    ||| m == "favor_static"@
}

/// How a single modifier changes the running configuration. An unknown
/// modifier leaves it unchanged.
pub open spec fn apply_modifier(c: ModifierConfig, m: Seq<char>) -> ModifierConfig {
    if m == "only_static"@ {
        ModifierConfig { dylib_state: None, static_state: c.static_state, favor: Favor::FavorStatic }
    } else if m == "only_dylib"@ {
        ModifierConfig { dylib_state: c.dylib_state, static_state: None, favor: Favor::FavorDynamic }
    } else if m == "system_static"@ {
        ModifierConfig {
            dylib_state: c.dylib_state,
            static_state: Some(State::Static(SystemDeps::SystemStatic)),
            favor: c.favor,
        }
    } else if m == "favor_static"@ {
        ModifierConfig { dylib_state: c.dylib_state, static_state: c.static_state, favor: Favor::FavorStatic }
    } else {
        c
    }
}

/// The configuration after folding a whole modifier list over the defaults.
pub open spec fn config_after(mods: Seq<Seq<char>>) -> ModifierConfig
    decreases mods.len(),
{
    if mods.len() == 0 {
        default_config()
    } else {
        apply_modifier(config_after(mods.drop_last()), mods.last())
    }
}

/// The modifiers outside the fixed vocabulary, in list order.
pub open spec fn unknown_modifiers(mods: Seq<Seq<char>>) -> Seq<Seq<char>>
    decreases mods.len(),
{
    if mods.len() == 0 {
        Seq::<Seq<char>>::empty()
    } else {
        let prev = unknown_modifiers(mods.drop_last());
        if is_known_modifier(mods.last()) {
            prev
        } else {
            prev.push(mods.last())
        }
    }
}

/// Parses a modifier list. Returns the resulting configuration together with
/// the unrecognized modifiers, which are reported to the caller but do not
/// stop the remaining modifiers from taking effect.
pub fn parse_modifiers(mods: &Vec<String>) -> (r: (ModifierConfig, Vec<String>))
    ensures
        r.0 == config_after(seq_views(mods@)),
        seq_views(r.1@) == unknown_modifiers(seq_views(mods@)),
{
    let mut cfg = ModifierConfig {
        dylib_state: Some(State::Dynamic),
        static_state: Some(State::Static(SystemDeps::SystemDynamic)),
        favor: Favor::FavorDynamic,
    };
    let mut unknown: Vec<String> = Vec::new();
    let mut i: usize = 0;
    while i < mods.len()
        invariant
            i <= mods@.len(),
            cfg == config_after(seq_views(mods@).take(i as int)),
            seq_views(unknown@) == unknown_modifiers(seq_views(mods@).take(i as int)),
        decreases mods@.len() - i,
    {
        let m = mods[i].as_str();
        if str_eq(m, "only_static") {
            cfg.dylib_state = None;
            cfg.favor = Favor::FavorStatic;
        } else if str_eq(m, "only_dylib") {
            cfg.static_state = None;
            cfg.favor = Favor::FavorDynamic;
        } else if str_eq(m, "system_static") {
            cfg.static_state = Some(State::Static(SystemDeps::SystemStatic));
        } else if str_eq(m, "favor_static") {
            cfg.favor = Favor::FavorStatic;
        } else {
            unknown.push(mods[i].clone());
        }
        proof {
            let all = seq_views(mods@);
            assert(all.take(i + 1).drop_last() =~= all.take(i as int));
            assert(all.take(i + 1).last() == mods@[i as int]@);
            assert(seq_views(unknown@) =~= unknown_modifiers(all.take(i + 1)));
        }
        i += 1;
    }
    proof {
        assert(seq_views(mods@).take(mods@.len() as int) =~= seq_views(mods@));
    }
    (cfg, unknown)
}

/// A sequence contains an element exactly when the shorter sequence without
/// its last element contains it or the last element is the one sought.
proof fn lemma_contains_split(s: Seq<Seq<char>>, x: Seq<char>)
    requires
        s.len() > 0,
    ensures
        s.contains(x) <==> (s.drop_last().contains(x) || s.last() == x),
{
    if s.contains(x) {
        let i = choose|i: int| 0 <= i < s.len() && s[i] == x;
        if i < s.len() - 1 {
            assert(s.drop_last()[i] == x);
        }
    }
    if s.drop_last().contains(x) {
        let i = choose|i: int| 0 <= i < s.drop_last().len() && s.drop_last()[i] == x;
        assert(s[i] == x);
    }
}

/// Law: a modifier list that restricts resolution to static disables the
/// dynamic-flavor query, whatever else the list holds.
pub proof fn lemma_only_static_disables_dynamic(mods: Seq<Seq<char>>)
    requires
        mods.contains("only_static"@),
    ensures
        config_after(mods).dylib_state is None,
    decreases mods.len(),
{
    lemma_contains_split(mods, "only_static"@);
    if mods.last() != "only_static"@ {
        lemma_only_static_disables_dynamic(mods.drop_last());
    }
}

/// The four modifier words are pairwise distinct.
proof fn lemma_vocabulary_distinct()
    ensures
        "only_static"@ != "only_dylib"@,
        "only_static"@ != "system_static"@,
        "only_static"@ != "favor_static"@,
        "only_dylib"@ != "system_static"@,
        "only_dylib"@ != "favor_static"@,
        "system_static"@ != "favor_static"@,
{
    reveal_strlit("only_static");
    reveal_strlit("only_dylib");
    reveal_strlit("system_static");
    reveal_strlit("favor_static");
    assert("only_static"@.len() == 11);
    assert("only_dylib"@.len() == 10);
    assert("system_static"@.len() == 13);
    assert("favor_static"@.len() == 12);
}

/// Law: a modifier list whose last restriction between `only_dylib` and
/// `system_static` is `only_dylib` disables the static-flavor query. (A
/// `system_static` after an `only_dylib` re-enables it, so the law holds
/// only of lists with no later `system_static`.)
pub proof fn lemma_only_dylib_disables_static(mods: Seq<Seq<char>>, i: int)
    requires
        0 <= i < mods.len(),
        mods[i] == "only_dylib"@,
        forall|j: int| i < j < mods.len() ==> mods[j] != "system_static"@,
    ensures
        config_after(mods).static_state is None,
    decreases mods.len(),
{
    lemma_vocabulary_distinct();
    if i == mods.len() - 1 {
        assert(mods.last() == "only_dylib"@);
    } else {
        assert(mods.drop_last()[i] == mods[i]);
        assert(forall|j: int| i < j < mods.drop_last().len() ==> mods.drop_last()[j] == mods[j]);
        lemma_only_dylib_disables_static(mods.drop_last(), i);
        assert(mods.last() != "system_static"@);
    }
}

/// Law: without `only_static` or `only_dylib`, both flavors are queried, the
/// static system-directory policy is decided by `system_static` alone, and
/// the favored flavor is decided by `favor_static` alone.
pub proof fn lemma_config_without_only(mods: Seq<Seq<char>>)
    requires
        !mods.contains("only_static"@),
        !mods.contains("only_dylib"@),
    ensures
        config_after(mods).dylib_state == Some(State::Dynamic),
        mods.contains("system_static"@) ==> config_after(mods).static_state == Some(
            State::Static(SystemDeps::SystemStatic),
        ),
        !mods.contains("system_static"@) ==> config_after(mods).static_state == Some(
            State::Static(SystemDeps::SystemDynamic),
        ),
        mods.contains("favor_static"@) ==> config_after(mods).favor == Favor::FavorStatic,
        !mods.contains("favor_static"@) ==> config_after(mods).favor == Favor::FavorDynamic,
    decreases mods.len(),
{
    lemma_vocabulary_distinct();
    if mods.len() > 0 {
        let prev = mods.drop_last();
        lemma_contains_split(mods, "only_static"@);
        lemma_contains_split(mods, "only_dylib"@);
        lemma_contains_split(mods, "system_static"@);
        lemma_contains_split(mods, "favor_static"@);
        lemma_config_without_only(prev);
    }
}



} // verus!
