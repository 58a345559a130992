use vstd::prelude::*;
use vstd::string::StringExecFns;
use crate::state::{Favor, LibInfo, QueryError, State};

verus! {

/// The configuration predicate gating one directive block: the build-time
/// flag `<key> = "<pkg>"`, taken positively or negated.
pub struct CfgPredicate {
    /// The flag's name: the flavor opposite the favored one.
    pub key: String,
    /// The package the flag is named after.
    pub pkg: String,
    /// True when the block takes effect while the flag is not set.
    pub negated: bool,
}

/// One linkage sub-directive inside a block.
pub enum Directive {
    /// Link the named library, statically when `statik` holds.
    Link {
        /// The library name.
        name: String,
        /// True for a static-link kind.
        statik: bool,
    },
    /// Search this extra directory for libraries.
    SearchDir {
        /// The directory path.
        path: String,
    },
}

/// A set of linkage directives gated by one configuration predicate.
pub struct DirectiveBlock {
    /// The predicate that must hold for the block to take effect.
    pub cfg: CfgPredicate,
    /// The block's sub-directives: one link per dependency, in dependency
    /// order, then one search directory per reported location, in order.
    pub directives: Vec<Directive>,
}

/// The flag name both blocks are gated on: the flavor that is not favored,
/// so that setting the flag switches away from the favored flavor.
pub open spec fn favored_key(favor: Favor) -> Seq<char> {
    match favor {
        Favor::FavorDynamic => "statik"@,
        Favor::FavorStatic => "dylib"@,
    }
}

/// Whether the block for `state` is the negated (fallback) one under `favor`:
/// the block of the favored flavor is gated on the flag's absence.
pub open spec fn cfg_negated(state: State, favor: Favor) -> bool {
    match (state, favor) {
        (State::Static(_), Favor::FavorDynamic) => false,
        (State::Dynamic, Favor::FavorStatic) => false,
        (State::Dynamic, Favor::FavorDynamic) => true,
        (State::Static(_), Favor::FavorStatic) => true,
    }
}

/// Does the predicate hold when the build sets its flag to `flag_set`?
pub open spec fn cfg_active(p: CfgPredicate, flag_set: bool) -> bool {
    if p.negated {
        !flag_set
    } else {
        flag_set
    }
}

/// Does `d` carry the dependency `dep`: the same name and link kind?
pub open spec fn link_directive_matches(d: Directive, name: Seq<char>, statik: bool) -> bool {
    match d {
        Directive::Link { name: n, statik: s } => n@ == name && s == statik,
        Directive::SearchDir { .. } => false,
    }
}

/// Does `d` carry the search directory `path`?
pub open spec fn loc_directive_matches(d: Directive, path: Seq<char>) -> bool {
    match d {
        Directive::SearchDir { path: p } => p@ == path,
        Directive::Link { .. } => false,
    }
}

/// Is `b` the directive block for `info` under `favor`: gated on the right
/// flag with the right polarity, one link per dependency in order, then one
/// search-directory directive per location in order.
pub open spec fn block_matches(b: DirectiveBlock, info: LibInfo, favor: Favor) -> bool {
    &&& b.cfg.key@ == favored_key(favor)
    &&& b.cfg.pkg@ == info.lib@
    &&& b.cfg.negated == cfg_negated(info.state, favor)
    &&& b.directives@.len() == info.deps@.len() + info.locs@.len()
    &&& forall|i: int|
        0 <= i < info.deps@.len() ==> link_directive_matches(
            #[trigger] b.directives@[i],
            info.deps@[i].name@,
            info.deps@[i].statik,
        )
    &&& forall|i: int|
        0 <= i < info.locs@.len() ==> loc_directive_matches(
            #[trigger] b.directives@[info.deps@.len() + i],
            info.locs@[i]@,
        )
}

impl CfgPredicate {
    /// Evaluates the predicate against a build configuration in which the
    /// block's flag is set exactly when `flag_set` holds.
    pub fn active(&self, flag_set: bool) -> (r: bool)
        ensures
            r == cfg_active(*self, flag_set),
    {
        if self.negated {
            !flag_set
        } else {
            flag_set
        }
    }
}

/// Builds the directive block for one flavor's resolved description.
pub fn build_block(info: &LibInfo, favor: Favor) -> (b: DirectiveBlock)
    ensures
        block_matches(b, *info, favor),
{
    let key = match favor {
        Favor::FavorDynamic => String::from_str("statik"),
        Favor::FavorStatic => String::from_str("dylib"),
    };
    let negated = match (info.state, favor) {
        (State::Static(_), Favor::FavorDynamic) => false,
        (State::Dynamic, Favor::FavorStatic) => false,
        (State::Dynamic, Favor::FavorDynamic) => true,
        (State::Static(_), Favor::FavorStatic) => true,
    };
    let mut ds: Vec<Directive> = Vec::new();
    let mut i: usize = 0;
    while i < info.deps.len()
        invariant
            i <= info.deps@.len(),
            ds@.len() == i,
            forall|k: int|
                0 <= k < i ==> link_directive_matches(
                    #[trigger] ds@[k],
                    info.deps@[k].name@,
                    info.deps@[k].statik,
                ),
        decreases info.deps@.len() - i,
    {
        ds.push(Directive::Link { name: info.deps[i].name.clone(), statik: info.deps[i].statik });
        i += 1;
    }
    let mut j: usize = 0;
    while j < info.locs.len()
        invariant
            j <= info.locs@.len(),
            ds@.len() == info.deps@.len() + j,
            forall|k: int|
                0 <= k < info.deps@.len() ==> link_directive_matches(
                    #[trigger] ds@[k],
                    info.deps@[k].name@,
                    info.deps@[k].statik,
                ),
            forall|k: int|
                0 <= k < j ==> loc_directive_matches(
                    #[trigger] ds@[info.deps@.len() + k],
                    info.locs@[k]@,
                ),
        decreases info.locs@.len() - j,
    {
        ds.push(Directive::SearchDir { path: info.locs[j].clone() });
        j += 1;
    }
    DirectiveBlock { cfg: CfgPredicate { key, pkg: info.lib.clone(), negated }, directives: ds }
}

/// Assembles the final resolution result. At least one flavor must have been
/// requested. A failed query for either requested flavor fails the whole
/// resolution and no directives are emitted; otherwise one block is built per
/// present flavor, the dynamic one first.
pub fn assemble_directives(
    dyn_result: Option<Result<LibInfo, QueryError>>,
    static_result: Option<Result<LibInfo, QueryError>>,
    favor: Favor,
) -> (r: Result<Vec<DirectiveBlock>, QueryError>)
    requires
        dyn_result is Some || static_result is Some,
    ensures
        dyn_result matches Some(Err(e)) ==> r == Err::<Vec<DirectiveBlock>, QueryError>(e),
        !(dyn_result matches Some(Err(_))) ==> (static_result matches Some(Err(e)) ==> r == Err::<
            Vec<DirectiveBlock>,
            QueryError,
        >(e)),
        !(dyn_result matches Some(Err(_))) && !(static_result matches Some(Err(_))) ==> r is Ok,
        r is Ok ==> {
            let blocks = r->Ok_0@;
            &&& blocks.len() == (if dyn_result is Some { 1int } else { 0int }) + (
            if static_result is Some { 1int } else { 0int })
            &&& (dyn_result matches Some(info) ==> info is Ok && block_matches(
                blocks[0],
                info->Ok_0,
                favor,
            ))
            &&& (static_result matches Some(info) ==> info is Ok && block_matches(
                blocks[blocks.len() - 1],
                info->Ok_0,
                favor,
            ))
        },
{
    let mut blocks: Vec<DirectiveBlock> = Vec::new();
    let dyn_info = match dyn_result {
        None => None,
        Some(Ok(info)) => Some(info),
        Some(Err(e)) => {
            return Err(e);
        },
    };
    let static_info = match static_result {
        None => None,
        Some(Ok(info)) => Some(info),
        Some(Err(e)) => {
            return Err(e);
        },
    };
    if let Some(info) = &dyn_info {
        blocks.push(build_block(info, favor));
    }
    if let Some(info) = &static_info {
        blocks.push(build_block(info, favor));
    }
    Ok(blocks)
}

/// Law: for a dynamic-flavor block and a static-flavor block generated under
/// one favor, and any value of the shared build-time flag, exactly one of the
/// two configuration predicates holds.
pub proof fn lemma_blocks_mutually_exclusive(
    dyn_block: DirectiveBlock,
    static_block: DirectiveBlock,
    dyn_info: LibInfo,
    static_info: LibInfo,
    favor: Favor,
    flag_set: bool,
)
    requires
        dyn_info.state is Dynamic,
        static_info.state is Static,
        block_matches(dyn_block, dyn_info, favor),
        block_matches(static_block, static_info, favor),
    ensures
        cfg_active(dyn_block.cfg, flag_set) != cfg_active(static_block.cfg, flag_set),
{
}

} // verus!
