use link_config::directives::{assemble_directives, build_block, Directive};
use link_config::resolver::resolve_lib_info;
use link_config::state::{Favor, LibInfo, QueryError, State, SystemDeps};

fn strings(v: &[&str]) -> Vec<String> {
    v.iter().map(|s| s.to_string()).collect()
}

fn dynamic_info() -> LibInfo {
    resolve_lib_info("foo", State::Dynamic, &strings(&["a"]), strings(&["/d"]), &Vec::new(), &Vec::new())
}

fn static_info() -> LibInfo {
    resolve_lib_info(
        "foo",
        State::Static(SystemDeps::SystemDynamic),
        &strings(&["a"]),
        strings(&["/s"]),
        &Vec::new(),
        &strings(&["/s/liba.a"]),
    )
}

#[test]
fn favored_dynamic_gates_on_the_static_flag() {
    let bd = build_block(&dynamic_info(), Favor::FavorDynamic);
    let bs = build_block(&static_info(), Favor::FavorDynamic);
    assert_eq!(bd.cfg.key, "statik".to_string());
    assert_eq!(bs.cfg.key, "statik".to_string());
    assert_eq!(bd.cfg.pkg, "foo".to_string());
    assert!(bd.cfg.negated);
    assert!(!bs.cfg.negated);
}

#[test]
fn favored_static_gates_on_the_dynamic_flag() {
    let bd = build_block(&dynamic_info(), Favor::FavorStatic);
    let bs = build_block(&static_info(), Favor::FavorStatic);
    assert_eq!(bd.cfg.key, "dylib".to_string());
    assert_eq!(bs.cfg.key, "dylib".to_string());
    assert!(!bd.cfg.negated);
    assert!(bs.cfg.negated);
}

#[test]
fn exactly_one_block_is_active_for_any_flag_value() {
    for favor in [Favor::FavorDynamic, Favor::FavorStatic] {
        let bd = build_block(&dynamic_info(), favor);
        let bs = build_block(&static_info(), favor);
        for flag in [false, true] {
            assert_ne!(bd.cfg.active(flag), bs.cfg.active(flag));
        }
    }
}

#[test]
fn block_lists_links_then_search_directories() {
    let b = build_block(&static_info(), Favor::FavorDynamic);
    assert_eq!(b.directives.len(), 2);
    match &b.directives[0] {
        Directive::Link { name, statik } => {
            assert_eq!(name, &"a".to_string());
            assert!(*statik);
        }
        Directive::SearchDir { .. } => panic!("the dependency must come first"),
    }
    match &b.directives[1] {
        Directive::SearchDir { path } => assert_eq!(path, &"/s".to_string()),
        Directive::Link { .. } => panic!("the search directory must come last"),
    }
}

#[test]
fn both_flavors_give_two_blocks() {
    let blocks =
        assemble_directives(Some(Ok(dynamic_info())), Some(Ok(static_info())), Favor::FavorDynamic)
            .unwrap();
    assert_eq!(blocks.len(), 2);
    assert!(blocks[0].cfg.negated);
    assert!(!blocks[1].cfg.negated);
}

#[test]
fn one_flavor_gives_one_block() {
    let blocks = assemble_directives(None, Some(Ok(static_info())), Favor::FavorStatic).unwrap();
    assert_eq!(blocks.len(), 1);
    assert!(blocks[0].cfg.negated);
}

#[test]
fn a_failed_flavor_fails_the_whole_resolution() {
    let err = QueryError::ToolExit {
        status: 1,
        stdout: String::new(),
        stderr: "boom".to_string(),
    };
    match assemble_directives(Some(Ok(dynamic_info())), Some(Err(err)), Favor::FavorDynamic) {
        Ok(_) => panic!("a failed query must not yield directives"),
        Err(QueryError::ToolExit { status, stderr, .. }) => {
            assert_eq!(status, 1);
            assert_eq!(stderr, "boom".to_string());
        }
        Err(QueryError::ToolLaunch { .. }) => panic!("wrong error kind"),
    }
}

#[test]
fn a_launch_failure_is_reported_as_such() {
    let err = QueryError::ToolLaunch { message: "not installed".to_string() };
    match assemble_directives(Some(Err(err)), Some(Ok(static_info())), Favor::FavorDynamic) {
        Ok(_) => panic!("a failed query must not yield directives"),
        Err(QueryError::ToolLaunch { message }) => {
            assert_eq!(message, "not installed".to_string());
        }
        Err(QueryError::ToolExit { .. }) => panic!("wrong error kind"),
    }
}
