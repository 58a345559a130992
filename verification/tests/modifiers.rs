use link_config::modifiers::parse_modifiers;
use link_config::state::{Favor, State, SystemDeps};

fn strings(v: &[&str]) -> Vec<String> {
    v.iter().map(|s| s.to_string()).collect()
}

#[test]
fn empty_list_gives_defaults() {
    let (cfg, unknown) = parse_modifiers(&Vec::new());
    assert!(matches!(cfg.dylib_state, Some(State::Dynamic)));
    assert!(matches!(cfg.static_state, Some(State::Static(SystemDeps::SystemDynamic))));
    assert!(matches!(cfg.favor, Favor::FavorDynamic));
    assert!(unknown.is_empty());
}

#[test]
fn only_static_disables_dynamic_and_favors_static() {
    let (cfg, unknown) = parse_modifiers(&strings(&["only_static"]));
    assert!(cfg.dylib_state.is_none());
    assert!(matches!(cfg.static_state, Some(State::Static(SystemDeps::SystemDynamic))));
    assert!(matches!(cfg.favor, Favor::FavorStatic));
    assert!(unknown.is_empty());
}

#[test]
fn only_dylib_disables_static_and_favors_dynamic() {
    let (cfg, unknown) = parse_modifiers(&strings(&["only_dylib"]));
    assert!(matches!(cfg.dylib_state, Some(State::Dynamic)));
    assert!(cfg.static_state.is_none());
    assert!(matches!(cfg.favor, Favor::FavorDynamic));
    assert!(unknown.is_empty());
}

#[test]
fn system_static_allows_system_archives() {
    let (cfg, _) = parse_modifiers(&strings(&["system_static"]));
    assert!(matches!(cfg.dylib_state, Some(State::Dynamic)));
    assert!(matches!(cfg.static_state, Some(State::Static(SystemDeps::SystemStatic))));
    assert!(matches!(cfg.favor, Favor::FavorDynamic));
}

#[test]
fn favor_static_changes_only_the_favor() {
    let (cfg, _) = parse_modifiers(&strings(&["favor_static"]));
    assert!(matches!(cfg.dylib_state, Some(State::Dynamic)));
    assert!(matches!(cfg.static_state, Some(State::Static(SystemDeps::SystemDynamic))));
    assert!(matches!(cfg.favor, Favor::FavorStatic));
}

#[test]
fn unknown_modifier_is_reported_and_skipped() {
    let (cfg, unknown) = parse_modifiers(&strings(&["bogus", "favor_static"]));
    assert_eq!(unknown, vec!["bogus".to_string()]);
    assert!(matches!(cfg.favor, Favor::FavorStatic));
    assert!(matches!(cfg.dylib_state, Some(State::Dynamic)));
    assert!(matches!(cfg.static_state, Some(State::Static(SystemDeps::SystemDynamic))));
}

#[test]
fn later_modifiers_override_earlier_ones() {
    let (cfg, unknown) = parse_modifiers(&strings(&["only_dylib", "system_static"]));
    assert!(unknown.is_empty());
    // system_static re-enables the static flavor after only_dylib switched it off
    assert!(matches!(cfg.static_state, Some(State::Static(SystemDeps::SystemStatic))));
    assert!(matches!(cfg.favor, Favor::FavorDynamic));
}

#[test]
fn both_only_modifiers_disable_both_queries() {
    let (cfg, _) = parse_modifiers(&strings(&["only_static", "only_dylib"]));
    assert!(cfg.dylib_state.is_none());
    assert!(cfg.static_state.is_none());
}
