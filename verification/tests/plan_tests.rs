use cdylib_shim::config::{Config, HookDecl};
use cdylib_shim::plan::{shim, BuildError, Mechanism};

fn names(list: &[&[u8]]) -> Vec<Vec<u8>> {
    list.iter().map(|n| n.to_vec()).collect()
}

fn config_with_hooks(hook_list: &[&[u8]]) -> Config {
    let mut cfg = Config::empty();
    cfg.library = Some(b"version.dll".to_vec());
    cfg.hooks = Some(hook_list.iter().map(|n| HookDecl { name: n.to_vec() }).collect());
    cfg
}

#[test]
fn hooked_export_gets_hook_others_get_trampolines() {
    // target exports {Foo, Bar, Baz}; a hook is declared only for Bar
    let exports = names(&[b"Foo", b"Bar", b"Baz"]);
    let cfg = config_with_hooks(&[b"Bar"]);
    let plan = shim(&cfg, &exports).unwrap();
    assert_eq!(plan.library, b"version.dll".to_vec());
    assert_eq!(plan.exports, exports);
    assert_eq!(
        plan.mechanisms,
        vec![Mechanism::Trampoline, Mechanism::Hook(0), Mechanism::Trampoline]
    );
    assert_eq!(plan.hooks.len(), 1);
    assert_eq!(plan.hooks[0].name, b"Bar".to_vec());
}

#[test]
fn hook_for_absent_name_fails_naming_it() {
    // Qux is not among {Foo, Bar, Baz}: construction must fail, never
    // silently produce a dead export
    let exports = names(&[b"Foo", b"Bar", b"Baz"]);
    let cfg = config_with_hooks(&[b"Qux"]);
    assert_eq!(shim(&cfg, &exports), Err(BuildError::HookNotExported(b"Qux".to_vec())));
}

#[test]
fn two_hooks_for_one_export_fail() {
    let exports = names(&[b"Foo", b"Bar"]);
    let cfg = config_with_hooks(&[b"Bar", b"Bar"]);
    assert_eq!(shim(&cfg, &exports), Err(BuildError::DuplicateHook(b"Bar".to_vec())));
}

#[test]
fn missing_library_fails() {
    let exports = names(&[b"Foo"]);
    let cfg = Config::empty();
    assert_eq!(shim(&cfg, &exports), Err(BuildError::NoLibrary));
}

#[test]
fn every_export_is_covered_without_a_filter() {
    let exports = names(&[b"A", b"B", b"C", b"D"]);
    let cfg = config_with_hooks(&[b"C"]);
    let plan = shim(&cfg, &exports).unwrap();
    assert_eq!(plan.mechanisms.len(), exports.len());
    for m in &plan.mechanisms {
        assert_ne!(*m, Mechanism::Omitted);
    }
}

#[test]
fn filtered_out_export_keeps_its_slot_but_no_entry_point() {
    let exports = names(&[b"Foo", b"Bar", b"Baz"]);
    let mut cfg = config_with_hooks(&[]);
    cfg.included = Some(names(&[b"Foo", b"Baz"]));
    let plan = shim(&cfg, &exports).unwrap();
    assert_eq!(
        plan.mechanisms,
        vec![Mechanism::Trampoline, Mechanism::Omitted, Mechanism::Trampoline]
    );
    // the slot table is still sized for every export
    assert_eq!(plan.exports.len(), 3);
}

#[test]
fn exclude_filter_drops_named_exports() {
    let exports = names(&[b"Foo", b"Bar"]);
    let mut cfg = config_with_hooks(&[]);
    cfg.excluded = Some(names(&[b"Foo"]));
    let plan = shim(&cfg, &exports).unwrap();
    assert_eq!(plan.mechanisms, vec![Mechanism::Omitted, Mechanism::Trampoline]);
}

#[test]
fn hook_wins_over_filter() {
    let exports = names(&[b"Foo", b"Bar"]);
    let mut cfg = config_with_hooks(&[b"Bar"]);
    cfg.included = Some(names(&[b"Foo"]));
    let plan = shim(&cfg, &exports).unwrap();
    assert_eq!(plan.mechanisms, vec![Mechanism::Trampoline, Mechanism::Hook(0)]);
}

#[test]
fn first_hook_error_is_reported() {
    let exports = names(&[b"Foo"]);
    let cfg = config_with_hooks(&[b"Foo", b"Qux", b"Foo"]);
    assert_eq!(shim(&cfg, &exports), Err(BuildError::HookNotExported(b"Qux".to_vec())));
}

#[test]
fn load_and_unload_carry_over() {
    let exports = names(&[b"Foo"]);
    let mut cfg = config_with_hooks(&[]);
    cfg.load = Some(b"on_load".to_vec());
    cfg.unload = Some(b"on_unload".to_vec());
    let plan = shim(&cfg, &exports).unwrap();
    assert_eq!(plan.load, Some(b"on_load".to_vec()));
    assert_eq!(plan.unload, Some(b"on_unload".to_vec()));
}
