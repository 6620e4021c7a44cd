use cdylib_shim::config::{
    Config, ConfigError, ConfigField, ConfigValue, HookDecl,
};

fn field(key: &[u8], value: ConfigValue) -> ConfigField {
    ConfigField { key: key.to_vec(), value }
}

#[test]
fn folds_all_known_fields() {
    let fields = vec![
        field(b"library", ConfigValue::Text(b"version.dll".to_vec())),
        field(b"include", ConfigValue::NameList(vec![b"Foo".to_vec()])),
        field(b"exclude", ConfigValue::NameList(vec![b"Bar".to_vec()])),
        field(b"load", ConfigValue::Callback(b"on_load".to_vec())),
        field(b"unload", ConfigValue::Callback(b"on_unload".to_vec())),
        field(
            b"functions",
            ConfigValue::HookList(vec![HookDecl { name: b"Foo".to_vec() }]),
        ),
    ];
    let cfg = Config::from_fields(&fields).unwrap();
    assert_eq!(cfg.library, Some(b"version.dll".to_vec()));
    assert_eq!(cfg.included, Some(vec![b"Foo".to_vec()]));
    assert_eq!(cfg.excluded, Some(vec![b"Bar".to_vec()]));
    assert_eq!(cfg.load, Some(b"on_load".to_vec()));
    assert_eq!(cfg.unload, Some(b"on_unload".to_vec()));
    assert_eq!(cfg.hooks, Some(vec![HookDecl { name: b"Foo".to_vec() }]));
}

#[test]
fn empty_field_list_gives_empty_config() {
    let cfg = Config::from_fields(&Vec::new()).unwrap();
    assert_eq!(cfg, Config::empty());
}

#[test]
fn later_field_overrides_earlier() {
    let fields = vec![
        field(b"library", ConfigValue::Text(b"first.dll".to_vec())),
        field(b"library", ConfigValue::Text(b"second.dll".to_vec())),
    ];
    let cfg = Config::from_fields(&fields).unwrap();
    assert_eq!(cfg.library, Some(b"second.dll".to_vec()));
}

#[test]
fn unknown_field_fails_naming_it() {
    let fields = vec![field(b"bogus", ConfigValue::Text(b"x".to_vec()))];
    assert_eq!(
        Config::from_fields(&fields),
        Err(ConfigError::UnknownField(b"bogus".to_vec()))
    );
}

#[test]
fn library_must_be_text() {
    let fields = vec![field(b"library", ConfigValue::NameList(vec![]))];
    assert_eq!(
        Config::from_fields(&fields),
        Err(ConfigError::WrongValueKind(b"library".to_vec()))
    );
}

#[test]
fn load_must_be_a_callback() {
    let fields = vec![field(b"load", ConfigValue::Text(b"x".to_vec()))];
    assert_eq!(
        Config::from_fields(&fields),
        Err(ConfigError::WrongValueKind(b"load".to_vec()))
    );
}

#[test]
fn functions_must_be_hooks() {
    let fields = vec![field(b"functions", ConfigValue::Text(b"x".to_vec()))];
    assert_eq!(
        Config::from_fields(&fields),
        Err(ConfigError::WrongValueKind(b"functions".to_vec()))
    );
}

#[test]
fn first_offending_field_decides_the_error() {
    let fields = vec![
        field(b"library", ConfigValue::Text(b"a.dll".to_vec())),
        field(b"mystery", ConfigValue::Text(b"x".to_vec())),
        field(b"library", ConfigValue::NameList(vec![])),
    ];
    assert_eq!(
        Config::from_fields(&fields),
        Err(ConfigError::UnknownField(b"mystery".to_vec()))
    );
}

#[test]
fn filter_accepts_everything_by_default() {
    let cfg = Config::empty();
    assert!(cfg.passes_filter(&b"Anything".to_vec()));
}

#[test]
fn include_list_restricts() {
    let mut cfg = Config::empty();
    cfg.included = Some(vec![b"Foo".to_vec()]);
    assert!(cfg.passes_filter(&b"Foo".to_vec()));
    assert!(!cfg.passes_filter(&b"Bar".to_vec()));
}

#[test]
fn exclude_list_drops() {
    let mut cfg = Config::empty();
    cfg.excluded = Some(vec![b"Foo".to_vec()]);
    assert!(!cfg.passes_filter(&b"Foo".to_vec()));
    assert!(cfg.passes_filter(&b"Bar".to_vec()));
}

#[test]
fn excluded_name_loses_even_when_included() {
    let mut cfg = Config::empty();
    cfg.included = Some(vec![b"Foo".to_vec()]);
    cfg.excluded = Some(vec![b"Foo".to_vec()]);
    assert!(!cfg.passes_filter(&b"Foo".to_vec()));
}
