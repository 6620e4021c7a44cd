//! Construction-time configuration.
//!
//! The declarative front end hands the engine a list of named fields: the
//! target library, an optional include/exclude filter over export names,
//! optional load/unload callbacks, and the declared hooks. This module
//! validates that list — unknown fields and wrongly-typed values are
//! construction-time errors naming the offending field — and folds it into
//! a [`Config`], later fields overriding earlier ones.
use vstd::prelude::*;

verus! {

/// A hook declaration: the exported name the user function claims.
#[derive(Clone, Debug, PartialEq, Eq)]
pub struct HookDecl {
    pub name: Vec<u8>,
}

/// The value given for one configuration field.
#[derive(Clone, Debug, PartialEq, Eq)]
pub enum ConfigValue {
    /// A quoted string: the target library's name.
    Text(Vec<u8>),
    /// A reference to a user function: a load or unload callback.
    Callback(Vec<u8>),
    /// A list of quoted strings: an include or exclude filter.
    NameList(Vec<Vec<u8>>),
    /// A list of hook declarations.
    HookList(Vec<HookDecl>),
}

/// One named field of the configuration.
#[derive(Clone, Debug, PartialEq, Eq)]
pub struct ConfigField {
    pub key: Vec<u8>,
    pub value: ConfigValue,
}

/// The validated configuration.
#[derive(Clone, Debug, PartialEq, Eq)]
pub struct Config {
    pub library: Option<Vec<u8>>,
    pub included: Option<Vec<Vec<u8>>>,
    pub excluded: Option<Vec<Vec<u8>>>,
    pub load: Option<Vec<u8>>,
    pub unload: Option<Vec<u8>>,
    pub hooks: Option<Vec<HookDecl>>,
}

/// Why a configuration was rejected; each error names the offending field.
#[derive(Clone, Debug, PartialEq, Eq)]
pub enum ConfigError {
    /// The field is not one the engine knows.
    UnknownField(Vec<u8>),
    /// The field's value is not of the kind the field takes.
    WrongValueKind(Vec<u8>),
}

/// The six field names the engine understands.
#[derive(Clone, Copy, Debug, PartialEq, Eq, Structural)]
pub enum ConfigKey {
    Library,
    Include,
    Exclude,
    Load,
    Unload,
    Functions,
}

/// The bytes of `library`.
pub open spec fn spec_key_library() -> Seq<u8> {
    seq![0x6c, 0x69, 0x62, 0x72, 0x61, 0x72, 0x79]
}

/// The bytes of `include`.
pub open spec fn spec_key_include() -> Seq<u8> {
    seq![0x69, 0x6e, 0x63, 0x6c, 0x75, 0x64, 0x65]
}

/// The bytes of `exclude`.
pub open spec fn spec_key_exclude() -> Seq<u8> {
    seq![0x65, 0x78, 0x63, 0x6c, 0x75, 0x64, 0x65]
}

/// The bytes of `load`.
pub open spec fn spec_key_load() -> Seq<u8> {
    seq![0x6c, 0x6f, 0x61, 0x64]
}

/// The bytes of `unload`.
pub open spec fn spec_key_unload() -> Seq<u8> {
    seq![0x75, 0x6e, 0x6c, 0x6f, 0x61, 0x64]
}

/// The bytes of `functions`.
pub open spec fn spec_key_functions() -> Seq<u8> {
    seq![0x66, 0x75, 0x6e, 0x63, 0x74, 0x69, 0x6f, 0x6e, 0x73]
}

/// Which known field a name denotes, if any.
pub open spec fn spec_key_of(k: Seq<u8>) -> Option<ConfigKey> {
    if k == spec_key_library() {
        Some(ConfigKey::Library)
    } else if k == spec_key_include() {
        Some(ConfigKey::Include)
    } else if k == spec_key_exclude() {
        Some(ConfigKey::Exclude)
    } else if k == spec_key_load() {
        Some(ConfigKey::Load)
    } else if k == spec_key_unload() {
        Some(ConfigKey::Unload)
    } else if k == spec_key_functions() {
        Some(ConfigKey::Functions)
    } else {
        None
    }
}

/// The names of a sequence of hook declarations.
pub open spec fn hook_names(hooks: Seq<HookDecl>) -> Seq<Seq<u8>> {
    Seq::new(hooks.len(), |i: int| hooks[i].name@)
}

/// Abstract value of a configuration field's value.
#[verifier::ext_equal]
pub enum ConfigValueView {
    Text(Seq<u8>),
    Callback(Seq<u8>),
    NameList(Seq<Seq<u8>>),
    HookList(Seq<Seq<u8>>),
}

impl View for ConfigValue {
    type V = ConfigValueView;

    open spec fn view(&self) -> ConfigValueView {
        match self {
            ConfigValue::Text(v) => ConfigValueView::Text(v@),
            ConfigValue::Callback(v) => ConfigValueView::Callback(v@),
            ConfigValue::NameList(v) => ConfigValueView::NameList(v.deep_view()),
            ConfigValue::HookList(v) => ConfigValueView::HookList(hook_names(v@)),
        }
    }
}

/// Abstract value of one configuration field.
#[verifier::ext_equal]
pub struct ConfigFieldView {
    pub key: Seq<u8>,
    pub value: ConfigValueView,
}

impl View for ConfigField {
    type V = ConfigFieldView;

    open spec fn view(&self) -> ConfigFieldView {
        ConfigFieldView { key: self.key@, value: self.value@ }
    }
}

/// Abstract value of a validated configuration.
#[verifier::ext_equal]
pub struct ConfigView {
    pub library: Option<Seq<u8>>,
    pub included: Option<Seq<Seq<u8>>>,
    pub excluded: Option<Seq<Seq<u8>>>,
    pub load: Option<Seq<u8>>,
    pub unload: Option<Seq<u8>>,
    pub hooks: Option<Seq<Seq<u8>>>,
}

impl View for Config {
    type V = ConfigView;

    open spec fn view(&self) -> ConfigView {
        ConfigView {
            library: match self.library {
                Some(ref v) => Some(v@),
                None => None,
            },
            included: match self.included {
                Some(ref v) => Some(v.deep_view()),
                None => None,
            },
            excluded: match self.excluded {
                Some(ref v) => Some(v.deep_view()),
                None => None,
            },
            load: match self.load {
                Some(ref v) => Some(v@),
                None => None,
            },
            unload: match self.unload {
                Some(ref v) => Some(v@),
                None => None,
            },
            hooks: match self.hooks {
                Some(ref v) => Some(hook_names(v@)),
                None => None,
            },
        }
    }
}

/// Abstract value of a configuration error.
#[verifier::ext_equal]
pub enum ConfigErrorView {
    UnknownField(Seq<u8>),
    WrongValueKind(Seq<u8>),
}

impl View for ConfigError {
    type V = ConfigErrorView;

    open spec fn view(&self) -> ConfigErrorView {
        match self {
            ConfigError::UnknownField(k) => ConfigErrorView::UnknownField(k@),
            ConfigError::WrongValueKind(k) => ConfigErrorView::WrongValueKind(k@),
        }
    }
}

/// The configuration with nothing declared.
pub open spec fn spec_empty_config() -> ConfigView {
    ConfigView {
        library: None,
        included: None,
        excluded: None,
        load: None,
        unload: None,
        hooks: None,
    }
}

/// Applying one field to a configuration: unknown names and wrongly-typed
/// values fail, naming the field; a well-typed field overwrites its slot.
pub open spec fn spec_apply_field(c: ConfigView, f: ConfigFieldView) -> Result<
    ConfigView,
    ConfigErrorView,
> {
    match spec_key_of(f.key) {
        None => Err(ConfigErrorView::UnknownField(f.key)),
        Some(ConfigKey::Library) => match f.value {
            ConfigValueView::Text(s) => Ok(ConfigView { library: Some(s), ..c }),
            _ => Err(ConfigErrorView::WrongValueKind(f.key)),
        },
        Some(ConfigKey::Include) => match f.value {
            ConfigValueView::NameList(l) => Ok(ConfigView { included: Some(l), ..c }),
            _ => Err(ConfigErrorView::WrongValueKind(f.key)),
        },
        Some(ConfigKey::Exclude) => match f.value {
            ConfigValueView::NameList(l) => Ok(ConfigView { excluded: Some(l), ..c }),
            _ => Err(ConfigErrorView::WrongValueKind(f.key)),
        },
        Some(ConfigKey::Load) => match f.value {
            ConfigValueView::Callback(p) => Ok(ConfigView { load: Some(p), ..c }),
            _ => Err(ConfigErrorView::WrongValueKind(f.key)),
        },
        Some(ConfigKey::Unload) => match f.value {
            ConfigValueView::Callback(p) => Ok(ConfigView { unload: Some(p), ..c }),
            _ => Err(ConfigErrorView::WrongValueKind(f.key)),
        },
        Some(ConfigKey::Functions) => match f.value {
            ConfigValueView::HookList(h) => Ok(ConfigView { hooks: Some(h), ..c }),
            _ => Err(ConfigErrorView::WrongValueKind(f.key)),
        },
    }
}

/// Folding the fields from index `i` on into configuration `c`.
pub open spec fn spec_fold_fields(c: ConfigView, fields: Seq<ConfigFieldView>, i: int) -> Result<
    ConfigView,
    ConfigErrorView,
> decreases fields.len() - i,
{
    if i < 0 || i >= fields.len() {
        Ok(c)
    } else {
        match spec_apply_field(c, fields[i]) {
            Ok(c2) => spec_fold_fields(c2, fields, i + 1),
            Err(e) => Err(e),
        }
    }
}

/// Abstract values of a list of fields.
pub open spec fn field_views(fields: Seq<ConfigField>) -> Seq<ConfigFieldView> {
    Seq::new(fields.len(), |i: int| fields[i]@)
}

/// What validating a field list yields: the folded configuration, or the
/// first offending field's error.
pub open spec fn spec_from_fields(fields: Seq<ConfigFieldView>) -> Result<
    ConfigView,
    ConfigErrorView,
> {
    spec_fold_fields(spec_empty_config(), fields, 0)
}

/// The bytes of `library`.
fn key_library_bytes() -> (r: Vec<u8>)
    ensures
        r@ == spec_key_library(),
{
    let mut v: Vec<u8> = Vec::new();
    v.push(0x6c);
    v.push(0x69);
    v.push(0x62);
    v.push(0x72);
    v.push(0x61);
    v.push(0x72);
    v.push(0x79);
    proof {
        assert(v@ =~= spec_key_library());
    }
    v
}

/// The bytes of `include`.
fn key_include_bytes() -> (r: Vec<u8>)
    ensures
        r@ == spec_key_include(),
{
    let mut v: Vec<u8> = Vec::new();
    v.push(0x69);
    v.push(0x6e);
    v.push(0x63);
    v.push(0x6c);
    v.push(0x75);
    v.push(0x64);
    v.push(0x65);
    proof {
        assert(v@ =~= spec_key_include());
    }
    v
}

/// The bytes of `exclude`.
fn key_exclude_bytes() -> (r: Vec<u8>)
    ensures
        r@ == spec_key_exclude(),
{
    let mut v: Vec<u8> = Vec::new();
    v.push(0x65);
    v.push(0x78);
    v.push(0x63);
    v.push(0x6c);
    v.push(0x75);
    v.push(0x64);
    v.push(0x65);
    proof {
        assert(v@ =~= spec_key_exclude());
    }
    v
}

/// The bytes of `load`.
pub(crate) fn key_load_bytes() -> (r: Vec<u8>)
    ensures
        r@ == spec_key_load(),
{
    let mut v: Vec<u8> = Vec::new();
    v.push(0x6c);
    v.push(0x6f);
    v.push(0x61);
    v.push(0x64);
    proof {
        assert(v@ =~= spec_key_load());
    }
    v
}

/// The bytes of `unload`.
pub(crate) fn key_unload_bytes() -> (r: Vec<u8>)
    ensures
        r@ == spec_key_unload(),
{
    let mut v: Vec<u8> = Vec::new();
    v.push(0x75);
    v.push(0x6e);
    v.push(0x6c);
    v.push(0x6f);
    v.push(0x61);
    v.push(0x64);
    proof {
        assert(v@ =~= spec_key_unload());
    }
    v
}

/// The bytes of `functions`.
fn key_functions_bytes() -> (r: Vec<u8>)
    ensures
        r@ == spec_key_functions(),
{
    let mut v: Vec<u8> = Vec::new();
    v.push(0x66);
    v.push(0x75);
    v.push(0x6e);
    v.push(0x63);
    v.push(0x74);
    v.push(0x69);
    v.push(0x6f);
    v.push(0x6e);
    v.push(0x73);
    proof {
        assert(v@ =~= spec_key_functions());
    }
    v
}

/// Which known field a name denotes, if any.
pub fn key_of(k: &Vec<u8>) -> (r: Option<ConfigKey>)
    ensures
        r == spec_key_of(k@),
{
    let lib = key_library_bytes();
    if crate::bytes::bytes_eq(k.as_slice(), lib.as_slice()) {
        return Some(ConfigKey::Library);
    }
    let inc = key_include_bytes();
    if crate::bytes::bytes_eq(k.as_slice(), inc.as_slice()) {
        return Some(ConfigKey::Include);
    }
    let exc = key_exclude_bytes();
    if crate::bytes::bytes_eq(k.as_slice(), exc.as_slice()) {
        return Some(ConfigKey::Exclude);
    }
    let load_key = key_load_bytes();
    if crate::bytes::bytes_eq(k.as_slice(), load_key.as_slice()) {
        return Some(ConfigKey::Load);
    }
    let unload_key = key_unload_bytes();
    if crate::bytes::bytes_eq(k.as_slice(), unload_key.as_slice()) {
        return Some(ConfigKey::Unload);
    }
    let funcs = key_functions_bytes();
    if crate::bytes::bytes_eq(k.as_slice(), funcs.as_slice()) {
        return Some(ConfigKey::Functions);
    }
    None
}

/// A fresh copy of a list of names.
pub(crate) fn copy_names(v: &Vec<Vec<u8>>) -> (r: Vec<Vec<u8>>)
    ensures
        r.deep_view() == v.deep_view(),
{
    let n = v.len();
    let mut r: Vec<Vec<u8>> = Vec::new();
    let mut i: usize = 0;
    while i < n
        invariant
            i <= n,
            n == v@.len(),
            r@.len() == i,
            forall|j: int| 0 <= j < i ==> r.deep_view()[j] == v.deep_view()[j],
        decreases n - i,
    {
        r.push(crate::bytes::copy_bytes(&v[i]));
        i = i + 1;
    }
    proof {
        assert(r.deep_view() =~~= v.deep_view());
    }
    r
}

/// A fresh copy of a list of hook declarations.
pub(crate) fn copy_hooks(v: &Vec<HookDecl>) -> (r: Vec<HookDecl>)
    ensures
        hook_names(r@) == hook_names(v@),
{
    let n = v.len();
    let mut r: Vec<HookDecl> = Vec::new();
    let mut i: usize = 0;
    while i < n
        invariant
            i <= n,
            n == v@.len(),
            r@.len() == i,
            forall|j: int| 0 <= j < i ==> r@[j].name@ == v@[j].name@,
        decreases n - i,
    {
        r.push(HookDecl { name: crate::bytes::copy_bytes(&v[i].name) });
        i = i + 1;
    }
    proof {
        assert(hook_names(r@) =~~= hook_names(v@));
    }
    r
}

impl Config {
    /// The configuration with nothing declared.
    pub fn empty() -> (r: Config)
        ensures
            r@ == spec_empty_config(),
    {
        Config { library: None, included: None, excluded: None, load: None, unload: None, hooks: None }
    }

    /// Validates and folds a field list: unknown fields and wrongly-typed
    /// values fail with the offending field's name; later well-typed fields
    /// override earlier ones.
    pub fn from_fields(fields: &Vec<ConfigField>) -> (r: Result<Config, ConfigError>)
        ensures
            match r {
                Ok(c) => spec_from_fields(field_views(fields@)) == Ok::<
                    ConfigView,
                    ConfigErrorView,
                >(c@),
                Err(e) => spec_from_fields(field_views(fields@)) == Err::<
                    ConfigView,
                    ConfigErrorView,
                >(e@),
            },
    {
        let ghost fvs = field_views(fields@);
        let n = fields.len();
        let mut cfg = Config::empty();
        let mut i: usize = 0;
        while i < n
            invariant
                i <= n,
                n == fields@.len(),
                fvs == field_views(fields@),
                spec_from_fields(fvs) == spec_fold_fields(cfg@, fvs, i as int),
            decreases n - i,
        {
            let f = &fields[i];
            assert(fvs[i as int] == f@);
            let ghost before = cfg@;
            match key_of(&f.key) {
                None => {
                    return Err(ConfigError::UnknownField(crate::bytes::copy_bytes(&f.key)));
                },
                Some(ConfigKey::Library) => match &f.value {
                    ConfigValue::Text(s) => {
                        cfg.library = Some(crate::bytes::copy_bytes(s));
                        proof {
                            assert(cfg@ =~~= (ConfigView { library: Some(s@), ..before }));
                        }
                    },
                    _ => {
                        return Err(ConfigError::WrongValueKind(crate::bytes::copy_bytes(&f.key)));
                    },
                },
                Some(ConfigKey::Include) => match &f.value {
                    ConfigValue::NameList(l) => {
                        cfg.included = Some(copy_names(l));
                        proof {
                            assert(cfg@ =~~= (ConfigView { included: Some(l.deep_view()), ..before }));
                        }
                    },
                    _ => {
                        return Err(ConfigError::WrongValueKind(crate::bytes::copy_bytes(&f.key)));
                    },
                },
                Some(ConfigKey::Exclude) => match &f.value {
                    ConfigValue::NameList(l) => {
                        cfg.excluded = Some(copy_names(l));
                        proof {
                            assert(cfg@ =~~= (ConfigView { excluded: Some(l.deep_view()), ..before }));
                        }
                    },
                    _ => {
                        return Err(ConfigError::WrongValueKind(crate::bytes::copy_bytes(&f.key)));
                    },
                },
                Some(ConfigKey::Load) => match &f.value {
                    ConfigValue::Callback(p) => {
                        cfg.load = Some(crate::bytes::copy_bytes(p));
                        proof {
                            assert(cfg@ =~~= (ConfigView { load: Some(p@), ..before }));
                        }
                    },
                    _ => {
                        return Err(ConfigError::WrongValueKind(crate::bytes::copy_bytes(&f.key)));
                    },
                },
                Some(ConfigKey::Unload) => match &f.value {
                    ConfigValue::Callback(p) => {
                        cfg.unload = Some(crate::bytes::copy_bytes(p));
                        proof {
                            assert(cfg@ =~~= (ConfigView { unload: Some(p@), ..before }));
                        }
                    },
                    _ => {
                        return Err(ConfigError::WrongValueKind(crate::bytes::copy_bytes(&f.key)));
                    },
                },
                Some(ConfigKey::Functions) => match &f.value {
                    ConfigValue::HookList(h) => {
                        cfg.hooks = Some(copy_hooks(h));
                        proof {
                            assert(cfg@ =~~= (ConfigView { hooks: Some(hook_names(h@)), ..before }));
                        }
                    },
                    _ => {
                        return Err(ConfigError::WrongValueKind(crate::bytes::copy_bytes(&f.key)));
                    },
                },
            }
            i = i + 1;
        }
        Ok(cfg)
    }
}

/// Whether a name passes the include/exclude filter: it must be listed by
/// the include list when one is given, and not listed by the exclude list
/// when one is given.
pub open spec fn spec_passes_filter(
    name: Seq<u8>,
    included: Option<Seq<Seq<u8>>>,
    excluded: Option<Seq<Seq<u8>>>,
) -> bool {
    (match included {
        None => true,
        Some(inc) => inc.contains(name),
    }) && (match excluded {
        None => true,
        Some(exc) => !exc.contains(name),
    })
}

/// Whether a list of names contains the given name, byte for byte.
pub fn contains_name(list: &Vec<Vec<u8>>, name: &Vec<u8>) -> (r: bool)
    ensures
        r == list.deep_view().contains(name@),
{
    let n = list.len();
    let mut i: usize = 0;
    while i < n
        invariant
            i <= n,
            n == list@.len(),
            forall|j: int| 0 <= j < i ==> list.deep_view()[j] != name@,
        decreases n - i,
    {
        assert(list.deep_view()[i as int] =~= list@[i as int]@);
        if crate::bytes::bytes_eq(list[i].as_slice(), name.as_slice()) {
            assert(list.deep_view()[i as int] == name@);
            return true;
        }
        i = i + 1;
    }
    proof {
        assert(forall|j: int| 0 <= j < list.deep_view().len() ==> list.deep_view()[j] != name@);
    }
    false
}

impl Config {
    /// Whether an export name gets a concrete entry point under this
    /// configuration's include/exclude filter.
    pub fn passes_filter(&self, name: &Vec<u8>) -> (r: bool)
        ensures
            r == spec_passes_filter(name@, self@.included, self@.excluded),
    {
        let inc_ok = match &self.included {
            None => true,
            Some(inc) => contains_name(inc, name),
        };
        if !inc_ok {
            return false;
        }
        match &self.excluded {
            None => true,
            Some(exc) => !contains_name(exc, name),
        }
    }
}

} // verus!
