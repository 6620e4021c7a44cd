//! Hook binder: scanning the user's module.
//!
//! The user writes a module of ordinary functions and marks a few of them:
//! `init` (run once after loading), `load`/`unload` (lifecycle callbacks),
//! and `hook` (intercept the export of the same name). This module scans
//! those functions: a function may carry at most one marker, only one
//! function may be the `init` function, and a hook's name must be present
//! in the target's real export set — each violation is a construction-time
//! error naming the offending function.
use vstd::prelude::*;

use crate::config::HookDecl;

verus! {

/// The marker a user function may carry.
#[derive(Clone, Copy, Debug, PartialEq, Eq, Structural)]
pub enum FnMarker {
    /// Runs once, after the load step fills every slot.
    Init,
    /// Runs on the module-attach signal.
    Load,
    /// Runs on the module-detach signal.
    Unload,
    /// Intercepts the export of the function's own name.
    Hook,
}

/// The bytes of `init`.
pub open spec fn spec_marker_init() -> Seq<u8> {
    seq![0x69, 0x6e, 0x69, 0x74]
}

/// The bytes of `hook`.
pub open spec fn spec_marker_hook() -> Seq<u8> {
    seq![0x68, 0x6f, 0x6f, 0x6b]
}

/// Which marker an attribute name denotes, if any.
pub open spec fn spec_classify(a: Seq<u8>) -> Option<FnMarker> {
    if a == spec_marker_init() {
        Some(FnMarker::Init)
    } else if a == spec_marker_hook() {
        Some(FnMarker::Hook)
    } else if a == crate::config::spec_key_load() {
        Some(FnMarker::Load)
    } else if a == crate::config::spec_key_unload() {
        Some(FnMarker::Unload)
    } else {
        None
    }
}

/// The bytes of `init`.
fn marker_init_bytes() -> (r: Vec<u8>)
    ensures
        r@ == spec_marker_init(),
{
    let mut v: Vec<u8> = Vec::new();
    v.push(0x69);
    v.push(0x6e);
    v.push(0x69);
    v.push(0x74);
    proof {
        assert(v@ =~= spec_marker_init());
    }
    v
}

/// The bytes of `hook`.
fn marker_hook_bytes() -> (r: Vec<u8>)
    ensures
        r@ == spec_marker_hook(),
{
    let mut v: Vec<u8> = Vec::new();
    v.push(0x68);
    v.push(0x6f);
    v.push(0x6f);
    v.push(0x6b);
    proof {
        assert(v@ =~= spec_marker_hook());
    }
    v
}

/// Which marker an attribute name denotes, if any.
pub fn classify(a: &Vec<u8>) -> (r: Option<FnMarker>)
    ensures
        r == spec_classify(a@),
{
    let init = marker_init_bytes();
    if crate::bytes::bytes_eq(a.as_slice(), init.as_slice()) {
        return Some(FnMarker::Init);
    }
    let hook = marker_hook_bytes();
    if crate::bytes::bytes_eq(a.as_slice(), hook.as_slice()) {
        return Some(FnMarker::Hook);
    }
    let load = crate::config::key_load_bytes();
    if crate::bytes::bytes_eq(a.as_slice(), load.as_slice()) {
        return Some(FnMarker::Load);
    }
    let unload = crate::config::key_unload_bytes();
    if crate::bytes::bytes_eq(a.as_slice(), unload.as_slice()) {
        return Some(FnMarker::Unload);
    }
    None
}

/// The marker attributes among `attrs[i..]`, in order.
pub open spec fn spec_markers_from(attrs: Seq<Seq<u8>>, i: int) -> Seq<Seq<u8>>
    decreases attrs.len() - i,
{
    if i < 0 || i >= attrs.len() {
        Seq::empty()
    } else if spec_classify(attrs[i]) is Some {
        seq![attrs[i]] + spec_markers_from(attrs, i + 1)
    } else {
        spec_markers_from(attrs, i + 1)
    }
}

/// One function of the user's module: its name, and the names of its
/// attributes.
#[derive(Clone, Debug, PartialEq, Eq)]
pub struct FnItem {
    pub name: Vec<u8>,
    pub attrs: Vec<Vec<u8>>,
}

/// Abstract value of one user function.
#[verifier::ext_equal]
pub struct FnItemView {
    pub name: Seq<u8>,
    pub attrs: Seq<Seq<u8>>,
}

impl View for FnItem {
    type V = FnItemView;

    open spec fn view(&self) -> FnItemView {
        FnItemView { name: self.name@, attrs: self.attrs.deep_view() }
    }
}

/// Abstract values of a list of user functions.
pub open spec fn fn_views(fns: Seq<FnItem>) -> Seq<FnItemView> {
    Seq::new(fns.len(), |i: int| fns[i]@)
}

/// What scanning the module yields: the optional lifecycle functions and
/// the hook declarations, in order of appearance.
#[derive(Clone, Debug, PartialEq, Eq)]
pub struct ModuleHooks {
    pub init: Option<Vec<u8>>,
    pub load: Option<Vec<u8>>,
    pub unload: Option<Vec<u8>>,
    pub hooks: Vec<HookDecl>,
}

/// Abstract value of a scanned module.
#[verifier::ext_equal]
pub struct ModuleHooksView {
    pub init: Option<Seq<u8>>,
    pub load: Option<Seq<u8>>,
    pub unload: Option<Seq<u8>>,
    pub hooks: Seq<Seq<u8>>,
}

impl View for ModuleHooks {
    type V = ModuleHooksView;

    open spec fn view(&self) -> ModuleHooksView {
        ModuleHooksView {
            init: match self.init {
                Some(ref v) => Some(v@),
                None => None,
            },
            load: match self.load {
                Some(ref v) => Some(v@),
                None => None,
            },
            unload: match self.unload {
                Some(ref v) => Some(v@),
                None => None,
            },
            hooks: crate::config::hook_names(self.hooks@),
        }
    }
}

/// Why a module was rejected; each error names the offending function.
#[derive(Clone, Debug, PartialEq, Eq)]
pub enum HookError {
    /// A function carries more than one marker attribute.
    MultipleMarkers(Vec<u8>),
    /// A second function is marked `init`.
    DuplicateInit(Vec<u8>),
    /// A hook function's name is not an exported symbol of the target.
    NotAnExport(Vec<u8>),
}

/// Abstract value of a module error.
#[verifier::ext_equal]
pub enum HookErrorView {
    MultipleMarkers(Seq<u8>),
    DuplicateInit(Seq<u8>),
    NotAnExport(Seq<u8>),
}

impl View for HookError {
    type V = HookErrorView;

    open spec fn view(&self) -> HookErrorView {
        match self {
            HookError::MultipleMarkers(n) => HookErrorView::MultipleMarkers(n@),
            HookError::DuplicateInit(n) => HookErrorView::DuplicateInit(n@),
            HookError::NotAnExport(n) => HookErrorView::NotAnExport(n@),
        }
    }
}

/// The scan of nothing.
pub open spec fn spec_empty_module() -> ModuleHooksView {
    ModuleHooksView { init: None, load: None, unload: None, hooks: Seq::empty() }
}

/// Scanning one function: at most one marker per function; one `init` per
/// module; a hook must name a real export; `load` and `unload` may be
/// re-declared, the last declaration winning.
pub open spec fn spec_scan_fn(
    exports: Seq<Seq<u8>>,
    st: ModuleHooksView,
    f: FnItemView,
) -> Result<ModuleHooksView, HookErrorView> {
    let ms = spec_markers_from(f.attrs, 0);
    if ms.len() == 0 {
        Ok(st)
    } else if ms.len() > 1 {
        Err(HookErrorView::MultipleMarkers(f.name))
    } else {
        match spec_classify(ms[0]) {
            Some(FnMarker::Init) => if st.init is Some {
                Err(HookErrorView::DuplicateInit(f.name))
            } else {
                Ok(ModuleHooksView { init: Some(f.name), ..st })
            },
            Some(FnMarker::Hook) => if !exports.contains(f.name) {
                Err(HookErrorView::NotAnExport(f.name))
            } else {
                Ok(ModuleHooksView { hooks: st.hooks.push(f.name), ..st })
            },
            Some(FnMarker::Load) => Ok(ModuleHooksView { load: Some(f.name), ..st }),
            Some(FnMarker::Unload) => Ok(ModuleHooksView { unload: Some(f.name), ..st }),
            None => Ok(st),
        }
    }
}

/// Scanning the functions from index `i` on.
pub open spec fn spec_scan_fns(
    exports: Seq<Seq<u8>>,
    st: ModuleHooksView,
    fns: Seq<FnItemView>,
    i: int,
) -> Result<ModuleHooksView, HookErrorView>
    decreases fns.len() - i,
{
    if i < 0 || i >= fns.len() {
        Ok(st)
    } else {
        match spec_scan_fn(exports, st, fns[i]) {
            Ok(st2) => spec_scan_fns(exports, st2, fns, i + 1),
            Err(e) => Err(e),
        }
    }
}

/// What scanning a whole module against the target's export set yields.
pub open spec fn spec_scan_module(exports: Seq<Seq<u8>>, fns: Seq<FnItemView>) -> Result<
    ModuleHooksView,
    HookErrorView,
> {
    spec_scan_fns(exports, spec_empty_module(), fns, 0)
}

/// Finds the marker of one function's attribute list: the marker when
/// there is exactly one, nothing when there is none, an error when there
/// are several.
fn attr_marker(attrs: &Vec<Vec<u8>>) -> (r: Result<Option<FnMarker>, ()>)
    ensures
        ({
            let ms = spec_markers_from(attrs.deep_view(), 0);
            match r {
                Ok(None) => ms.len() == 0,
                Ok(Some(m)) => ms.len() == 1 && spec_classify(ms[0]) == Some(m),
                Err(()) => ms.len() > 1,
            }
        }),
{
    let ghost avs = attrs.deep_view();
    let n = attrs.len();
    let mut i: usize = 0;
    let mut first: Option<FnMarker> = None;
    let ghost mut seen: Seq<Seq<u8>> = Seq::empty();
    assert(spec_markers_from(avs, 0) =~= seen + spec_markers_from(avs, 0));
    while i < n
        invariant
            i <= n,
            n == attrs@.len(),
            avs == attrs.deep_view(),
            spec_markers_from(avs, 0) == seen + spec_markers_from(avs, i as int),
            seen.len() <= 1,
            first is None <==> seen.len() == 0,
            first is Some ==> seen.len() == 1 && spec_classify(seen[0]) == Some(first->0),
        decreases n - i,
    {
        assert(avs[i as int] == attrs@[i as int]@);
        match classify(&attrs[i]) {
            Some(m) => {
                if first.is_some() {
                    proof {
                        assert(spec_markers_from(avs, i as int) == seq![avs[i as int]]
                            + spec_markers_from(avs, i as int + 1));
                        assert(spec_markers_from(avs, 0).len() >= 2);
                    }
                    return Err(());
                }
                first = Some(m);
                proof {
                    seen = seen + seq![avs[i as int]];
                    assert(seen + spec_markers_from(avs, i as int + 1) =~= spec_markers_from(
                        avs,
                        0,
                    ));
                    assert(seen[0] == avs[i as int]);
                }
            },
            None => {
            },
        }
        i = i + 1;
    }
    proof {
        assert(spec_markers_from(avs, n as int) =~= Seq::<Seq<u8>>::empty());
        assert(spec_markers_from(avs, 0) =~= seen);
    }
    match first {
        None => Ok(None),
        Some(m) => Ok(Some(m)),
    }
}

/// Scans the user module's functions against the target's real export set:
/// collects the lifecycle functions and the hook declarations, or fails on
/// the first offending function, naming it.
#[verifier::loop_isolation(false)]
pub fn scan_module(exports: &Vec<Vec<u8>>, fns: &Vec<FnItem>) -> (r: Result<
    ModuleHooks,
    HookError,
>)
    ensures
        match r {
            Ok(m) => spec_scan_module(exports.deep_view(), fn_views(fns@)) == Ok::<
                ModuleHooksView,
                HookErrorView,
            >(m@),
            Err(e) => spec_scan_module(exports.deep_view(), fn_views(fns@)) == Err::<
                ModuleHooksView,
                HookErrorView,
            >(e@),
        },
{
    let ghost evs = exports.deep_view();
    let ghost fvs = fn_views(fns@);
    let n = fns.len();
    let mut st = ModuleHooks { init: None, load: None, unload: None, hooks: Vec::new() };
    proof {
        assert(st@ =~~= spec_empty_module());
    }
    let mut i: usize = 0;
    while i < n
        invariant
            i <= n,
            spec_scan_module(evs, fvs) == spec_scan_fns(evs, st@, fvs, i as int),
        decreases n - i,
    {
        let f = &fns[i];
        assert(fvs[i as int] == f@);
        let ghost before = st@;
        match attr_marker(&f.attrs) {
            Err(()) => {
                return Err(HookError::MultipleMarkers(crate::bytes::copy_bytes(&f.name)));
            },
            Ok(None) => {
            },
            Ok(Some(FnMarker::Init)) => {
                if st.init.is_some() {
                    return Err(HookError::DuplicateInit(crate::bytes::copy_bytes(&f.name)));
                }
                st.init = Some(crate::bytes::copy_bytes(&f.name));
                proof {
                    assert(st@ =~~= (ModuleHooksView { init: Some(f@.name), ..before }));
                }
            },
            Ok(Some(FnMarker::Hook)) => {
                if !crate::config::contains_name(exports, &f.name) {
                    return Err(HookError::NotAnExport(crate::bytes::copy_bytes(&f.name)));
                }
                st.hooks.push(HookDecl { name: crate::bytes::copy_bytes(&f.name) });
                proof {
                    assert(st@ =~~= (ModuleHooksView { hooks: before.hooks.push(f@.name), ..before }));
                }
            },
            Ok(Some(FnMarker::Load)) => {
                st.load = Some(crate::bytes::copy_bytes(&f.name));
                proof {
                    assert(st@ =~~= (ModuleHooksView { load: Some(f@.name), ..before }));
                }
            },
            Ok(Some(FnMarker::Unload)) => {
                st.unload = Some(crate::bytes::copy_bytes(&f.name));
                proof {
                    assert(st@ =~~= (ModuleHooksView { unload: Some(f@.name), ..before }));
                }
            },
        }
        i = i + 1;
    }
    Ok(st)
}

} // verus!
