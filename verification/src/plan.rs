//! Shim plan: one forwarding mechanism per export.
//!
//! Construction crosses the validated configuration with the target's real
//! export list. Every export gets an address slot (slot index = export
//! index) and exactly one mechanism: the user hook that claims it, a
//! passthrough trampoline, or — when the include/exclude filter drops it
//! from the generated surface — an omission (the slot still exists). A hook
//! naming an export the target does not have, and two hooks for one export,
//! are construction-time errors naming the offending hook; no dead or
//! half-bound entry point is ever produced.
use vstd::prelude::*;

use crate::config::{hook_names, spec_passes_filter, Config, ConfigView, HookDecl};

verus! {

/// How one export is represented on the shim's surface.
#[derive(Clone, Copy, Debug, PartialEq, Eq, Structural)]
pub enum Mechanism {
    /// A passthrough entry point: a frameless jump through the export's slot.
    Trampoline,
    /// The user hook at this index in the plan's hook list.
    Hook(usize),
    /// No entry point generated (filtered out); the slot still exists.
    Omitted,
}

/// Why shim construction failed.
#[derive(Clone, Debug, PartialEq, Eq)]
pub enum BuildError {
    /// No target library was named.
    NoLibrary,
    /// A hook names a symbol the target library does not export.
    HookNotExported(Vec<u8>),
    /// Two hooks were declared for one export.
    DuplicateHook(Vec<u8>),
}

/// Abstract value of a construction error.
#[verifier::ext_equal]
pub enum BuildErrorView {
    NoLibrary,
    HookNotExported(Seq<u8>),
    DuplicateHook(Seq<u8>),
}

impl View for BuildError {
    type V = BuildErrorView;

    open spec fn view(&self) -> BuildErrorView {
        match self {
            BuildError::NoLibrary => BuildErrorView::NoLibrary,
            BuildError::HookNotExported(n) => BuildErrorView::HookNotExported(n@),
            BuildError::DuplicateHook(n) => BuildErrorView::DuplicateHook(n@),
        }
    }
}

/// The first fault among the declared hooks, scanning them in declaration
/// order: a hook for a name the target does not export, or a second hook
/// for a name already hooked.
pub open spec fn spec_hook_fault(
    exports: Seq<Seq<u8>>,
    hooks: Seq<Seq<u8>>,
    i: int,
) -> Option<BuildErrorView>
    decreases hooks.len() - i,
{
    if i < 0 || i >= hooks.len() {
        None
    } else if !exports.contains(hooks[i]) {
        Some(BuildErrorView::HookNotExported(hooks[i]))
    } else if hooks.subrange(0, i).contains(hooks[i]) {
        Some(BuildErrorView::DuplicateHook(hooks[i]))
    } else {
        spec_hook_fault(exports, hooks, i + 1)
    }
}

/// The index of the first list entry equal to `name`, from `i` on.
pub open spec fn spec_find_name(list: Seq<Seq<u8>>, name: Seq<u8>, i: int) -> Option<int>
    decreases list.len() - i,
{
    if i < 0 || i >= list.len() {
        None
    } else if list[i] == name {
        Some(i)
    } else {
        spec_find_name(list, name, i + 1)
    }
}

/// A found index is the first match at or after `i`; `None` means no match.
pub proof fn lemma_find_name(list: Seq<Seq<u8>>, name: Seq<u8>, i: int)
    requires
        0 <= i <= list.len(),
    ensures
        match spec_find_name(list, name, i) {
            Some(h) => i <= h < list.len() && list[h] == name && (forall|j: int|
                i <= j < h ==> list[j] != name),
            None => forall|j: int| i <= j < list.len() ==> list[j] != name,
        },
    decreases list.len() - i,
{
    if i < list.len() && list[i] != name {
        lemma_find_name(list, name, i + 1);
    }
}

/// The mechanism an export name receives: the first hook that claims it;
/// otherwise a trampoline when the filter keeps the name, an omission when
/// it drops it.
pub open spec fn spec_mechanism(c: ConfigView, hooks: Seq<Seq<u8>>, name: Seq<u8>) -> Mechanism {
    match spec_find_name(hooks, name, 0) {
        Some(h) => Mechanism::Hook(h as usize),
        None => if spec_passes_filter(name, c.included, c.excluded) {
            Mechanism::Trampoline
        } else {
            Mechanism::Omitted
        },
    }
}

/// Every export has exactly one forwarding mechanism, never both a hook
/// and a trampoline: it is bound to a hook exactly when some hook claims
/// its name (and then to the first such hook), and is otherwise forwarded,
/// or omitted, by the filter alone.
pub proof fn lemma_mechanism_exclusive(c: ConfigView, hooks: Seq<Seq<u8>>, name: Seq<u8>)
    requires
        hooks.len() <= usize::MAX,
    ensures
        (spec_mechanism(c, hooks, name) matches Mechanism::Hook(h)) <==> hooks.contains(name),
        (spec_mechanism(c, hooks, name) matches Mechanism::Hook(h) ==> 0 <= h < hooks.len()
            && hooks[h as int] == name && (forall|j: int| 0 <= j < h ==> hooks[j] != name)),
        spec_mechanism(c, hooks, name) == Mechanism::Trampoline <==> !hooks.contains(name)
            && spec_passes_filter(name, c.included, c.excluded),
        spec_mechanism(c, hooks, name) == Mechanism::Omitted <==> !hooks.contains(name)
            && !spec_passes_filter(name, c.included, c.excluded),
{
    lemma_find_name(hooks, name, 0);
    if hooks.contains(name) {
        let w = choose|w: int| 0 <= w < hooks.len() && hooks[w] == name;
        assert(spec_find_name(hooks, name, 0) is Some);
    }
}

/// With no filter declared, no export is omitted: every real export gets a
/// concrete forwarding mechanism, so the shim's surface covers the target's.
pub proof fn lemma_no_filter_full_surface(c: ConfigView, hooks: Seq<Seq<u8>>, name: Seq<u8>)
    requires
        hooks.len() <= usize::MAX,
        c.included is None,
        c.excluded is None,
    ensures
        spec_mechanism(c, hooks, name) != Mechanism::Omitted,
{
    lemma_mechanism_exclusive(c, hooks, name);
}

/// Round-trip transparency of a passthrough export: for an export no hook
/// claims and the filter keeps, the generated entry point is a frameless
/// trampoline bound to the export's own slot, and after a completed load
/// that slot holds exactly the address lookup returned for that export —
/// so invoking the entry point transfers control, arguments untouched, to
/// the real implementation.
pub proof fn lemma_passthrough_transparent(
    c: ConfigView,
    hooks: Seq<Seq<u8>>,
    exports: Seq<Seq<u8>>,
    res: Seq<Option<u64>>,
    i: int,
)
    requires
        hooks.len() <= usize::MAX,
        0 <= i < exports.len(),
        res.len() == exports.len(),
        crate::orchestrator::spec_resolution_ok(res),
        !hooks.contains(exports[i]),
        spec_passes_filter(exports[i], c.included, c.excluded),
    ensures
        spec_mechanism(c, hooks, exports[i]) == Mechanism::Trampoline,
        crate::slots::spec_get(crate::orchestrator::spec_addresses(res), i) == res[i],
        crate::orchestrator::spec_addresses(res)[i] != 0,
{
    lemma_mechanism_exclusive(c, hooks, exports[i]);
    crate::orchestrator::lemma_loaded_get_matches_resolution(res, i);
}

/// For a hook-covered export the generated entry point is the user's hook
/// function — never a trampoline — and the "original" accessor the hook
/// may call reads the export's own slot, which after a completed load
/// holds the real implementation's address: the user function runs first,
/// and its delegation reaches the real export with the arguments the hook
/// passes on.
pub proof fn lemma_hooked_entry(
    c: ConfigView,
    hooks: Seq<Seq<u8>>,
    exports: Seq<Seq<u8>>,
    res: Seq<Option<u64>>,
    i: int,
)
    requires
        hooks.len() <= usize::MAX,
        0 <= i < exports.len(),
        res.len() == exports.len(),
        crate::orchestrator::spec_resolution_ok(res),
        hooks.contains(exports[i]),
    ensures
        ({
            let m = spec_mechanism(c, hooks, exports[i]);
            m matches Mechanism::Hook(h) && 0 <= h < hooks.len() && hooks[h as int] == exports[i]
        }),
        crate::slots::spec_get(crate::orchestrator::spec_addresses(res), i) == res[i],
        crate::orchestrator::spec_addresses(res)[i] != 0,
{
    lemma_mechanism_exclusive(c, hooks, exports[i]);
    crate::orchestrator::lemma_loaded_get_matches_resolution(res, i);
}

/// The shim plan: everything the artifact's generator needs, one slot and
/// one mechanism per export.
#[derive(Debug, PartialEq, Eq)]
pub struct ShimPlan {
    /// The target library's name.
    pub library: Vec<u8>,
    /// The user load callback, if declared.
    pub load: Option<Vec<u8>>,
    /// The user unload callback, if declared.
    pub unload: Option<Vec<u8>>,
    /// The target's exported names, in export table order; the address
    /// slot of export `i` is slot `i`.
    pub exports: Vec<Vec<u8>>,
    /// The validated hook declarations, in declaration order.
    pub hooks: Vec<HookDecl>,
    /// The mechanism of export `i`.
    pub mechanisms: Vec<Mechanism>,
}

/// Whether a list of hook declarations matches the view the configuration
/// gave (an absent hook list counts as no hooks).
pub open spec fn spec_cfg_hooks(c: ConfigView) -> Seq<Seq<u8>> {
    match c.hooks {
        Some(h) => h,
        None => Seq::empty(),
    }
}

/// Scans the first `i` hook declarations for one that names `name`.
fn name_in_prefix(hooks: &Vec<HookDecl>, i: usize, name: &Vec<u8>) -> (r: bool)
    requires
        i <= hooks@.len(),
    ensures
        r == hook_names(hooks@).subrange(0, i as int).contains(name@),
{
    let ghost prefix = hook_names(hooks@).subrange(0, i as int);
    let mut j: usize = 0;
    while j < i
        invariant
            j <= i <= hooks@.len(),
            prefix == hook_names(hooks@).subrange(0, i as int),
            forall|k: int| 0 <= k < j ==> prefix[k] != name@,
        decreases i - j,
    {
        assert(prefix[j as int] == hooks@[j as int].name@);
        if crate::bytes::bytes_eq(hooks[j].name.as_slice(), name.as_slice()) {
            assert(prefix[j as int] == name@);
            return true;
        }
        j = j + 1;
    }
    proof {
        assert(forall|k: int| 0 <= k < prefix.len() ==> prefix[k] != name@);
    }
    false
}

/// The index of the first hook that claims `name`, if any.
pub fn find_hook(hooks: &Vec<HookDecl>, name: &Vec<u8>) -> (r: Option<usize>)
    ensures
        match r {
            Some(h) => spec_find_name(hook_names(hooks@), name@, 0) == Some(h as int),
            None => spec_find_name(hook_names(hooks@), name@, 0) is None,
        },
{
    let ghost names = hook_names(hooks@);
    let n = hooks.len();
    let mut j: usize = 0;
    while j < n
        invariant
            j <= n,
            n == hooks@.len(),
            names == hook_names(hooks@),
            spec_find_name(names, name@, 0) == spec_find_name(names, name@, j as int),
        decreases n - j,
    {
        assert(names[j as int] == hooks@[j as int].name@);
        if crate::bytes::bytes_eq(hooks[j].name.as_slice(), name.as_slice()) {
            return Some(j);
        }
        j = j + 1;
    }
    None
}

/// The abstract value of an optional byte string.
pub open spec fn opt_bytes_view(o: Option<Vec<u8>>) -> Option<Seq<u8>> {
    match o {
        Some(v) => Some(v@),
        None => None,
    }
}

/// Builds the shim plan for a configuration against the target's real
/// export list. Fails when no library is named, when a hook names a symbol
/// the target does not export, or when two hooks claim one export; the
/// error names the offending hook. On success the plan covers every real
/// export, each with exactly the mechanism [`spec_mechanism`] assigns its
/// name.
#[verifier::loop_isolation(false)]
pub fn shim(config: &Config, exports: &Vec<Vec<u8>>) -> (r: Result<ShimPlan, BuildError>)
    ensures
        match r {
            Ok(plan) => {
                &&& config@.library is Some
                &&& spec_hook_fault(exports.deep_view(), spec_cfg_hooks(config@), 0) is None
                &&& config@.library == Some(plan.library@)
                &&& opt_bytes_view(plan.load) == config@.load
                &&& opt_bytes_view(plan.unload) == config@.unload
                &&& plan.exports.deep_view() == exports.deep_view()
                &&& hook_names(plan.hooks@) == spec_cfg_hooks(config@)
                &&& plan.mechanisms@.len() == exports@.len()
                &&& forall|i: int|
                    0 <= i < exports@.len() ==> plan.mechanisms@[i] == spec_mechanism(
                        config@,
                        spec_cfg_hooks(config@),
                        exports.deep_view()[i],
                    )
            },
            Err(e) => {
                if config@.library is None {
                    e@ == BuildErrorView::NoLibrary
                } else {
                    Some(e@) == spec_hook_fault(exports.deep_view(), spec_cfg_hooks(config@), 0)
                }
            },
        },
{
    let lib = match &config.library {
        None => {
            return Err(BuildError::NoLibrary);
        },
        Some(l) => crate::bytes::copy_bytes(l),
    };
    let hooks: Vec<HookDecl> = match &config.hooks {
        None => Vec::new(),
        Some(h) => crate::config::copy_hooks(h),
    };
    proof {
        assert(hook_names(hooks@) =~~= spec_cfg_hooks(config@));
    }
    let ghost hnames = hook_names(hooks@);
    let ghost evs = exports.deep_view();
    let nh = hooks.len();
    let mut i: usize = 0;
    while i < nh
        invariant
            i <= nh,
            spec_hook_fault(evs, hnames, 0) == spec_hook_fault(evs, hnames, i as int),
        decreases nh - i,
    {
        assert(hnames[i as int] == hooks@[i as int].name@);
        if !crate::config::contains_name(exports, &hooks[i].name) {
            return Err(BuildError::HookNotExported(crate::bytes::copy_bytes(&hooks[i].name)));
        }
        if name_in_prefix(&hooks, i, &hooks[i].name) {
            return Err(BuildError::DuplicateHook(crate::bytes::copy_bytes(&hooks[i].name)));
        }
        i = i + 1;
    }
    let ne = exports.len();
    let mut mechanisms: Vec<Mechanism> = Vec::new();
    let mut k: usize = 0;
    while k < ne
        invariant
            k <= ne,
            mechanisms@.len() == k,
            forall|j: int|
                0 <= j < k ==> mechanisms@[j] == spec_mechanism(config@, hnames, evs[j]),
        decreases ne - k,
    {
        assert(evs[k as int] == exports@[k as int]@);
        let m = match find_hook(&hooks, &exports[k]) {
            Some(h) => Mechanism::Hook(h),
            None => {
                if config.passes_filter(&exports[k]) {
                    Mechanism::Trampoline
                } else {
                    Mechanism::Omitted
                }
            },
        };
        mechanisms.push(m);
        k = k + 1;
    }
    let load = match &config.load {
        None => None,
        Some(v) => Some(crate::bytes::copy_bytes(v)),
    };
    let unload = match &config.unload {
        None => None,
        Some(v) => Some(crate::bytes::copy_bytes(v)),
    };
    let plan_exports = crate::config::copy_names(exports);
    Ok(ShimPlan { library: lib, load, unload, exports: plan_exports, hooks, mechanisms })
}

} // verus!
