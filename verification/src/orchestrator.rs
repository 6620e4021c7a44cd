//! Load/unload orchestrator.
//!
//! The shim may serve an exported call only after the real library has been
//! loaded and every address slot filled. The orchestrator sequences that:
//! `Unloaded -> Loading -> Loaded -> Unloaded`. The attach signal (or the
//! winning thread of a first-use guard) drives `begin_load`, `fill_slots`
//! and — after the optional user load callback has run — `complete_load`;
//! the detach signal drives `detach`. A load attempt on an orchestrator
//! that has already left `Unloaded` is a no-op, so racing first uses all
//! observe the one winning execution.
//!
//! The type is generic over the handle of the mapped real library, an
//! ownership token the surrounding program obtains; the orchestrator holds
//! the only one for as long as the library is loaded.
use vstd::prelude::*;

use crate::slots::{all_resolved, spec_get, SlotTable};

verus! {

/// The orchestrator's phase.
#[derive(Clone, Copy, Debug, PartialEq, Eq, Structural)]
pub enum LoadState {
    /// No slot filled; no exported call may be served.
    Unloaded,
    /// The real library is mapped and slots are being filled.
    Loading,
    /// Every slot resolved; exported calls may be served.
    Loaded,
}

/// Why the loading transition aborted.
#[derive(Clone, Copy, Debug, PartialEq, Eq, Structural)]
pub enum LoadError {
    /// The export at this index failed address lookup; the shim must not
    /// pretend to be ready.
    MissingExport(usize),
}

/// True when the lookup of every export produced a usable (non-sentinel)
/// address.
pub open spec fn spec_resolution_ok(res: Seq<Option<u64>>) -> bool {
    forall|i: int| 0 <= i < res.len() ==> res[i] is Some && res[i]->0 != 0
}

/// The first export index whose lookup failed.
pub open spec fn spec_first_missing(res: Seq<Option<u64>>, i: int) -> int
    decreases res.len() - i,
{
    if i < 0 || i >= res.len() {
        i
    } else if res[i] is Some && res[i]->0 != 0 {
        spec_first_missing(res, i + 1)
    } else {
        i
    }
}

/// The slot contents a resolution yields.
pub open spec fn spec_addresses(res: Seq<Option<u64>>) -> Seq<u64> {
    Seq::new(res.len(), |i: int| res[i]->0)
}

/// The one-shot load transition: a loser (any state but `Unloaded`)
/// changes nothing; a winner either resolves every slot and reaches
/// `Loaded`, or aborts back to `Unloaded` with every slot unresolved.
pub open spec fn spec_load_step(
    state: LoadState,
    table: Seq<u64>,
    res: Seq<Option<u64>>,
) -> (LoadState, Seq<u64>) {
    if state != LoadState::Unloaded {
        (state, table)
    } else if spec_resolution_ok(res) {
        (LoadState::Loaded, spec_addresses(res))
    } else {
        (LoadState::Unloaded, Seq::new(table.len(), |i: int| 0u64))
    }
}

/// The load/unload orchestrator, owner of the address slot table and of
/// the real library's handle.
pub struct Orchestrator<H> {
    state: LoadState,
    slots: SlotTable,
    handle: Option<H>,
}

impl<H> Orchestrator<H> {
    /// The current phase.
    pub closed spec fn state(&self) -> LoadState {
        self.state
    }

    /// The slot table's contents.
    pub closed spec fn table(&self) -> Seq<u64> {
        self.slots@
    }

    /// Whether the orchestrator holds the library handle.
    pub closed spec fn has_handle(&self) -> bool {
        self.handle is Some
    }

    /// The orchestrator's invariant: once `Loaded`, every slot is resolved
    /// and the handle is held; the handle exists exactly while the library
    /// is mapped.
    pub open spec fn wf(&self) -> bool {
        &&& (self.state() == LoadState::Loaded ==> all_resolved(self.table()) && self.has_handle())
        &&& (self.state() == LoadState::Loading ==> self.has_handle())
        &&& (self.state() == LoadState::Unloaded ==> !self.has_handle())
    }

    /// A fresh orchestrator with one unresolved slot per export.
    pub fn new(export_count: usize) -> (r: Orchestrator<H>)
        ensures
            r.wf(),
            r.state() == LoadState::Unloaded,
            r.table().len() == export_count,
            forall|i: int| 0 <= i < export_count ==> r.table()[i] == 0,
    {
        Orchestrator { state: LoadState::Unloaded, slots: SlotTable::new(export_count), handle: None }
    }

    /// Number of slots, fixed at construction.
    pub fn export_count(&self) -> (n: usize)
        ensures
            n == self.table().len(),
    {
        self.slots.len()
    }

    /// Takes the mapped library's handle and enters `Loading`; exactly one
    /// concurrent first use wins. A call in any state but `Unloaded` is a
    /// no-op that discards the redundant handle.
    pub fn begin_load(&mut self, handle: H) -> (won: bool)
        requires
            old(self).wf(),
        ensures
            final(self).wf(),
            won == (old(self).state() == LoadState::Unloaded),
            final(self).table() == old(self).table(),
            final(self).state() == if won {
                LoadState::Loading
            } else {
                old(self).state()
            },
    {
        match self.state {
            LoadState::Unloaded => {
                self.handle = Some(handle);
                self.state = LoadState::Loading;
                true
            },
            _ => false,
        }
    }

    /// Writes the looked-up address of every export into its slot. If any
    /// export failed lookup, the transition aborts: the orchestrator
    /// returns to `Unloaded` with every slot unresolved and the handle
    /// released, and reports the first missing export.
    pub fn fill_slots(&mut self, resolution: &Vec<Option<u64>>) -> (r: Result<(), LoadError>)
        requires
            old(self).wf(),
            old(self).state() == LoadState::Loading,
            resolution@.len() == old(self).table().len(),
        ensures
            final(self).wf(),
            final(self).table().len() == old(self).table().len(),
            match r {
                Ok(()) => {
                    &&& spec_resolution_ok(resolution@)
                    &&& final(self).state() == LoadState::Loading
                    &&& final(self).table() == spec_addresses(resolution@)
                    &&& final(self).has_handle()
                },
                Err(LoadError::MissingExport(i)) => {
                    &&& !spec_resolution_ok(resolution@)
                    &&& i == spec_first_missing(resolution@, 0)
                    &&& final(self).state() == LoadState::Unloaded
                    &&& forall|j: int|
                        0 <= j < final(self).table().len() ==> final(self).table()[j] == 0
                },
            },
    {
        let n = resolution.len();
        let mut i: usize = 0;
        while i < n
            invariant
                i <= n,
                n == resolution@.len(),
                n == old(self).table().len(),
                self.state == old(self).state,
                self.handle == old(self).handle,
                self.slots@ == old(self).slots@,
                spec_first_missing(resolution@, 0) == spec_first_missing(resolution@, i as int),
                forall|j: int|
                    0 <= j < i ==> resolution@[j] is Some && resolution@[j]->0 != 0,
            decreases n - i,
        {
            let ok = match resolution[i] {
                Some(a) => a != 0,
                None => false,
            };
            if !ok {
                self.slots = SlotTable::new(n);
                self.handle = None;
                self.state = LoadState::Unloaded;
                return Err(LoadError::MissingExport(i));
            }
            i = i + 1;
        }
        let mut k: usize = 0;
        while k < n
            invariant
                k <= n,
                n == resolution@.len(),
                n == self.slots@.len(),
                self.state == old(self).state,
                self.handle == old(self).handle,
                spec_resolution_ok(resolution@),
                forall|j: int| 0 <= j < k ==> self.slots@[j] == resolution@[j]->0,
            decreases n - k,
        {
            let a = match resolution[k] {
                Some(a) => a,
                None => 1,
            };
            self.slots.set(k, a);
            k = k + 1;
        }
        proof {
            assert(self.slots@ =~= spec_addresses(resolution@));
        }
        Ok(())
    }

    /// Enters `Loaded`. Runs only after every slot is filled and the
    /// optional user load callback has returned: only then does the shim
    /// consider itself ready to serve exported calls.
    pub fn complete_load(&mut self)
        requires
            old(self).wf(),
            old(self).state() == LoadState::Loading,
            all_resolved(old(self).table()),
        ensures
            final(self).wf(),
            final(self).state() == LoadState::Loaded,
            final(self).table() == old(self).table(),
            final(self).has_handle(),
    {
        self.state = LoadState::Loaded;
    }

    /// The whole load transition under the at-most-once guard: a no-op in
    /// any state but `Unloaded` (the redundant handle is discarded), else
    /// fills every slot from the resolution and reaches `Loaded`, or
    /// aborts. Returns whether this call performed the load.
    pub fn load(&mut self, handle: H, resolution: &Vec<Option<u64>>) -> (r: Result<
        bool,
        LoadError,
    >)
        requires
            old(self).wf(),
            resolution@.len() == old(self).table().len(),
        ensures
            final(self).wf(),
            final(self).table().len() == old(self).table().len(),
            (final(self).state(), final(self).table()) == spec_load_step(
                old(self).state(),
                old(self).table(),
                resolution@,
            ),
            match r {
                Ok(performed) => performed == (old(self).state() == LoadState::Unloaded
                    && spec_resolution_ok(resolution@)),
                Err(LoadError::MissingExport(i)) => {
                    &&& old(self).state() == LoadState::Unloaded
                    &&& !spec_resolution_ok(resolution@)
                    &&& i == spec_first_missing(resolution@, 0)
                },
            },
    {
        if !self.begin_load(handle) {
            return Ok(false);
        }
        match self.fill_slots(resolution) {
            Ok(()) => {
                self.complete_load();
                Ok(true)
            },
            Err(e) => Err(e),
        }
    }

    /// Reads the address slot of export `i`. Callable only once `Loaded`
    /// — the happens-before guarantee that makes slot reads race-free —
    /// and then always yields the resolved, non-sentinel address.
    pub fn get(&self, i: usize) -> (r: Option<u64>)
        requires
            self.wf(),
            self.state() == LoadState::Loaded,
            i < self.table().len(),
        ensures
            r == spec_get(self.table(), i as int),
            r is Some,
            r->0 == self.table()[i as int] && r->0 != 0,
    {
        self.slots.get(i)
    }

    /// Leaves `Loaded` on the detach signal, after the optional user
    /// unload callback: hands the library handle back for release. In any
    /// other state it is a no-op.
    pub fn detach(&mut self) -> (h: Option<H>)
        requires
            old(self).wf(),
        ensures
            final(self).wf(),
            final(self).table() == old(self).table(),
            if old(self).state() == LoadState::Loaded {
                h is Some && final(self).state() == LoadState::Unloaded
                    && !final(self).has_handle()
            } else {
                h is None && *final(self) == *old(self)
            },
    {
        match self.state {
            LoadState::Loaded => {
                self.state = LoadState::Unloaded;
                let h = self.handle.take();
                h
            },
            _ => None,
        }
    }
}

/// After `Loaded`, the slot of every export holds exactly the address its
/// load-time lookup returned, and reading it yields that address, never
/// the sentinel.
pub proof fn lemma_loaded_get_matches_resolution(res: Seq<Option<u64>>, i: int)
    requires
        spec_resolution_ok(res),
        0 <= i < res.len(),
    ensures
        spec_get(spec_addresses(res), i) == res[i],
        spec_addresses(res)[i] != 0,
{
}

/// The load transition is idempotent: once a load step has run on an
/// unloaded orchestrator, every later load attempt — whatever resolution a
/// racing thread brings — changes neither the state nor the slot table, so
/// all racers observe one load execution and identical slot contents.
pub proof fn lemma_load_idempotent(
    table: Seq<u64>,
    res: Seq<Option<u64>>,
    res2: Seq<Option<u64>>,
)
    requires
        spec_resolution_ok(res),
    ensures
        ({
            let first = spec_load_step(LoadState::Unloaded, table, res);
            spec_load_step(first.0, first.1, res2) == first
        }),
{
}

/// The steps of a whole race: attempt `i` and onwards, applied in turn.
pub open spec fn spec_load_race(
    state: LoadState,
    table: Seq<u64>,
    attempts: Seq<Seq<Option<u64>>>,
    i: int,
) -> (LoadState, Seq<u64>)
    decreases attempts.len() - i,
{
    if i < 0 || i >= attempts.len() {
        (state, table)
    } else {
        let next = spec_load_step(state, table, attempts[i]);
        spec_load_race(next.0, next.1, attempts, i + 1)
    }
}

/// In a race of any number of load attempts, the first winning attempt
/// decides the final state and slot table: everything after it is a no-op.
pub proof fn lemma_first_load_wins(
    table: Seq<u64>,
    attempts: Seq<Seq<Option<u64>>>,
    i: int,
)
    requires
        0 <= i < attempts.len(),
        spec_resolution_ok(attempts[i]),
        forall|j: int| 0 <= j < i ==> !spec_resolution_ok(attempts[j]),
    ensures
        spec_load_race(LoadState::Unloaded, table, attempts, 0) == spec_load_step(
            LoadState::Unloaded,
            spec_load_race(LoadState::Unloaded, table, attempts, 0).1,
            attempts[i],
        ),
        spec_load_race(LoadState::Unloaded, table, attempts, 0).0 == LoadState::Loaded,
        spec_load_race(LoadState::Unloaded, table, attempts, 0).1 == spec_addresses(attempts[i]),
{
    lemma_race_reaches_winner(table, attempts, 0, i);
}

/// Helper induction: from any point before the winning attempt the race
/// ends `Loaded` with the winner's addresses; from `Loaded` nothing moves.
proof fn lemma_race_reaches_winner(
    table: Seq<u64>,
    attempts: Seq<Seq<Option<u64>>>,
    k: int,
    i: int,
)
    requires
        0 <= k <= i < attempts.len(),
        spec_resolution_ok(attempts[i]),
        forall|j: int| k <= j < i ==> !spec_resolution_ok(attempts[j]),
    ensures
        spec_load_race(LoadState::Unloaded, table, attempts, k).0 == LoadState::Loaded,
        spec_load_race(LoadState::Unloaded, table, attempts, k).1 == spec_addresses(attempts[i]),
    decreases i - k,
{
    if k == i {
        lemma_race_absorbs(spec_addresses(attempts[i]), attempts, i + 1);
    } else {
        let next = spec_load_step(LoadState::Unloaded, table, attempts[k]);
        lemma_race_reaches_winner(next.1, attempts, k + 1, i);
    }
}

/// Once `Loaded`, the rest of the race changes nothing.
proof fn lemma_race_absorbs(table: Seq<u64>, attempts: Seq<Seq<Option<u64>>>, k: int)
    ensures
        spec_load_race(LoadState::Loaded, table, attempts, k) == (LoadState::Loaded, table),
    decreases attempts.len() - k,
{
    if 0 <= k < attempts.len() {
        lemma_race_absorbs(table, attempts, k + 1);
    }
}

} // verus!
