//! Per-process schedule cursors: computing the next snapshot of a process's
//! `(epoch, nonce, hash_chain, timestamp)` and keeping the committed cursor of
//! every known process.
use vstd::prelude::*;
use crate::hash::{hash_step, next_link, seed_hash_chain, seed_link};
use crate::tags::ItemKind;

verus! {

/// The cursor of one process: the coordinates of its latest accepted item.
pub struct ScheduleState {
    pub process_id: String,
    pub epoch: String,
    pub nonce: u64,
    pub hash_chain: String,
    pub timestamp: u64,
}

/// A schedule cursor as plain values.
pub struct ScheduleView {
    pub process_id: Seq<char>,
    pub epoch: Seq<char>,
    pub nonce: nat,
    pub hash_chain: Seq<char>,
    pub timestamp: nat,
}

impl View for ScheduleState {
    type V = ScheduleView;

    open spec fn view(&self) -> ScheduleView {
        ScheduleView {
            process_id: self.process_id@,
            epoch: self.epoch@,
            nonce: self.nonce as nat,
            hash_chain: self.hash_chain@,
            timestamp: self.timestamp as nat,
        }
    }
}

/// Why a schedule could not be advanced.
#[derive(PartialEq, Eq, Structural, Clone, Copy, Debug)]
pub enum ScheduleError {
    /// A message names a process that has no cursor.
    UnknownProcess,
    /// A process creation names a process that already has a cursor.
    ProcessExists,
    /// The nonce cannot grow any further.
    ScheduleExhausted,
    /// The stored hash chain is not valid URL-safe base64.
    Internal,
}

/// The largest `u64`.
pub open spec fn nonce_limit() -> nat {
    0xffff_ffff_ffff_ffff
}

/// The larger of two timestamps.
pub open spec fn later(a: nat, b: nat) -> nat {
    if a >= b { a } else { b }
}

/// The cursor of a process right after its creation item.
pub open spec fn first_view(process_id: Seq<char>, epoch: Seq<char>, now: nat) -> ScheduleView {
    ScheduleView {
        process_id,
        epoch,
        nonce: 0,
        hash_chain: seed_link(process_id),
        timestamp: now,
    }
}

/// The cursor after `state` once the item `item_id` is accepted at clock
/// reading `now`.
pub open spec fn next_view(state: ScheduleView, item_id: Seq<char>, now: nat) -> Result<ScheduleView, ScheduleError> {
    if state.nonce >= nonce_limit() {
        Err(ScheduleError::ScheduleExhausted)
    } else {
        match next_link(state.hash_chain, item_id) {
            None => Err(ScheduleError::Internal),
            Some(link) => Ok(ScheduleView {
                process_id: state.process_id,
                epoch: state.epoch,
                nonce: state.nonce + 1,
                hash_chain: link,
                timestamp: later(now, state.timestamp),
            }),
        }
    }
}

/// The cursor of a process created now: nonce zero, the chain seeded from
/// the process id, the timestamp `now`.
pub fn first_snapshot(process_id: &String, epoch: &String, now: u64) -> (r: ScheduleState)
    ensures
        r@ == first_view(process_id@, epoch@, now as nat),
{
    ScheduleState {
        process_id: process_id.clone(),
        epoch: epoch.clone(),
        nonce: 0,
        hash_chain: seed_hash_chain(process_id.as_str()),
        timestamp: now,
    }
}

/// The cursor after `state` once an item is accepted at clock reading `now`,
/// given the item's link `link`: the nonce grows by one and the timestamp
/// never goes below the previous one. Fails only where the nonce is spent.
pub fn advance_cursor(state: &ScheduleState, link: String, now: u64) -> (r: Result<ScheduleState, ScheduleError>)
    ensures
        r is Err <==> state.nonce == u64::MAX,
        r matches Err(e) ==> e == ScheduleError::ScheduleExhausted,
        r matches Ok(s) ==> s@ == (ScheduleView {
            process_id: state.process_id@,
            epoch: state.epoch@,
            nonce: state.nonce as nat + 1,
            hash_chain: link@,
            timestamp: later(now as nat, state.timestamp as nat),
        }),
{
    if state.nonce == u64::MAX {
        return Err(ScheduleError::ScheduleExhausted);
    }
    let timestamp: u64 = if now >= state.timestamp { now } else { state.timestamp };
    Ok(ScheduleState {
        process_id: state.process_id.clone(),
        epoch: state.epoch.clone(),
        nonce: state.nonce + 1,
        hash_chain: link,
        timestamp,
    })
}

/// The cursor after `state` for the item `item_id` at clock reading `now`:
/// the nonce grows by one, the chain takes one step over the id, and the
/// timestamp never goes below the previous one.
pub fn next_snapshot(state: &ScheduleState, item_id: &String, now: u64) -> (r: Result<ScheduleState, ScheduleError>)
    ensures
        match (r, next_view(state@, item_id@, now as nat)) {
            (Ok(s), Ok(v)) => s@ == v,
            (Err(e), Err(f)) => e == f,
            _ => false,
        },
{
    if state.nonce == u64::MAX {
        return Err(ScheduleError::ScheduleExhausted);
    }
    match hash_step(state.hash_chain.as_str(), item_id.as_str()) {
        None => Err(ScheduleError::Internal),
        Some(link) => advance_cursor(state, link, now),
    }
}

/// The cursors of `states`, keyed by process id (a later entry wins).
pub open spec fn cursor_map(states: Seq<ScheduleState>) -> Map<Seq<char>, ScheduleView>
    decreases states.len(),
{
    if states.len() == 0 {
        Map::empty()
    } else {
        cursor_map(states.drop_last()).insert(states.last().process_id@, states.last()@)
    }
}

/// No two entries of `states` share a process id.
pub open spec fn ids_unique(states: Seq<ScheduleState>) -> bool {
    forall|i: int, j: int|
        0 <= i < states.len() && 0 <= j < states.len() && i != j
            ==> (#[trigger] states[i]).process_id@ != (#[trigger] states[j]).process_id@
}

proof fn lemma_cursor_map_absent(states: Seq<ScheduleState>, key: Seq<char>)
    requires
        forall|i: int| 0 <= i < states.len() ==> (#[trigger] states[i]).process_id@ != key,
    ensures
        !cursor_map(states).contains_key(key),
    decreases states.len(),
{
    if states.len() > 0 {
        let init = states.drop_last();
        assert forall|i: int| 0 <= i < init.len() implies (#[trigger] init[i]).process_id@ != key by {
            assert(init[i] == states[i]);
        }
        lemma_cursor_map_absent(init, key);
    }
}

proof fn lemma_cursor_map_index(states: Seq<ScheduleState>, i: int)
    requires
        ids_unique(states),
        0 <= i < states.len(),
    ensures
        cursor_map(states).contains_key(states[i].process_id@),
        cursor_map(states)[states[i].process_id@] == states[i]@,
    decreases states.len(),
{
    if i < states.len() - 1 {
        let init = states.drop_last();
        assert forall|a: int, b: int|
            0 <= a < init.len() && 0 <= b < init.len() && a != b
                implies (#[trigger] init[a]).process_id@ != (#[trigger] init[b]).process_id@ by {
            assert(init[a] == states[a] && init[b] == states[b]);
        }
        assert(init[i] == states[i]);
        assert(states[i].process_id@ != states[states.len() - 1].process_id@);
        lemma_cursor_map_index(init, i);
    }
}

proof fn lemma_cursor_map_update(states: Seq<ScheduleState>, i: int, x: ScheduleState)
    requires
        ids_unique(states),
        0 <= i < states.len(),
        x.process_id@ == states[i].process_id@,
    ensures
        ids_unique(states.update(i, x)),
        cursor_map(states.update(i, x)) =~= cursor_map(states).insert(x.process_id@, x@),
    decreases states.len(),
{
    let new = states.update(i, x);
    assert forall|a: int, b: int|
        0 <= a < new.len() && 0 <= b < new.len() && a != b
            implies (#[trigger] new[a]).process_id@ != (#[trigger] new[b]).process_id@ by {
        assert(new[a].process_id@ == states[a].process_id@);
        assert(new[b].process_id@ == states[b].process_id@);
    }
    let init = states.drop_last();
    assert forall|a: int, b: int|
        0 <= a < init.len() && 0 <= b < init.len() && a != b
            implies (#[trigger] init[a]).process_id@ != (#[trigger] init[b]).process_id@ by {
        assert(init[a] == states[a] && init[b] == states[b]);
    }
    if i == states.len() - 1 {
        assert(new.drop_last() =~= init);
        assert forall|a: int| 0 <= a < init.len() implies (#[trigger] init[a]).process_id@ != x.process_id@ by {
            assert(init[a] == states[a]);
        }
        lemma_cursor_map_absent(init, x.process_id@);
    } else {
        assert(new.drop_last() =~= init.update(i, x));
        assert(init[i] == states[i]);
        lemma_cursor_map_update(init, i, x);
        assert(states.last().process_id@ != x.process_id@);
    }
}

/// The committed cursor of every known process.
pub struct ProcessScheduler {
    states: Vec<ScheduleState>,
}

/// The cursor that the write of an item of kind `kind` for process `key`
/// would commit, given the committed cursors `cursors`.
pub open spec fn prepare_spec(
    cursors: Map<Seq<char>, ScheduleView>,
    kind: ItemKind,
    key: Seq<char>,
    item_id: Seq<char>,
    epoch: Seq<char>,
    now: nat,
) -> Result<ScheduleView, ScheduleError> {
    match kind {
        ItemKind::Process => if cursors.contains_key(key) {
            Err(ScheduleError::ProcessExists)
        } else {
            Ok(first_view(key, epoch, now))
        },
        ItemKind::Message => if !cursors.contains_key(key) {
            Err(ScheduleError::UnknownProcess)
        } else {
            next_view(cursors[key], item_id, now)
        },
    }
}

impl View for ProcessScheduler {
    type V = Map<Seq<char>, ScheduleView>;

    closed spec fn view(&self) -> Map<Seq<char>, ScheduleView> {
        cursor_map(self.states@)
    }
}

impl ProcessScheduler {
    /// Every process has one cursor.
    pub closed spec fn wf(&self) -> bool {
        ids_unique(self.states@)
    }

    /// A scheduler that knows no process.
    pub fn new() -> (r: ProcessScheduler)
        ensures
            r.wf(),
            r@ == Map::<Seq<char>, ScheduleView>::empty(),
    {
        ProcessScheduler { states: Vec::new() }
    }

    fn position(&self, process_id: &String) -> (r: Option<usize>)
        requires
            self.wf(),
        ensures
            r matches Some(i) ==> i < self.states@.len() && self.states@[i as int].process_id@ == process_id@,
            r is None ==> forall|i: int| 0 <= i < self.states@.len() ==> (#[trigger] self.states@[i]).process_id@ != process_id@,
    {
        let mut i: usize = 0;
        while i < self.states.len()
            invariant
                0 <= i <= self.states@.len(),
                forall|j: int| 0 <= j < i ==> (#[trigger] self.states@[j]).process_id@ != process_id@,
            decreases self.states@.len() - i,
        {
            if self.states[i].process_id == *process_id {
                return Some(i);
            }
            i = i + 1;
        }
        None
    }

    /// The committed cursor of `process_id`, if the process is known.
    pub fn cursor(&self, process_id: &String) -> (r: Option<&ScheduleState>)
        requires
            self.wf(),
        ensures
            r matches Some(s) ==> self@.contains_key(process_id@) && self@[process_id@] == s@
                && s.process_id@ == process_id@,
            r is None ==> !self@.contains_key(process_id@),
    {
        match self.position(process_id) {
            Some(i) => {
                proof { lemma_cursor_map_index(self.states@, i as int); }
                Some(&self.states[i])
            },
            None => {
                proof { lemma_cursor_map_absent(self.states@, process_id@); }
                None
            },
        }
    }

    /// The cursor that writing the item `item_id` of kind `kind` for process
    /// `key` at clock reading `now` would commit: a creation starts a new
    /// sequence in `epoch`, a message advances the process's cursor. Nothing
    /// changes until [`ProcessScheduler::commit`].
    pub fn prepare(&self, kind: ItemKind, key: &String, item_id: &String, epoch: &String, now: u64) -> (r: Result<ScheduleState, ScheduleError>)
        requires
            self.wf(),
        ensures
            match (r, prepare_spec(self@, kind, key@, item_id@, epoch@, now as nat)) {
                (Ok(s), Ok(v)) => s@ == v,
                (Err(e), Err(f)) => e == f,
                _ => false,
            },
            r matches Ok(s) ==> s.process_id@ == key@,
    {
        match kind {
            ItemKind::Process => match self.cursor(key) {
                Some(_) => Err(ScheduleError::ProcessExists),
                None => Ok(first_snapshot(key, epoch, now)),
            },
            ItemKind::Message => match self.cursor(key) {
                None => Err(ScheduleError::UnknownProcess),
                Some(state) => next_snapshot(state, item_id, now),
            },
        }
    }

    /// Makes `snapshot` the committed cursor of its process.
    pub fn commit(&mut self, snapshot: ScheduleState)
        requires
            old(self).wf(),
        ensures
            final(self).wf(),
            final(self)@ == old(self)@.insert(snapshot.process_id@, snapshot@),
    {
        match self.position(&snapshot.process_id) {
            Some(i) => {
                proof { lemma_cursor_map_update(self.states@, i as int, snapshot); }
                self.states.set(i, snapshot);
            },
            None => {
                let ghost pid = snapshot.process_id@;
                let ghost prev = self.states@;
                self.states.push(snapshot);
                proof {
                    assert(self.states@.drop_last() =~= prev);
                    assert forall|a: int, b: int|
                        0 <= a < self.states@.len() && 0 <= b < self.states@.len() && a != b
                            implies (#[trigger] self.states@[a]).process_id@ != (#[trigger] self.states@[b]).process_id@ by {
                        if a < prev.len() && b < prev.len() {
                            assert(self.states@[a] == prev[a] && self.states@[b] == prev[b]);
                        } else if a < prev.len() {
                            assert(self.states@[a] == prev[a]);
                        } else {
                            assert(self.states@[b] == prev[b]);
                        }
                    }
                }
            },
        }
    }
}

} // verus!
