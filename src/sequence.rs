//! Properties of the sequence that one process's writes commit when they run
//! one after another under that process's lock, and of writes to distinct
//! processes.
use vstd::prelude::*;
use crate::hash::{next_link, seed_link};
use crate::schedule::{later, prepare_spec, ScheduleError, ScheduleView};
use crate::tags::ItemKind;

verus! {

/// The committed cursors that the `i`-th write of a process's sequence sees:
/// those of `start`, with the cursor of the previous write committed.
pub open spec fn cursors_before(
    start: Map<Seq<char>, ScheduleView>,
    process_id: Seq<char>,
    snaps: Seq<ScheduleView>,
    i: int,
) -> Map<Seq<char>, ScheduleView> {
    if i == 0 {
        start
    } else {
        start.insert(process_id, snaps[i - 1])
    }
}

/// The kind of the `i`-th write of a process's sequence: first its creation,
/// then messages.
pub open spec fn kind_at(i: int) -> ItemKind {
    if i == 0 {
        ItemKind::Process
    } else {
        ItemKind::Message
    }
}

/// `snaps` is what a process unknown to `start` commits when its creation item
/// `ids[0]` and then the messages `ids[1..]` are written one after another at
/// clock readings `nows`, each write preparing its cursor from the committed
/// cursors and committing it before the next one starts.
pub open spec fn serial_run(
    start: Map<Seq<char>, ScheduleView>,
    process_id: Seq<char>,
    epoch: Seq<char>,
    ids: Seq<Seq<char>>,
    nows: Seq<nat>,
    snaps: Seq<ScheduleView>,
) -> bool {
    &&& !start.contains_key(process_id)
    &&& ids.len() == snaps.len()
    &&& nows.len() == snaps.len()
    &&& forall|i: int| 0 <= i < snaps.len() ==> prepare_spec(
        cursors_before(start, process_id, snaps, i),
        kind_at(i),
        process_id,
        ids[i],
        epoch,
        nows[i],
    ) == Ok::<ScheduleView, ScheduleError>(#[trigger] snaps[i])
}

proof fn lemma_run_step(
    start: Map<Seq<char>, ScheduleView>,
    process_id: Seq<char>,
    epoch: Seq<char>,
    ids: Seq<Seq<char>>,
    nows: Seq<nat>,
    snaps: Seq<ScheduleView>,
    k: int,
)
    requires
        serial_run(start, process_id, epoch, ids, nows, snaps),
        0 <= k < snaps.len(),
    ensures
        snaps[k].nonce == k,
        snaps[k].process_id == process_id,
        snaps[k].epoch == epoch,
    decreases k,
{
    let _ = snaps[k];
    if k > 0 {
        lemma_run_step(start, process_id, epoch, ids, nows, snaps, k - 1);
        assert(cursors_before(start, process_id, snaps, k)[process_id] == snaps[k - 1]);
    }
}

/// The writes of one process commit the nonces `0, 1, ..., n - 1` in order,
/// the creation counted: no gap and no repetition.
pub proof fn lemma_nonces_gap_free(
    start: Map<Seq<char>, ScheduleView>,
    process_id: Seq<char>,
    epoch: Seq<char>,
    ids: Seq<Seq<char>>,
    nows: Seq<nat>,
    snaps: Seq<ScheduleView>,
)
    requires
        serial_run(start, process_id, epoch, ids, nows, snaps),
    ensures
        forall|i: int| 0 <= i < snaps.len() ==> (#[trigger] snaps[i]).nonce == i,
        forall|i: int, j: int|
            0 <= i < snaps.len() && 0 <= j < snaps.len() && i != j
                ==> (#[trigger] snaps[i]).nonce != (#[trigger] snaps[j]).nonce,
{
    assert forall|i: int| 0 <= i < snaps.len() implies (#[trigger] snaps[i]).nonce == i by {
        lemma_run_step(start, process_id, epoch, ids, nows, snaps, i);
    }
}

/// The first link of a process's chain is the digest of its id, and every
/// later link is the digest of the decoded previous link followed by the
/// item's id.
pub proof fn lemma_hash_chain_linked(
    start: Map<Seq<char>, ScheduleView>,
    process_id: Seq<char>,
    epoch: Seq<char>,
    ids: Seq<Seq<char>>,
    nows: Seq<nat>,
    snaps: Seq<ScheduleView>,
)
    requires
        serial_run(start, process_id, epoch, ids, nows, snaps),
    ensures
        snaps.len() > 0 ==> snaps[0].hash_chain == seed_link(process_id),
        forall|i: int| 0 < i < snaps.len()
            ==> next_link(snaps[i - 1].hash_chain, ids[i]) == Some((#[trigger] snaps[i]).hash_chain),
{
    if snaps.len() > 0 {
        let _ = snaps[0];
    }
    assert forall|i: int| 0 < i < snaps.len()
        implies next_link(snaps[i - 1].hash_chain, ids[i]) == Some((#[trigger] snaps[i]).hash_chain) by {
        assert(cursors_before(start, process_id, snaps, i)[process_id] == snaps[i - 1]);
    }
}

/// Timestamps never decrease along a process's sequence, whatever the clock
/// readings: each is the later of the clock and the previous timestamp.
pub proof fn lemma_timestamps_monotone(
    start: Map<Seq<char>, ScheduleView>,
    process_id: Seq<char>,
    epoch: Seq<char>,
    ids: Seq<Seq<char>>,
    nows: Seq<nat>,
    snaps: Seq<ScheduleView>,
)
    requires
        serial_run(start, process_id, epoch, ids, nows, snaps),
    ensures
        forall|i: int| 0 < i < snaps.len()
            ==> (#[trigger] snaps[i]).timestamp == later(nows[i], snaps[i - 1].timestamp),
        forall|i: int| 0 < i < snaps.len()
            ==> (#[trigger] snaps[i]).timestamp >= snaps[i - 1].timestamp,
{
    assert forall|i: int| 0 < i < snaps.len()
        implies (#[trigger] snaps[i]).timestamp == later(nows[i], snaps[i - 1].timestamp) by {
        assert(cursors_before(start, process_id, snaps, i)[process_id] == snaps[i - 1]);
    }
}

/// Writes to distinct processes do not interact: what a write prepares for
/// process `key` depends on that process's committed cursor alone, and
/// committing a cursor of another process `other` leaves it unchanged.
pub proof fn lemma_processes_independent(
    cursors: Map<Seq<char>, ScheduleView>,
    other: Seq<char>,
    other_cursor: ScheduleView,
    kind: ItemKind,
    key: Seq<char>,
    item_id: Seq<char>,
    epoch: Seq<char>,
    now: nat,
)
    requires
        other != key,
    ensures
        prepare_spec(cursors.insert(other, other_cursor), kind, key, item_id, epoch, now)
            == prepare_spec(cursors, kind, key, item_id, epoch, now),
        cursors.insert(other, other_cursor).contains_key(key) == cursors.contains_key(key),
        cursors.contains_key(key) ==> cursors.insert(other, other_cursor)[key] == cursors[key],
{
}

} // verus!
