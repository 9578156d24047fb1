//! The decisions of the write pipeline: classify an inbound item, prepare its
//! schedule under its process's lock, and commit only once the built bundle is
//! uploaded and persisted.
use vstd::prelude::*;
use crate::schedule::{prepare_spec, ProcessScheduler, ScheduleError, ScheduleState, ScheduleView};
use crate::tags::{classify, classify_spec, ClassifyError, ItemKind, Tag};

verus! {

/// Why a write failed.
#[derive(PartialEq, Eq, Structural, Clone, Copy, Debug)]
pub enum WriteError {
    /// The item's tags do not say what it is.
    Classification(ClassifyError),
    /// The schedule of the item's process could not be advanced.
    Schedule(ScheduleError),
    /// The bundle could not be built or signed.
    BuildFailed,
    /// The uploader refused the bundle; the write may be retried.
    UploadFailed,
    /// The store refused the bundle; the write may be retried.
    PersistFailed,
}

/// Where a write stands between preparing its cursor and committing it.
#[derive(PartialEq, Eq, Structural, Clone, Copy, Debug)]
pub enum WritePhase {
    Building,
    Uploading,
    Persisting,
    Committable,
    Failed,
}

/// What the caller performs next.
#[derive(PartialEq, Eq, Structural, Clone, Copy, Debug)]
pub enum WriteAction {
    /// Build and sign the bundle, then report whether that succeeded.
    Build,
    /// Upload the built bundle, then report.
    Upload,
    /// Persist the built bundle, then report.
    Persist,
    /// Commit the prepared cursor with [`finish_write`].
    Commit,
    /// Release the lock and fail with the error.
    Abort(WriteError),
    /// The write is over: nothing to do.
    Nothing,
}

/// The process that an item of kind `kind` writes to: a creation names its
/// own process, a message its target.
pub open spec fn write_key(kind: ItemKind, item_id: Seq<char>, target: Seq<char>) -> Seq<char> {
    match kind {
        ItemKind::Process => item_id,
        ItemKind::Message => target,
    }
}

/// The kind and the cursor that a write of an item with tags `tags`, id
/// `item_id` and target `target` prepares at clock reading `now`.
pub open spec fn begin_spec(
    cursors: Map<Seq<char>, ScheduleView>,
    tags: Seq<Tag>,
    item_id: Seq<char>,
    target: Seq<char>,
    epoch: Seq<char>,
    now: nat,
) -> Result<(ItemKind, ScheduleView), WriteError> {
    match classify_spec(tags) {
        Err(e) => Err(WriteError::Classification(e)),
        Ok(kind) => match prepare_spec(cursors, kind, write_key(kind, item_id, target), item_id, epoch, now) {
            Err(e) => Err(WriteError::Schedule(e)),
            Ok(v) => Ok((kind, v)),
        },
    }
}

/// The phase and action after the step of `phase` ended with `succeeded`.
pub open spec fn step_spec(phase: WritePhase, succeeded: bool) -> (WritePhase, WriteAction) {
    match phase {
        WritePhase::Building => if succeeded {
            (WritePhase::Uploading, WriteAction::Upload)
        } else {
            (WritePhase::Failed, WriteAction::Abort(WriteError::BuildFailed))
        },
        WritePhase::Uploading => if succeeded {
            (WritePhase::Persisting, WriteAction::Persist)
        } else {
            (WritePhase::Failed, WriteAction::Abort(WriteError::UploadFailed))
        },
        WritePhase::Persisting => if succeeded {
            (WritePhase::Committable, WriteAction::Commit)
        } else {
            (WritePhase::Failed, WriteAction::Abort(WriteError::PersistFailed))
        },
        WritePhase::Committable => (WritePhase::Committable, WriteAction::Commit),
        WritePhase::Failed => (WritePhase::Failed, WriteAction::Nothing),
    }
}

/// One write under way, holding the cursor it will commit.
pub struct WriteSession {
    kind: ItemKind,
    key: String,
    snapshot: ScheduleState,
    phase: WritePhase,
}

impl WriteSession {
    /// The cursor belongs to the session's process.
    pub closed spec fn wf(&self) -> bool {
        self.snapshot.process_id@ == self.key@
    }

    pub closed spec fn phase_view(&self) -> WritePhase {
        self.phase
    }

    pub closed spec fn kind_view(&self) -> ItemKind {
        self.kind
    }

    pub closed spec fn key_view(&self) -> Seq<char> {
        self.key@
    }

    pub closed spec fn snapshot_view(&self) -> ScheduleView {
        self.snapshot@
    }

    /// What the item is.
    pub fn kind(&self) -> (r: ItemKind)
        ensures
            r == self.kind_view(),
    {
        self.kind
    }

    /// The process the item writes to.
    pub fn key(&self) -> (r: &String)
        ensures
            r@ == self.key_view(),
    {
        &self.key
    }

    /// The cursor this write commits once its bundle is persisted.
    pub fn snapshot(&self) -> (r: &ScheduleState)
        ensures
            r@ == self.snapshot_view(),
    {
        &self.snapshot
    }

    /// Where the write stands.
    pub fn phase(&self) -> (r: WritePhase)
        ensures
            r == self.phase_view(),
    {
        self.phase
    }

    /// Reports the outcome of the step that the previous action asked for and
    /// returns the next action. Only a persisted bundle makes the write
    /// committable; any failure ends it.
    pub fn advance(&mut self, succeeded: bool) -> (r: WriteAction)
        ensures
            (final(self).phase_view(), r) == step_spec(old(self).phase_view(), succeeded),
            final(self).wf() == old(self).wf(),
            final(self).kind_view() == old(self).kind_view(),
            final(self).key_view() == old(self).key_view(),
            final(self).snapshot_view() == old(self).snapshot_view(),
    {
        let (phase, action) = match self.phase {
            WritePhase::Building => if succeeded {
                (WritePhase::Uploading, WriteAction::Upload)
            } else {
                (WritePhase::Failed, WriteAction::Abort(WriteError::BuildFailed))
            },
            WritePhase::Uploading => if succeeded {
                (WritePhase::Persisting, WriteAction::Persist)
            } else {
                (WritePhase::Failed, WriteAction::Abort(WriteError::UploadFailed))
            },
            WritePhase::Persisting => if succeeded {
                (WritePhase::Committable, WriteAction::Commit)
            } else {
                (WritePhase::Failed, WriteAction::Abort(WriteError::PersistFailed))
            },
            WritePhase::Committable => (WritePhase::Committable, WriteAction::Commit),
            WritePhase::Failed => (WritePhase::Failed, WriteAction::Nothing),
        };
        self.phase = phase;
        action
    }
}

/// Starts the write of an item with tags `tags`, id `item_id` and target
/// `target` at clock reading `now`: classifies it, picks its process and
/// prepares the cursor it would commit, in the building phase. The
/// committed cursors are not touched.
pub fn begin_write(
    scheduler: &ProcessScheduler,
    tags: &Vec<Tag>,
    item_id: &String,
    target: &String,
    epoch: &String,
    now: u64,
) -> (r: Result<WriteSession, WriteError>)
    requires
        scheduler.wf(),
    ensures
        match (r, begin_spec(scheduler@, tags@, item_id@, target@, epoch@, now as nat)) {
            (Ok(s), Ok((kind, v))) => s.kind_view() == kind && s.snapshot_view() == v
                && s.key_view() == write_key(kind, item_id@, target@)
                && s.snapshot_view().process_id == s.key_view()
                && s.phase_view() == WritePhase::Building && s.wf(),
            (Err(e), Err(f)) => e == f,
            _ => false,
        },
{
    let kind = match classify(tags) {
        Err(e) => return Err(WriteError::Classification(e)),
        Ok(k) => k,
    };
    let key = match kind {
        ItemKind::Process => item_id.clone(),
        ItemKind::Message => target.clone(),
    };
    match scheduler.prepare(kind, &key, item_id, epoch, now) {
        Err(e) => Err(WriteError::Schedule(e)),
        Ok(snapshot) => Ok(WriteSession { kind, key, snapshot, phase: WritePhase::Building }),
    }
}

/// Ends a write: commits its cursor if, and only if, its bundle was persisted.
/// Returns whether it committed.
pub fn finish_write(scheduler: &mut ProcessScheduler, session: WriteSession) -> (r: bool)
    requires
        old(scheduler).wf(),
        session.wf(),
    ensures
        final(scheduler).wf(),
        r == (session.phase_view() == WritePhase::Committable),
        r ==> final(scheduler)@ == old(scheduler)@.insert(session.key_view(), session.snapshot_view()),
        !r ==> final(scheduler)@ == old(scheduler)@,
{
    match session.phase {
        WritePhase::Committable => {
            scheduler.commit(session.snapshot);
            true
        },
        _ => false,
    }
}

/// A write that did not commit leaves the committed cursors as they were, so
/// repeating it prepares the same outcome: the same error, or a cursor with
/// the same process, epoch, nonce and hash chain; with the same clock reading
/// the very same cursor.
pub proof fn lemma_retry_same_cursor(
    cursors: Map<Seq<char>, ScheduleView>,
    tags: Seq<Tag>,
    item_id: Seq<char>,
    target: Seq<char>,
    epoch: Seq<char>,
    first_now: nat,
    retry_now: nat,
)
    ensures
        begin_spec(cursors, tags, item_id, target, epoch, first_now) matches Err(e)
            ==> begin_spec(cursors, tags, item_id, target, epoch, retry_now) == Err::<(ItemKind, ScheduleView), WriteError>(e),
        begin_spec(cursors, tags, item_id, target, epoch, first_now) matches Ok((k, a))
            ==> begin_spec(cursors, tags, item_id, target, epoch, retry_now) matches Ok((l, b))
            && k == l && a.process_id == b.process_id && a.epoch == b.epoch
            && a.nonce == b.nonce && a.hash_chain == b.hash_chain,
        first_now == retry_now ==> begin_spec(cursors, tags, item_id, target, epoch, first_now)
            == begin_spec(cursors, tags, item_id, target, epoch, retry_now),
{
}

} // verus!
