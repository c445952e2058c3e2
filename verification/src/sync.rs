//! The working-copy synchroniser: after a push, the working copy of a
//! repository is made anew at the commit that the bare repository's `HEAD`
//! names.
//!
//! The work on disk is done elsewhere. This module decides its order: resolve
//! `HEAD` of the bare repository, remove the old working copy, clone, detach
//! the clone's `HEAD` at the resolved commit, check out. [`sync`] names the
//! first step, and [`SyncStage::step`] takes the outcome of each step and
//! names the next.
use vstd::prelude::*;

verus! {

/// The name of a commit: the twenty bytes of its hash.
#[derive(Debug, Clone, Copy, PartialEq, Eq)]
pub struct Oid {
    pub bytes: [u8; 20],
}

/// The step at which a synchronisation failed.
#[derive(Debug, Clone, Copy, PartialEq, Eq)]
pub enum SyncError {
    ResolveHead,
    Clone,
    DetachHead,
    Checkout,
}

/// Where a synchronisation stands: which step is under way, and for which
/// commit.
#[derive(Debug, Clone, Copy, PartialEq, Eq)]
pub enum SyncStage {
    Resolving,
    Removing(Oid),
    Cloning(Oid),
    Detaching(Oid),
    CheckingOut(Oid),
    Synced(Oid),
    Failed(SyncError),
}

/// The outcome of a step.
#[derive(Debug, Clone, Copy, PartialEq, Eq)]
pub enum SyncEvent {
    /// `HEAD` of the bare repository was resolved to this commit, or could
    /// not be resolved.
    Head(Option<Oid>),
    /// Another step ended, well or not.
    Done(bool),
}

/// The step to take.
#[derive(Debug, Clone, Copy, PartialEq, Eq)]
pub enum SyncAction {
    /// Resolve `HEAD` of the bare repository.
    ResolveHead,
    /// Remove the working copy with all that is in it, if it is there.
    RemoveDest,
    /// Clone the bare repository into the working copy.
    Clone,
    /// Detach `HEAD` of the working copy at this commit.
    DetachHead(Oid),
    /// Check out `HEAD` of the working copy, overwriting what is there.
    Checkout,
    /// The synchronisation has ended: at this commit, or with this failure.
    Finish(Result<Oid, SyncError>),
    /// Nothing: the event was the outcome of no step that was under way.
    Idle,
}

impl SyncStage {
    /// The step that is under way at this stage.
    pub open spec fn request(self) -> SyncAction {
        match self {
            SyncStage::Resolving => SyncAction::ResolveHead,
            SyncStage::Removing(_) => SyncAction::RemoveDest,
            SyncStage::Cloning(_) => SyncAction::Clone,
            SyncStage::Detaching(oid) => SyncAction::DetachHead(oid),
            SyncStage::CheckingOut(_) => SyncAction::Checkout,
            SyncStage::Synced(oid) => SyncAction::Finish(Ok(oid)),
            SyncStage::Failed(e) => SyncAction::Finish(Err(e)),
        }
    }

    /// The stage that `event` leads to, where it is the outcome of the step
    /// under way. A working copy that could not be removed does not end the
    /// synchronisation: the clone decides. Every other failure ends it.
    pub open spec fn next(self, event: SyncEvent) -> Option<SyncStage> {
        match (self, event) {
            (SyncStage::Resolving, SyncEvent::Head(Some(oid))) => Some(SyncStage::Removing(oid)),
            (SyncStage::Resolving, SyncEvent::Head(None)) => Some(
                SyncStage::Failed(SyncError::ResolveHead),
            ),
            (SyncStage::Removing(oid), SyncEvent::Done(_)) => Some(SyncStage::Cloning(oid)),
            (SyncStage::Cloning(oid), SyncEvent::Done(true)) => Some(SyncStage::Detaching(oid)),
            (SyncStage::Cloning(_), SyncEvent::Done(false)) => Some(
                SyncStage::Failed(SyncError::Clone),
            ),
            (SyncStage::Detaching(oid), SyncEvent::Done(true)) => Some(
                SyncStage::CheckingOut(oid),
            ),
            (SyncStage::Detaching(_), SyncEvent::Done(false)) => Some(
                SyncStage::Failed(SyncError::DetachHead),
            ),
            (SyncStage::CheckingOut(oid), SyncEvent::Done(true)) => Some(SyncStage::Synced(oid)),
            (SyncStage::CheckingOut(_), SyncEvent::Done(false)) => Some(
                SyncStage::Failed(SyncError::Checkout),
            ),
            _ => None,
        }
    }

    /// The stage after `event`, and the step to take then.
    pub open spec fn advance(self, event: SyncEvent) -> (SyncStage, SyncAction) {
        match self.next(event) {
            Some(stage) => (stage, stage.request()),
            None => (self, SyncAction::Idle),
        }
    }

    /// The stage after the outcomes `events`.
    pub open spec fn after(self, events: Seq<SyncEvent>) -> SyncStage
        decreases events.len(),
    {
        if events.len() == 0 {
            self
        } else {
            self.after(events.drop_last()).advance(events.last()).0
        }
    }

    /// The steps that the outcomes `events` lead to, in order.
    pub open spec fn steps(self, events: Seq<SyncEvent>) -> Seq<SyncAction>
        decreases events.len(),
    {
        if events.len() == 0 {
            Seq::empty()
        } else {
            let earlier = self.steps(events.drop_last());
            match self.after(events.drop_last()).advance(events.last()).1 {
                SyncAction::Idle => earlier,
                action => earlier.push(action),
            }
        }
    }

    /// The commit for which the stage works.
    pub open spec fn commit(self) -> Option<Oid> {
        match self {
            SyncStage::Removing(oid)
            | SyncStage::Cloning(oid)
            | SyncStage::Detaching(oid)
            | SyncStage::CheckingOut(oid)
            | SyncStage::Synced(oid) => Some(oid),
            _ => None,
        }
    }

    /// Whether the synchronisation has ended.
    pub fn is_finished(&self) -> (b: bool)
        ensures
            b == (*self is Synced || *self is Failed),
    {
        match self {
            SyncStage::Synced(_) | SyncStage::Failed(_) => true,
            _ => false,
        }
    }

    /// Takes the outcome of a step and names the next.
    pub fn step(self, event: SyncEvent) -> (after: (SyncStage, SyncAction))
        ensures
            after == self.advance(event),
    {
        let next = match (self, event) {
            (SyncStage::Resolving, SyncEvent::Head(Some(oid))) => SyncStage::Removing(oid),
            (SyncStage::Resolving, SyncEvent::Head(None)) => SyncStage::Failed(
                SyncError::ResolveHead,
            ),
            (SyncStage::Removing(oid), SyncEvent::Done(_)) => SyncStage::Cloning(oid),
            (SyncStage::Cloning(oid), SyncEvent::Done(true)) => SyncStage::Detaching(oid),
            (SyncStage::Cloning(_), SyncEvent::Done(false)) => SyncStage::Failed(SyncError::Clone),
            (SyncStage::Detaching(oid), SyncEvent::Done(true)) => SyncStage::CheckingOut(oid),
            (SyncStage::Detaching(_), SyncEvent::Done(false)) => SyncStage::Failed(
                SyncError::DetachHead,
            ),
            (SyncStage::CheckingOut(oid), SyncEvent::Done(true)) => SyncStage::Synced(oid),
            (SyncStage::CheckingOut(_), SyncEvent::Done(false)) => SyncStage::Failed(
                SyncError::Checkout,
            ),
            _ => { return (self, SyncAction::Idle); },
        };
        (next, request_of(next))
    }
}

/// The step that is under way at `stage`.
fn request_of(stage: SyncStage) -> (action: SyncAction)
    ensures
        action == stage.request(),
{
    match stage {
        SyncStage::Resolving => SyncAction::ResolveHead,
        SyncStage::Removing(_) => SyncAction::RemoveDest,
        SyncStage::Cloning(_) => SyncAction::Clone,
        SyncStage::Detaching(oid) => SyncAction::DetachHead(oid),
        SyncStage::CheckingOut(_) => SyncAction::Checkout,
        SyncStage::Synced(oid) => SyncAction::Finish(Ok(oid)),
        SyncStage::Failed(e) => SyncAction::Finish(Err(e)),
    }
}

/// Starts a synchronisation: `HEAD` of the bare repository is to be resolved
/// first.
pub fn sync() -> (started: (SyncStage, SyncAction))
    ensures
        started == (SyncStage::Resolving, SyncAction::ResolveHead),
{
    (SyncStage::Resolving, SyncAction::ResolveHead)
}

/// The steps taken by the time a synchronisation stands at `stage`, the
/// first one included.
spec fn taken_at(stage: SyncStage, taken: Seq<SyncAction>) -> bool {
    match stage {
        SyncStage::Resolving => taken == seq![SyncAction::ResolveHead],
        SyncStage::Removing(oid) => taken == seq![SyncAction::ResolveHead, SyncAction::RemoveDest],
        SyncStage::Cloning(oid) => taken == seq![
            SyncAction::ResolveHead,
            SyncAction::RemoveDest,
            SyncAction::Clone,
        ],
        SyncStage::Detaching(oid) => taken == seq![
            SyncAction::ResolveHead,
            SyncAction::RemoveDest,
            SyncAction::Clone,
            SyncAction::DetachHead(oid),
        ],
        SyncStage::CheckingOut(oid) => taken == seq![
            SyncAction::ResolveHead,
            SyncAction::RemoveDest,
            SyncAction::Clone,
            SyncAction::DetachHead(oid),
            SyncAction::Checkout,
        ],
        SyncStage::Synced(oid) => taken == seq![
            SyncAction::ResolveHead,
            SyncAction::RemoveDest,
            SyncAction::Clone,
            SyncAction::DetachHead(oid),
            SyncAction::Checkout,
            SyncAction::Finish(Ok(oid)),
        ],
        SyncStage::Failed(_) => true,
    }
}

proof fn lemma_taken(events: Seq<SyncEvent>)
    ensures
        taken_at(
            SyncStage::Resolving.after(events),
            seq![SyncAction::ResolveHead] + SyncStage::Resolving.steps(events),
        ),
    decreases events.len(),
{
    let first = seq![SyncAction::ResolveHead];
    let start = SyncStage::Resolving;
    if events.len() == 0 {
        assert(first + start.steps(events) =~= first);
    } else {
        let shorter = events.drop_last();
        lemma_taken(shorter);
        let before = start.after(shorter);
        let earlier = first + start.steps(shorter);
        let now = first + start.steps(events);
        match before.next(events.last()) {
            Some(stage) => {
                assert(now =~= earlier.push(stage.request()));
                match stage {
                    SyncStage::Removing(_) => {
                        assert(now =~= seq![SyncAction::ResolveHead, SyncAction::RemoveDest]);
                    },
                    SyncStage::Cloning(_) => {
                        assert(now =~= seq![
                            SyncAction::ResolveHead,
                            SyncAction::RemoveDest,
                            SyncAction::Clone,
                        ]);
                    },
                    SyncStage::Detaching(oid) => {
                        assert(now =~= seq![
                            SyncAction::ResolveHead,
                            SyncAction::RemoveDest,
                            SyncAction::Clone,
                            SyncAction::DetachHead(oid),
                        ]);
                    },
                    SyncStage::CheckingOut(oid) => {
                        assert(now =~= seq![
                            SyncAction::ResolveHead,
                            SyncAction::RemoveDest,
                            SyncAction::Clone,
                            SyncAction::DetachHead(oid),
                            SyncAction::Checkout,
                        ]);
                    },
                    SyncStage::Synced(oid) => {
                        assert(now =~= seq![
                            SyncAction::ResolveHead,
                            SyncAction::RemoveDest,
                            SyncAction::Clone,
                            SyncAction::DetachHead(oid),
                            SyncAction::Checkout,
                            SyncAction::Finish(Ok(oid)),
                        ]);
                    },
                    _ => {},
                }
            },
            None => {
                assert(now =~= earlier);
            },
        }
    }
}

/// The commit for which a synchronisation works is the one that the bare
/// repository's `HEAD` was resolved to: it came as the answer to the first
/// step, while that step was under way.
pub proof fn lemma_commit_is_head(events: Seq<SyncEvent>, oid: Oid) -> (i: int)
    requires
        SyncStage::Resolving.after(events).commit() == Some(oid),
    ensures
        0 <= i < events.len(),
        events[i] == SyncEvent::Head(Some(oid)),
        SyncStage::Resolving.after(events.take(i)) is Resolving,
    decreases events.len(),
{
    let shorter = events.drop_last();
    let before = SyncStage::Resolving.after(shorter);
    if before.commit() == Some(oid) {
        let i = lemma_commit_is_head(shorter, oid);
        assert(events.take(i) =~= shorter.take(i));
        i
    } else {
        assert(events.take(events.len() - 1) =~= shorter);
        events.len() - 1
    }
}

/// The working-copy invariant, as far as the order of the steps goes. A
/// synchronisation that ends well has resolved `HEAD` of the bare
/// repository, removed the old working copy, cloned, detached the clone's
/// `HEAD` and checked out, each once and in this order; and the commit at
/// which it detached `HEAD`, and at which it says the working copy stands,
/// is the one that the bare repository's `HEAD` was resolved to.
pub proof fn lemma_synced_at_head(events: Seq<SyncEvent>, oid: Oid)
    requires
        SyncStage::Resolving.after(events) == SyncStage::Synced(oid),
    ensures
        seq![SyncAction::ResolveHead] + SyncStage::Resolving.steps(events) == seq![
            SyncAction::ResolveHead,
            SyncAction::RemoveDest,
            SyncAction::Clone,
            SyncAction::DetachHead(oid),
            SyncAction::Checkout,
            SyncAction::Finish(Ok(oid)),
        ],
        exists|i: int|
            0 <= i < events.len() && events[i] == SyncEvent::Head(Some(oid))
                && SyncStage::Resolving.after(#[trigger] events.take(i)) is Resolving,
{
    lemma_taken(events);
    let i = lemma_commit_is_head(events, oid);
    assert(SyncStage::Resolving.after(events.take(i)) is Resolving);
}

} // verus!
