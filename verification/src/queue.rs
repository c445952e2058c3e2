//! The build queue: a first-in first-out line of builds in which no
//! container name waits twice, and a fixed number of build slots.
use std::collections::VecDeque;
use vstd::hash_set::StringHashSet;
use vstd::prelude::*;
use crate::ids::new_build_id;

verus! {

/// A request to build, as it arrives after a push.
#[derive(Debug, Clone, PartialEq, Eq)]
pub struct BuildQueueItem {
    pub container_name: String,
    pub container_src: String,
    pub owner: String,
    pub repo: String,
}

/// A build that waits in the queue or has been handed out.
#[derive(Debug, Clone)]
pub struct BuildItem {
    pub build_id: u128,
    pub container_name: String,
    pub container_src: String,
    pub owner: String,
    pub repo: String,
    /// Milliseconds since the epoch at which the build was queued.
    pub created_at: u64,
}

/// The mathematical content of a [`BuildQueueItem`].
pub struct Request {
    pub container_name: Seq<char>,
    pub container_src: Seq<char>,
    pub owner: Seq<char>,
    pub repo: Seq<char>,
}

/// The mathematical content of a [`BuildItem`].
pub struct Job {
    pub build_id: u128,
    pub container_name: Seq<char>,
    pub container_src: Seq<char>,
    pub owner: Seq<char>,
    pub repo: Seq<char>,
    pub created_at: u64,
}

impl View for BuildQueueItem {
    type V = Request;

    open spec fn view(&self) -> Request {
        Request {
            container_name: self.container_name@,
            container_src: self.container_src@,
            owner: self.owner@,
            repo: self.repo@,
        }
    }
}

impl View for BuildItem {
    type V = Job;

    open spec fn view(&self) -> Job {
        Job {
            build_id: self.build_id,
            container_name: self.container_name@,
            container_src: self.container_src@,
            owner: self.owner@,
            repo: self.repo@,
            created_at: self.created_at,
        }
    }
}

/// The job that `request` becomes under the identifier `build_id` at the
/// time `created_at`.
pub open spec fn job_of(request: Request, build_id: u128, created_at: u64) -> Job {
    Job {
        build_id,
        container_name: request.container_name,
        container_src: request.container_src,
        owner: request.owner,
        repo: request.repo,
        created_at,
    }
}

impl BuildItem {
    /// The build of `message` under the identifier `build_id`, queued at
    /// `created_at`.
    pub fn new(message: BuildQueueItem, build_id: u128, created_at: u64) -> (item: BuildItem)
        ensures
            item@ == job_of(message@, build_id, created_at),
    {
        BuildItem {
            build_id,
            container_name: message.container_name,
            container_src: message.container_src,
            owner: message.owner,
            repo: message.repo,
            created_at,
        }
    }

}

/// Two builds are the same to the queue if they have the same container
/// name.
impl PartialEq for BuildItem {
    fn eq(&self, other: &Self) -> (r: bool) {
        self.container_name == other.container_name
    }
}

impl Eq for BuildItem {

}

impl vstd::std_specs::cmp::PartialEqSpecImpl for BuildItem {
    open spec fn obeys_eq_spec() -> bool {
        true
    }

    open spec fn eq_spec(&self, other: &Self) -> bool {
        self.container_name@ == other.container_name@
    }
}

/// The state of a queue: its slots and the jobs that wait, the next to be
/// handed out first.
pub struct QueueView {
    pub capacity: nat,
    pub available: nat,
    pub waiting: Seq<Job>,
}

impl QueueView {
    /// Whether a job for `name` waits.
    pub open spec fn has(self, name: Seq<char>) -> bool {
        exists|i: int| 0 <= i < self.waiting.len() && (#[trigger] self.waiting[i]).container_name == name
    }

    /// The container names that wait.
    pub open spec fn names(self) -> Set<Seq<char>> {
        Set::new(|name: Seq<char>| self.has(name))
    }

    /// How many builds have been handed out and not finished.
    pub open spec fn in_flight(self) -> int {
        self.capacity - self.available
    }

    /// No more slots are free than there are, and no name waits twice.
    pub open spec fn wf(self) -> bool {
        &&& self.available <= self.capacity
        &&& forall|i: int, j: int|
            0 <= i < j < self.waiting.len() ==> (#[trigger] self.waiting[i]).container_name != (
            #[trigger] self.waiting[j]).container_name
    }

    /// The queue with all slots free and nothing waiting.
    pub open spec fn empty(capacity: nat) -> QueueView {
        QueueView { capacity, available: capacity, waiting: Seq::empty() }
    }

    /// `job` joins the end of the line, unless its name waits already.
    pub open spec fn enqueue(self, job: Job) -> QueueView {
        if self.has(job.container_name) {
            self
        } else {
            QueueView { waiting: self.waiting.push(job), ..self }
        }
    }

    /// Whether a build can start: a slot is free and a job waits.
    pub open spec fn can_dispatch(self) -> bool {
        self.available > 0 && self.waiting.len() > 0
    }

    /// The first job leaves the line and takes a slot, where a build can
    /// start.
    pub open spec fn dispatch(self) -> QueueView {
        if self.can_dispatch() {
            QueueView {
                available: (self.available - 1) as nat,
                waiting: self.waiting.drop_first(),
                ..self
            }
        } else {
            self
        }
    }

    /// A build gives its slot back, where one is taken.
    pub open spec fn release(self) -> QueueView {
        if self.available < self.capacity {
            QueueView { available: self.available + 1, ..self }
        } else {
            self
        }
    }
}

/// The numbers that the queue reports about itself from time to time.
#[derive(Debug, Clone, Copy, PartialEq, Eq)]
pub struct QueueMetrics {
    pub available_slots: usize,
    pub queue_length: usize,
    pub waiting_set_size: usize,
}

/// The build queue.
pub struct BuildQueue {
    capacity: usize,
    build_count: usize,
    waiting_queue: VecDeque<BuildItem>,
    waiting_set: StringHashSet,
}

impl View for BuildQueue {
    type V = QueueView;

    closed spec fn view(&self) -> QueueView {
        QueueView {
            capacity: self.capacity as nat,
            available: self.build_count as nat,
            waiting: Seq::new(self.waiting_queue@.len(), |i: int| self.waiting_queue@[i]@),
        }
    }
}

impl BuildQueue {
    /// The queue is well formed, and its set of names holds exactly the
    /// names that wait.
    pub closed spec fn wf(&self) -> bool {
        &&& self@.wf()
        &&& self.waiting_set@ == self@.names()
        &&& self.waiting_set@.finite()
    }

    /// What a well-formed queue is known to be: no more slots are free than
    /// there are, and no name waits twice.
    pub proof fn lemma_wf(&self)
        requires
            self.wf(),
        ensures
            self@.wf(),
            self@.available <= self@.capacity,
            self@.in_flight() >= 0,
    {
    }

    /// A queue with `build_count` slots, all free, and nothing waiting.
    pub fn new(build_count: usize) -> (queue: BuildQueue)
        ensures
            queue.wf(),
            queue@ == QueueView::empty(build_count as nat),
    {
        let queue = BuildQueue {
            capacity: build_count,
            build_count,
            waiting_queue: VecDeque::new(),
            waiting_set: StringHashSet::new(),
        };
        assert(queue@.waiting =~= Seq::empty());
        assert(queue.waiting_set@ =~= queue@.names());
        queue
    }

    /// The number of slots.
    pub fn capacity(&self) -> (n: usize)
        ensures
            n == self@.capacity,
    {
        self.capacity
    }

    /// The number of free slots.
    pub fn available_slots(&self) -> (n: usize)
        ensures
            n == self@.available,
    {
        self.build_count
    }

    /// The number of jobs that wait.
    pub fn queue_len(&self) -> (n: usize)
        ensures
            n == self@.waiting.len(),
    {
        self.waiting_queue.len()
    }

    /// Whether a job for `name` waits.
    pub fn is_waiting(&self, name: &str) -> (b: bool)
        requires
            self.wf(),
        ensures
            b == self@.has(name@),
    {
        self.waiting_set.contains(name)
    }

    /// The free slots, the length of the line and the number of names that
    /// wait.
    pub fn metrics(&self) -> (m: QueueMetrics)
        requires
            self.wf(),
        ensures
            m.available_slots == self@.available,
            m.queue_length == self@.waiting.len(),
            m.waiting_set_size == self@.names().len(),
    {
        broadcast use vstd::hash_set::axiom_string_hash_set_spec_len;

        QueueMetrics {
            available_slots: self.build_count,
            queue_length: self.waiting_queue.len(),
            waiting_set_size: self.waiting_set.len(),
        }
    }

    /// Puts `item` at the end of the line, unless a job of its name waits
    /// already; says whether it joined.
    pub fn push(&mut self, item: BuildItem) -> (added: bool)
        requires
            old(self).wf(),
        ensures
            final(self).wf(),
            final(self)@ == old(self)@.enqueue(item@),
            added == !old(self)@.has(item@.container_name),
    {
        if self.waiting_set.contains(item.container_name.as_str()) {
            return false;
        }
        let ghost before = self@;
        let ghost job = item@;
        self.waiting_set.insert(item.container_name.clone());
        self.waiting_queue.push_back(item);
        proof {
            assert(self@.waiting =~= before.waiting.push(job));
            assert forall|name: Seq<char>| self.waiting_set@.contains(name) == self@.has(name) by {
                if before.has(name) {
                    let i = choose|i: int|
                        0 <= i < before.waiting.len() && (
                        #[trigger] before.waiting[i]).container_name == name;
                    assert(self@.waiting[i].container_name == name);
                }
                if name == job.container_name {
                    assert(self@.waiting[before.waiting.len() as int].container_name == name);
                }
            }
            assert(self.waiting_set@ =~= self@.names());
        }
        true
    }

    /// Hands out the first job of the line and takes a slot for it, where a
    /// slot is free and a job waits.
    pub fn pop(&mut self) -> (item: Option<BuildItem>)
        requires
            old(self).wf(),
        ensures
            final(self).wf(),
            final(self)@ == old(self)@.dispatch(),
            match item {
                Some(item) => old(self)@.can_dispatch() && item@ == old(self)@.waiting[0],
                None => !old(self)@.can_dispatch(),
            },
    {
        if self.build_count == 0 {
            return None;
        }
        let ghost before = self@;
        match self.waiting_queue.pop_front() {
            None => None,
            Some(item) => {
                self.waiting_set.remove(item.container_name.as_str());
                self.build_count = self.build_count - 1;
                proof {
                    assert(self@.waiting =~= before.waiting.drop_first());
                    assert(before.waiting[0] == item@);
                    assert forall|name: Seq<char>|
                        self.waiting_set@.contains(name) == self@.has(name) by {
                        if self@.has(name) {
                            let i = choose|i: int|
                                0 <= i < self@.waiting.len() && (
                                #[trigger] self@.waiting[i]).container_name == name;
                            assert(before.waiting[i + 1].container_name == name);
                        }
                        if before.has(name) && name != item@.container_name {
                            let i = choose|i: int|
                                0 <= i < before.waiting.len() && (
                                #[trigger] before.waiting[i]).container_name == name;
                            assert(self@.waiting[i - 1].container_name == name);
                        }
                    }
                    assert(self.waiting_set@ =~= self@.names());
                    assert forall|i: int, j: int| 0 <= i < j < self@.waiting.len() implies (
                    #[trigger] self@.waiting[i]).container_name != (
                    #[trigger] self@.waiting[j]).container_name by {
                        assert(before.waiting[i + 1].container_name
                            != before.waiting[j + 1].container_name);
                    }
                }
                Some(item)
            },
        }
    }

    /// Gives a slot back when a build has ended; says whether one was taken.
    pub fn release(&mut self) -> (released: bool)
        requires
            old(self).wf(),
        ensures
            final(self).wf(),
            final(self)@ == old(self)@.release(),
            released == (old(self)@.available < old(self)@.capacity),
    {
        if self.build_count < self.capacity {
            self.build_count = self.build_count + 1;
            proof {
                assert(self@.waiting =~= old(self)@.waiting);
                assert(self@.names() =~= old(self)@.names());
            }
            true
        } else {
            false
        }
    }
}

/// How many messages the channel into the queue holds before senders wait.
pub const INGRESS_CAPACITY: usize = 32;

/// The milliseconds to sleep between two looks at the queue.
pub const POLL_INTERVAL_MS: u64 = 5;

/// The milliseconds after which the queue reports its metrics again.
pub const METRICS_INTERVAL_MS: u64 = 30000;

/// What the store answered when asked for the project of a push.
#[derive(Debug, Clone, Copy, PartialEq, Eq)]
pub enum ProjectLookup {
    /// The project's identifier.
    Found(u128),
    /// There is no such project.
    NotFound,
    /// The store failed.
    Failed,
}

/// Why a message was dropped.
#[derive(Debug, Clone, Copy, PartialEq, Eq)]
pub enum DropReason {
    ProjectNotFound,
    StoreFailed,
    AlreadyWaiting,
}

/// What is to be done with a message.
#[derive(Debug, Clone, Copy, PartialEq, Eq)]
pub enum EnqueueStep {
    /// Nothing: the message is dropped.
    Drop(DropReason),
    /// A pending build record is to be inserted; once it is, the build joins
    /// the queue.
    Insert { build_id: u128, project_id: u128 },
}

/// What is to be done with a message for the container `name`, given the
/// store's answer and the identifier that a new build would get.
pub open spec fn enqueue_step(
    queue: QueueView,
    name: Seq<char>,
    project: ProjectLookup,
    build_id: u128,
) -> EnqueueStep {
    match project {
        ProjectLookup::NotFound => EnqueueStep::Drop(DropReason::ProjectNotFound),
        ProjectLookup::Failed => EnqueueStep::Drop(DropReason::StoreFailed),
        ProjectLookup::Found(project_id) => if queue.has(name) {
            EnqueueStep::Drop(DropReason::AlreadyWaiting)
        } else {
            EnqueueStep::Insert { build_id, project_id }
        },
    }
}

/// Decides on a message when the identifier of its build is given.
pub fn enqueue_with_id(
    queue: &BuildQueue,
    message: &BuildQueueItem,
    project: ProjectLookup,
    build_id: u128,
) -> (step: EnqueueStep)
    requires
        queue.wf(),
    ensures
        step == enqueue_step(queue@, message@.container_name, project, build_id),
{
    match project {
        ProjectLookup::NotFound => EnqueueStep::Drop(DropReason::ProjectNotFound),
        ProjectLookup::Failed => EnqueueStep::Drop(DropReason::StoreFailed),
        ProjectLookup::Found(project_id) => {
            if queue.is_waiting(message.container_name.as_str()) {
                EnqueueStep::Drop(DropReason::AlreadyWaiting)
            } else {
                EnqueueStep::Insert { build_id, project_id }
            }
        },
    }
}

/// Decides on a message from the push path. The message is dropped where the
/// store knows no project for it or failed, and where a build of the same
/// container waits already. Otherwise a build record is to be inserted under
/// a fresh identifier.
pub fn process_task_enqueue(
    queue: &BuildQueue,
    message: &BuildQueueItem,
    project: ProjectLookup,
) -> (step: EnqueueStep)
    requires
        queue.wf(),
    ensures
        exists|build_id: u128|
            step == enqueue_step(queue@, message@.container_name, project, build_id),
{
    enqueue_with_id(queue, message, project, new_build_id())
}

/// Ends the taking in of `message`, once the store was asked to insert the
/// record of its build. Where the record was inserted, the build joins the
/// end of the line under `build_id`, unless a build of its container has
/// come to wait in the meantime. Where the store failed, the message is
/// dropped and the queue stays as it is.
pub fn enqueue_inserted(
    queue: &mut BuildQueue,
    message: BuildQueueItem,
    build_id: u128,
    created_at: u64,
    inserted: bool,
) -> (queued: bool)
    requires
        old(queue).wf(),
    ensures
        final(queue).wf(),
        final(queue)@ == if inserted {
            old(queue)@.enqueue(job_of(message@, build_id, created_at))
        } else {
            old(queue)@
        },
        queued == (inserted && !old(queue)@.has(message@.container_name)),
{
    if inserted {
        queue.push(BuildItem::new(message, build_id, created_at))
    } else {
        false
    }
}

/// What one look at the queue found.
#[derive(Debug, Clone)]
pub struct Poll {
    /// The metrics, where it is time to report them.
    pub metrics: Option<QueueMetrics>,
    /// The build to start, where one can start.
    pub dispatch: Option<BuildItem>,
}

/// Whether the metrics are due at `now`, having last been reported at
/// `last_report`; both in milliseconds.
pub open spec fn metrics_due(last_report: u64, now: u64) -> bool {
    now - last_report > METRICS_INTERVAL_MS
}

/// Looks at the queue once: reports the metrics as they are before anything
/// changes, where more than thirty seconds have passed since the last
/// report, and hands out the first job where a slot is free.
pub fn process_task_poll(queue: &mut BuildQueue, last_report: u64, now: u64) -> (poll: Poll)
    requires
        old(queue).wf(),
    ensures
        final(queue).wf(),
        final(queue)@ == old(queue)@.dispatch(),
        match poll.dispatch {
            Some(item) => old(queue)@.can_dispatch() && item@ == old(queue)@.waiting[0],
            None => !old(queue)@.can_dispatch(),
        },
        match poll.metrics {
            Some(m) => {
                &&& metrics_due(last_report, now)
                &&& m.available_slots == old(queue)@.available
                &&& m.queue_length == old(queue)@.waiting.len()
                &&& m.waiting_set_size == old(queue)@.names().len()
            },
            None => !metrics_due(last_report, now),
        },
{
    let metrics = if now > last_report && now - last_report > METRICS_INTERVAL_MS {
        Some(queue.metrics())
    } else {
        None
    };
    let dispatch = queue.pop();
    Poll { metrics, dispatch }
}

/// A step in the life of a queue.
pub enum QueueOp {
    /// A job arrives.
    Enqueue(Job),
    /// The dispatcher looks at the queue.
    Dispatch,
    /// A build ends.
    Release,
}

impl QueueView {
    /// The queue after `op`.
    pub open spec fn apply(self, op: QueueOp) -> QueueView {
        match op {
            QueueOp::Enqueue(job) => self.enqueue(job),
            QueueOp::Dispatch => self.dispatch(),
            QueueOp::Release => self.release(),
        }
    }

    /// The queue after the steps `ops`, one after the other.
    pub open spec fn run(self, ops: Seq<QueueOp>) -> QueueView
        decreases ops.len(),
    {
        if ops.len() == 0 {
            self
        } else {
            self.run(ops.drop_last()).apply(ops.last())
        }
    }

    /// How many builds start during `ops`.
    pub open spec fn started(self, ops: Seq<QueueOp>) -> nat
        decreases ops.len(),
    {
        if ops.len() == 0 {
            0
        } else {
            let before = self.run(ops.drop_last());
            let now: nat = if ops.last() is Dispatch && before.can_dispatch() {
                1
            } else {
                0
            };
            self.started(ops.drop_last()) + now
        }
    }

    /// How many builds give their slot back during `ops`.
    pub open spec fn finished(self, ops: Seq<QueueOp>) -> nat
        decreases ops.len(),
    {
        if ops.len() == 0 {
            0
        } else {
            let before = self.run(ops.drop_last());
            let now: nat = if ops.last() is Release && before.available < before.capacity {
                1
            } else {
                0
            };
            self.finished(ops.drop_last()) + now
        }
    }

    /// The jobs that are handed out during `ops`, in the order of their
    /// handing out.
    pub open spec fn handed_out(self, ops: Seq<QueueOp>) -> Seq<Job>
        decreases ops.len(),
    {
        if ops.len() == 0 {
            Seq::empty()
        } else {
            let before = self.run(ops.drop_last());
            let earlier = self.handed_out(ops.drop_last());
            if ops.last() is Dispatch && before.can_dispatch() {
                earlier.push(before.waiting[0])
            } else {
                earlier
            }
        }
    }

    /// How many of the waiting jobs are for `name`.
    pub open spec fn count(self, name: Seq<char>) -> nat {
        self.waiting.filter(|job: Job| job.container_name == name).len()
    }
}

/// Every step keeps a well-formed queue well formed and leaves its capacity
/// alone.
pub proof fn lemma_apply_keeps_wf(queue: QueueView, op: QueueOp)
    requires
        queue.wf(),
    ensures
        queue.apply(op).wf(),
        queue.apply(op).capacity == queue.capacity,
{
    let after = queue.apply(op);
    match op {
        QueueOp::Enqueue(job) => {
            if !queue.has(job.container_name) {
                assert forall|i: int, j: int| 0 <= i < j < after.waiting.len() implies (
                #[trigger] after.waiting[i]).container_name != (
                #[trigger] after.waiting[j]).container_name by {
                    if j == queue.waiting.len() {
                        assert(queue.waiting[i].container_name != job.container_name);
                    } else {
                        assert(queue.waiting[i].container_name != queue.waiting[j].container_name);
                    }
                }
            }
        },
        QueueOp::Dispatch => {
            if queue.can_dispatch() {
                assert forall|i: int, j: int| 0 <= i < j < after.waiting.len() implies (
                #[trigger] after.waiting[i]).container_name != (
                #[trigger] after.waiting[j]).container_name by {
                    assert(queue.waiting[i + 1].container_name != queue.waiting[j
                        + 1].container_name);
                }
            }
        },
        QueueOp::Release => {},
    }
}

/// Bounded concurrency. Whatever happens to a queue of capacity `K`, the
/// builds in flight never number more than `K`, and the free slots are those
/// at the start, less the builds that started, plus the builds that ended:
/// once every build that started has ended, as many slots are free as before.
pub proof fn lemma_bounded_concurrency(queue: QueueView, ops: Seq<QueueOp>)
    requires
        queue.wf(),
    ensures
        queue.run(ops).wf(),
        queue.run(ops).capacity == queue.capacity,
        0 <= queue.run(ops).in_flight() <= queue.capacity,
        queue.run(ops).available == queue.available - queue.started(ops) + queue.finished(ops),
    decreases ops.len(),
{
    if ops.len() > 0 {
        lemma_bounded_concurrency(queue, ops.drop_last());
        lemma_apply_keeps_wf(queue.run(ops.drop_last()), ops.last());
    }
}

/// Deduplication. Of two jobs for one container that arrive one after the
/// other, the second finds the first waiting and is dropped before any build
/// record is asked for: the queue stays as the first left it, with exactly
/// one job of that name if none waited before.
pub proof fn lemma_second_arrival_is_dropped(
    queue: QueueView,
    first: Job,
    second: Job,
    project: ProjectLookup,
    build_id: u128,
)
    requires
        queue.wf(),
        first.container_name == second.container_name,
    ensures
        queue.enqueue(first).has(second.container_name),
        queue.enqueue(first).enqueue(second) == queue.enqueue(first),
        enqueue_step(queue.enqueue(first), second.container_name, project, build_id)
            is Drop,
        queue.enqueue(first).count(first.container_name) == 1,
{
    let name = first.container_name;
    let after = queue.enqueue(first);
    lemma_apply_keeps_wf(queue, QueueOp::Enqueue(first));
    if !queue.has(name) {
        assert(after.waiting[queue.waiting.len() as int].container_name == name);
    }
    lemma_count_of_waiting_name(after, name);
}

/// In a well-formed queue a name that waits does so once.
pub proof fn lemma_count_of_waiting_name(queue: QueueView, name: Seq<char>)
    requires
        queue.wf(),
    ensures
        queue.count(name) == if queue.has(name) { 1nat } else { 0 },
    decreases queue.waiting.len(),
{
    let pred = |job: Job| job.container_name == name;
    reveal(Seq::filter);
    if queue.waiting.len() > 0 {
        let shorter = QueueView { waiting: queue.waiting.drop_last(), ..queue };
        assert forall|i: int, j: int| 0 <= i < j < shorter.waiting.len() implies (
        #[trigger] shorter.waiting[i]).container_name != (
        #[trigger] shorter.waiting[j]).container_name by {
            assert(queue.waiting[i].container_name != queue.waiting[j].container_name);
        }
        lemma_count_of_waiting_name(shorter, name);
        let last = queue.waiting.last();
        if shorter.has(name) {
            let i = choose|i: int|
                0 <= i < shorter.waiting.len() && (
                #[trigger] shorter.waiting[i]).container_name == name;
            assert(queue.waiting[i].container_name == name);
            assert(queue.waiting[i].container_name != queue.waiting[queue.waiting.len()
                - 1].container_name);
        } else if last.container_name == name {
            assert(queue.waiting[queue.waiting.len() - 1].container_name == name);
        } else {
            if queue.has(name) {
                let i = choose|i: int|
                    0 <= i < queue.waiting.len() && (
                    #[trigger] queue.waiting[i]).container_name == name;
                assert(shorter.waiting[i].container_name == name);
            }
        }
    }
}

/// The name of a job is free again the moment the job is handed out: a
/// message for the same container that arrives after that is taken in, not
/// dropped as one that waits already.
pub proof fn lemma_handed_out_name_is_free(
    queue: QueueView,
    project_id: u128,
    build_id: u128,
)
    requires
        queue.wf(),
        queue.can_dispatch(),
    ensures
        !queue.dispatch().has(queue.waiting[0].container_name),
        enqueue_step(
            queue.dispatch(),
            queue.waiting[0].container_name,
            ProjectLookup::Found(project_id),
            build_id,
        ) == (EnqueueStep::Insert { build_id, project_id }),
{
    let after = queue.dispatch();
    let name = queue.waiting[0].container_name;
    if after.has(name) {
        let i = choose|i: int|
            0 <= i < after.waiting.len() && (#[trigger] after.waiting[i]).container_name == name;
        assert(queue.waiting[i + 1].container_name == name);
        assert(queue.waiting[0].container_name != queue.waiting[i + 1].container_name);
    }
}

/// Whether no job arrives during `ops`.
pub open spec fn no_arrivals(ops: Seq<QueueOp>) -> bool {
    forall|i: int| 0 <= i < ops.len() ==> !(#[trigger] ops[i] is Enqueue)
}

/// The steps in which `n` builds run one after the other: each is handed
/// out and ends before the next is handed out.
pub open spec fn one_by_one(n: nat) -> Seq<QueueOp>
    decreases n,
{
    if n == 0 {
        Seq::empty()
    } else {
        one_by_one((n - 1) as nat).push(QueueOp::Dispatch).push(QueueOp::Release)
    }
}

/// The draining of a burst. Let jobs wait in a queue of at least one slot
/// with no build in flight, and let none arrive. Then, however the looks of
/// the dispatcher and the ends of builds follow one another:
/// the jobs are handed out in the order in which they wait, each once;
/// those not yet handed out still wait, in their order;
/// while a job waits, either it can be handed out at once or a build is in
/// flight whose end will free a slot, so the line never stands still;
/// and once nothing waits and every build that started has ended, every job
/// of the burst has been handed out, all slots are free again, and no name
/// waits.
pub proof fn lemma_burst_drains(queue: QueueView, ops: Seq<QueueOp>)
    requires
        queue.wf(),
        queue.capacity >= 1,
        queue.available == queue.capacity,
        no_arrivals(ops),
    ensures
        queue.started(ops) <= queue.waiting.len(),
        queue.finished(ops) <= queue.started(ops),
        queue.handed_out(ops) == queue.waiting.take(queue.started(ops) as int),
        queue.run(ops).waiting == queue.waiting.skip(queue.started(ops) as int),
        queue.run(ops).capacity == queue.capacity,
        queue.run(ops).available == queue.capacity - queue.started(ops) + queue.finished(ops),
        queue.run(ops).waiting.len() > 0 ==> queue.run(ops).can_dispatch() || queue.run(
            ops,
        ).in_flight() > 0,
        queue.run(ops).waiting.len() == 0 && queue.finished(ops) == queue.started(ops) ==> {
            &&& queue.handed_out(ops) == queue.waiting
            &&& queue.run(ops).available == queue.capacity
            &&& queue.run(ops).names() == Set::<Seq<char>>::empty()
        },
    decreases ops.len(),
{
    if ops.len() == 0 {
        assert(queue.waiting.take(0) =~= Seq::<Job>::empty());
        assert(queue.waiting.skip(0) =~= queue.waiting);
    } else {
        let shorter = ops.drop_last();
        assert(no_arrivals(shorter)) by {
            assert forall|i: int| 0 <= i < shorter.len() implies !(#[trigger] shorter[i]
                is Enqueue) by {
                assert(shorter[i] == ops[i]);
            }
        }
        lemma_burst_drains(queue, shorter);
        let before = queue.run(shorter);
        let n = queue.started(shorter) as int;
        assert(!(ops[ops.len() - 1] is Enqueue));
        if ops.last() is Dispatch && before.can_dispatch() {
            assert(before.waiting[0] == queue.waiting[n]);
            assert(queue.waiting.take(n).push(queue.waiting[n]) =~= queue.waiting.take(n + 1));
            assert(before.waiting.drop_first() =~= queue.waiting.skip(n + 1));
        }
    }
    let after = queue.run(ops);
    if after.waiting.len() == 0 {
        assert(queue.waiting.take(queue.started(ops) as int) =~= queue.waiting);
        assert(after.names() =~= Set::<Seq<char>>::empty());
    }
}

/// A burst does drain: where each build ends before the next is handed
/// out, as many steps as twice the number of jobs hand out every job of the
/// burst in order and leave nothing waiting and every slot free.
pub proof fn lemma_burst_drains_one_by_one(queue: QueueView)
    requires
        queue.wf(),
        queue.capacity >= 1,
        queue.available == queue.capacity,
    ensures
        queue.handed_out(one_by_one(queue.waiting.len())) == queue.waiting,
        queue.run(one_by_one(queue.waiting.len())).waiting.len() == 0,
        queue.run(one_by_one(queue.waiting.len())).available == queue.capacity,
{
    lemma_one_by_one(queue, queue.waiting.len());
    lemma_burst_drains(queue, one_by_one(queue.waiting.len()));
}

proof fn lemma_one_by_one(queue: QueueView, n: nat)
    requires
        queue.wf(),
        queue.capacity >= 1,
        queue.available == queue.capacity,
        n <= queue.waiting.len(),
    ensures
        no_arrivals(one_by_one(n)),
        queue.started(one_by_one(n)) == n,
        queue.finished(one_by_one(n)) == n,
    decreases n,
{
    if n > 0 {
        let earlier = one_by_one((n - 1) as nat);
        let middle = earlier.push(QueueOp::Dispatch);
        let ops = one_by_one(n);
        lemma_one_by_one(queue, (n - 1) as nat);
        lemma_burst_drains(queue, earlier);
        assert(middle.drop_last() =~= earlier);
        assert(ops.drop_last() =~= middle);
        assert(no_arrivals(middle)) by {
            assert forall|i: int| 0 <= i < middle.len() implies !(#[trigger] middle[i]
                is Enqueue) by {
                if i < earlier.len() {
                    assert(middle[i] == earlier[i]);
                }
            }
        }
        assert(no_arrivals(ops)) by {
            assert forall|i: int| 0 <= i < ops.len() implies !(#[trigger] ops[i] is Enqueue) by {
                if i < middle.len() {
                    assert(ops[i] == middle[i]);
                }
            }
        }
        let before = queue.run(earlier);
        assert(before.can_dispatch());
        lemma_burst_drains(queue, middle);
    }
}

} // verus!
