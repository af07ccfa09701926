//! The transcode job queue: jobs by id, their order, the pending queue, the
//! running set (at most `MAX_CONCURRENT_JOBS`) and the canceled list.
//!
//! Fractional values (progress percent, playback rate) are carried as their
//! IEEE-754 `f64` bit patterns; progress reports are clamped to `0..=100`.

use vstd::prelude::*;
use vstd::hash_map::HashMapWithView;
use std::collections::VecDeque;
use vstd::string::*;
use crate::floatbits::{f64_bits_clamp, f64_clamp, F64_ZERO};
use crate::transcode::rules::JobResult;

verus! {

broadcast use vstd::std_specs::hash::group_hash_axioms;

/// Bit pattern of the `f64` value `0.0`.
pub const PROGRESS_ZERO_BITS: u64 = 0;

/// Bit pattern of the `f64` value `100.0`.
pub const PROGRESS_COMPLETE_BITS: u64 = 0x4059_0000_0000_0000;

/// Message stored on a job that was canceled.
pub open spec fn canceled_message() -> Seq<char> {
    "任务已取消"@
}

#[derive(Debug, Clone, Copy, PartialEq, Eq, Structural)]
pub enum TranscodeJobKind {
    Video,
    Audio,
    ImageLossless,
    ImageLossy,
}

#[derive(Debug, Clone, Copy, PartialEq, Eq, Structural)]
pub enum TranscodeJobStatus {
    Queued,
    Running,
    Success,
    Skipped,
    Failed,
    Canceled,
}

#[derive(Debug)]
pub struct TranscodeJob {
    pub id: u64,
    pub kind: TranscodeJobKind,
    pub source_path: String,
    pub output_path: String,
    pub status: TranscodeJobStatus,
    /// Bits of the `f64` progress percent.
    pub progress_percent_bits: u64,
    pub started_at_ms: Option<u64>,
    pub finished_at_ms: Option<u64>,
    pub error_message: Option<String>,
    pub input_size_bytes: Option<u64>,
    pub output_size_bytes: Option<u64>,
    pub estimated_output_size_bytes: Option<u64>,
    pub quality: Option<u8>,
    pub format: Option<String>,
    pub resolution: Option<String>,
    /// Bits of the `f64` playback rate, when the job has one.
    pub playback_rate_bits: Option<u64>,
}

/// A copy of an optional string.
pub fn copy_opt_string(s: &Option<String>) -> (r: Option<String>)
    ensures
        r == *s,
{
    match s {
        Some(v) => Some(v.clone()),
        None => None,
    }
}

impl TranscodeJob {
    /// A field-by-field copy of the job.
    pub fn duplicate(&self) -> (r: TranscodeJob)
        ensures
            r == *self,
    {
        TranscodeJob {
            id: self.id,
            kind: self.kind,
            source_path: self.source_path.clone(),
            output_path: self.output_path.clone(),
            status: self.status,
            progress_percent_bits: self.progress_percent_bits,
            started_at_ms: self.started_at_ms,
            finished_at_ms: self.finished_at_ms,
            error_message: copy_opt_string(&self.error_message),
            input_size_bytes: self.input_size_bytes,
            output_size_bytes: self.output_size_bytes,
            estimated_output_size_bytes: self.estimated_output_size_bytes,
            quality: self.quality,
            format: copy_opt_string(&self.format),
            resolution: copy_opt_string(&self.resolution),
            playback_rate_bits: self.playback_rate_bits,
        }
    }
}

#[derive(Debug)]
pub struct TranscodeQueueSnapshot {
    pub jobs: Vec<TranscodeJob>,
    pub running_jobs: usize,
    pub queued_jobs: usize,
}

pub struct TranscodeStateInner {
    pub jobs: HashMapWithView<u64, TranscodeJob>,
    pub order: Vec<u64>,
    pub pending: VecDeque<u64>,
    pub running: Vec<u64>,
    pub canceled: Vec<u64>,
}

pub struct TranscodeState {
    next_id: u64,
    inner: TranscodeStateInner,
}

/// `s` with every occurrence of `x` removed (`retain(|id| *id != x)`).
pub open spec fn without(s: Seq<u64>, x: u64) -> Seq<u64>
    decreases s.len(),
{
    if s.len() == 0 {
        s
    } else {
        let rest = without(s.drop_last(), x);
        if s.last() == x {
            rest
        } else {
            rest.push(s.last())
        }
    }
}

/// The jobs that `order` lists and that exist, in order.
pub open spec fn ordered_jobs(order: Seq<u64>, jobs: Map<u64, TranscodeJob>) -> Seq<TranscodeJob>
    decreases order.len(),
{
    if order.len() == 0 {
        Seq::empty()
    } else {
        let rest = ordered_jobs(order.drop_last(), jobs);
        if jobs.contains_key(order.last()) {
            rest.push(jobs[order.last()])
        } else {
            rest
        }
    }
}

/// The outcome of scheduling: which pending ids start, and how many pending
/// entries are consumed, when `running` jobs already run.
pub open spec fn schedule_plan(
    pending: Seq<u64>,
    running: nat,
    canceled: Seq<u64>,
    jobs: Map<u64, TranscodeJob>,
) -> (Seq<u64>, nat)
    decreases pending.len(),
{
    if running >= TranscodeState::MAX_CONCURRENT_JOBS || pending.len() == 0 {
        (Seq::empty(), 0)
    } else {
        let id = pending[0];
        let starts = !canceled.contains(id) && jobs.contains_key(id);
        let rest = schedule_plan(
            pending.drop_first(),
            if starts { running + 1 } else { running },
            canceled,
            jobs,
        );
        (if starts { seq![id] + rest.0 } else { rest.0 }, rest.1 + 1)
    }
}

/// A job as it is once started at `now_ms`.
pub open spec fn started_job(job: TranscodeJob, now_ms: u64) -> TranscodeJob {
    TranscodeJob {
        status: TranscodeJobStatus::Running,
        started_at_ms: Some(now_ms),
        progress_percent_bits: PROGRESS_ZERO_BITS,
        ..job
    }
}

/// A job as it is once finished with `status` at `now_ms`.
pub open spec fn finished_job(
    job: TranscodeJob,
    status: TranscodeJobStatus,
    error_message: Option<String>,
    now_ms: u64,
) -> TranscodeJob {
    TranscodeJob {
        status: status,
        finished_at_ms: Some(now_ms),
        error_message: if error_message is Some {
            error_message
        } else {
            job.error_message
        },
        progress_percent_bits: if status == TranscodeJobStatus::Success {
            PROGRESS_COMPLETE_BITS
        } else {
            job.progress_percent_bits
        },
        ..job
    }
}

/// A job after a progress report.
pub open spec fn progressed_job(
    job: TranscodeJob,
    progress_percent_bits: u64,
    output_size_bytes: Option<u64>,
    status: Option<TranscodeJobStatus>,
    error_message: Option<String>,
) -> TranscodeJob {
    TranscodeJob {
        progress_percent_bits: f64_clamp(progress_percent_bits, F64_ZERO, PROGRESS_COMPLETE_BITS),
        output_size_bytes: if output_size_bytes is Some {
            output_size_bytes
        } else {
            job.output_size_bytes
        },
        status: match status {
            Some(s) => s,
            None => job.status,
        },
        error_message: if error_message is Some {
            error_message
        } else {
            job.error_message
        },
        ..job
    }
}

/// A job once the work on it has ended with `outcome`: a written or skipped
/// output completes its progress with the output size (and, when skipped,
/// the reason) and finishes it with that status; an error finishes it as
/// failed with the error message.
pub open spec fn concluded_job(
    job: TranscodeJob,
    outcome: Result<JobResult, String>,
    now_ms: u64,
) -> TranscodeJob {
    match outcome {
        Ok(JobResult::Success(size)) => finished_job(
            progressed_job(
                job,
                PROGRESS_COMPLETE_BITS,
                Some(size),
                Some(TranscodeJobStatus::Success),
                None,
            ),
            TranscodeJobStatus::Success,
            None,
            now_ms,
        ),
        Ok(JobResult::Skipped(size, reason)) => finished_job(
            progressed_job(
                job,
                PROGRESS_COMPLETE_BITS,
                Some(size),
                Some(TranscodeJobStatus::Skipped),
                Some(reason),
            ),
            TranscodeJobStatus::Skipped,
            Some(reason),
            now_ms,
        ),
        Err(e) => finished_job(job, TranscodeJobStatus::Failed, Some(e), now_ms),
    }
}

proof fn lemma_without_excludes(s: Seq<u64>, x: u64)
    ensures
        !without(s, x).contains(x),
        without(s, x).len() <= s.len(),
        forall|y: u64| y != x ==> (s.contains(y) <==> #[trigger] without(s, x).contains(y)),
    decreases s.len(),
{
    if s.len() > 0 {
        let t = s.drop_last();
        lemma_without_excludes(t, x);
        let w = without(t, x);
        assert(s =~= t.push(s.last()));
        assert forall|y: u64| y != x implies (s.contains(y) <==> #[trigger] without(s, x).contains(
            y,
        )) by {
            assert(t.push(s.last()).contains(y) <==> (t.contains(y) || s.last() == y)) by {
                if t.push(s.last()).contains(y) {
                    let k = choose|k: int| 0 <= k < t.len() + 1 && t.push(s.last())[k] == y;
                    if k < t.len() {
                        assert(t[k] == y);
                    }
                }
                if t.contains(y) {
                    let k = choose|k: int| 0 <= k < t.len() && t[k] == y;
                    assert(t.push(s.last())[k] == y);
                }
                if s.last() == y {
                    assert(t.push(s.last())[t.len() as int] == y);
                }
            }
            if s.last() != x {
                assert(w.push(s.last()).contains(y) <==> (w.contains(y) || s.last() == y)) by {
                    if w.push(s.last()).contains(y) {
                        let k = choose|k: int| 0 <= k < w.len() + 1 && w.push(s.last())[k] == y;
                        if k < w.len() {
                            assert(w[k] == y);
                        }
                    }
                    if w.contains(y) {
                        let k = choose|k: int| 0 <= k < w.len() && w[k] == y;
                        assert(w.push(s.last())[k] == y);
                    }
                    if s.last() == y {
                        assert(w.push(s.last())[w.len() as int] == y);
                    }
                }
            }
        }
        if s.last() != x {
            if w.push(s.last()).contains(x) {
                let k = choose|k: int| 0 <= k < w.len() + 1 && w.push(s.last())[k] == x;
                if k < w.len() {
                    assert(w[k] == x);
                }
            }
        }
    }
}

/// `v` with every occurrence of `x` removed.
fn vec_without(v: &Vec<u64>, x: u64) -> (r: Vec<u64>)
    ensures
        r@ == without(v@, x),
{
    let mut r: Vec<u64> = Vec::new();
    let mut i: usize = 0;
    while i < v.len()
        invariant
            i <= v@.len(),
            r@ == without(v@.take(i as int), x),
        decreases v@.len() - i,
    {
        assert(v@.take(i as int + 1).drop_last() =~= v@.take(i as int));
        if v[i] != x {
            r.push(v[i]);
        }
        i += 1;
    }
    assert(v@.take(v@.len() as int) =~= v@);
    r
}

/// `q` with every occurrence of `x` removed.
fn deque_without(q: &VecDeque<u64>, x: u64) -> (r: VecDeque<u64>)
    ensures
        r@ == without(q@, x),
{
    let mut r: VecDeque<u64> = VecDeque::new();
    let mut i: usize = 0;
    while i < q.len()
        invariant
            i <= q@.len(),
            r@ == without(q@.take(i as int), x),
        decreases q@.len() - i,
    {
        assert(q@.take(i as int + 1).drop_last() =~= q@.take(i as int));
        let y = q[i];
        if y != x {
            r.push_back(y);
        }
        i += 1;
    }
    assert(q@.take(q@.len() as int) =~= q@);
    r
}

/// Whether `x` occurs in `v`.
fn vec_contains(v: &Vec<u64>, x: u64) -> (b: bool)
    ensures
        b == v@.contains(x),
{
    let mut i: usize = 0;
    while i < v.len()
        invariant
            i <= v@.len(),
            forall|k: int| 0 <= k < i ==> v@[k] != x,
        decreases v@.len() - i,
    {
        if v[i] == x {
            return true;
        }
        i += 1;
    }
    false
}

impl TranscodeState {
    pub const MAX_CONCURRENT_JOBS: usize = 3;

    /// The job map, by id.
    pub closed spec fn jobs(&self) -> Map<u64, TranscodeJob> {
        self.inner.jobs@
    }

    /// Ids in the order the jobs were enqueued.
    pub closed spec fn order(&self) -> Seq<u64> {
        self.inner.order@
    }

    /// Ids waiting to start, front first.
    pub closed spec fn pending(&self) -> Seq<u64> {
        self.inner.pending@
    }

    /// Ids currently running.
    pub closed spec fn running(&self) -> Seq<u64> {
        self.inner.running@
    }

    /// Ids that were asked to cancel.
    pub closed spec fn canceled(&self) -> Seq<u64> {
        self.inner.canceled@
    }

    /// The last id handed out (0 before the first).
    pub closed spec fn last_id(&self) -> u64 {
        self.next_id
    }

    /// The queue never holds more running jobs than it may run at once.
    pub closed spec fn wf(&self) -> bool {
        &&& self.inner.running@.len() <= Self::MAX_CONCURRENT_JOBS
        &&& keyed_by_id(self.inner.jobs@)
    }

    /// Law: a well-formed queue runs at most `MAX_CONCURRENT_JOBS` jobs at
    /// once, and holds each job under its own id.
    pub proof fn law_running_bounded(&self)
        requires
            self.wf(),
        ensures
            self.running().len() <= Self::MAX_CONCURRENT_JOBS,
            keyed_by_id(self.jobs()),
    {
    }

    /// An empty queue.
    pub fn new() -> (s: TranscodeState)
        ensures
            s.wf(),
            s.jobs() == Map::<u64, TranscodeJob>::empty(),
            s.order() == Seq::<u64>::empty(),
            s.pending() == Seq::<u64>::empty(),
            s.running() == Seq::<u64>::empty(),
            s.canceled() == Seq::<u64>::empty(),
            s.last_id() == 0,
    {
        TranscodeState {
            next_id: 0,
            inner: TranscodeStateInner {
                jobs: HashMapWithView::new(),
                order: Vec::new(),
                pending: VecDeque::new(),
                running: Vec::new(),
                canceled: Vec::new(),
            },
        }
    }

    /// The last id handed out.
    pub fn last_job_id(&self) -> (r: u64)
        ensures
            r == self.last_id(),
    {
        self.next_id
    }

    /// A fresh job id: one more than the last.
    pub fn next_job_id(&mut self) -> (id: u64)
        requires
            old(self).last_id() < u64::MAX,
        ensures
            id == old(self).last_id() + 1,
            final(self).last_id() == id,
            final(self).jobs() == old(self).jobs(),
            final(self).order() == old(self).order(),
            final(self).pending() == old(self).pending(),
            final(self).running() == old(self).running(),
            final(self).canceled() == old(self).canceled(),
            old(self).wf() ==> final(self).wf(),
    {
        self.next_id = self.next_id + 1;
        self.next_id
    }

    /// Adds a job: it goes to the end of the order and of the pending queue,
    /// and replaces any job with the same id.
    pub fn enqueue(&mut self, job: TranscodeJob)
        ensures
            final(self).jobs() == old(self).jobs().insert(job.id, job),
            final(self).order() == old(self).order().push(job.id),
            final(self).pending() == old(self).pending().push(job.id),
            final(self).running() == old(self).running(),
            final(self).canceled() == old(self).canceled(),
            final(self).last_id() == old(self).last_id(),
            old(self).wf() ==> final(self).wf(),
    {
        let id = job.id;
        self.inner.order.push(id);
        self.inner.pending.push_back(id);
        self.inner.jobs.insert(id, job);
    }

    /// Whether cancellation was asked for `job_id`.
    pub fn is_canceled(&self, job_id: u64) -> (b: bool)
        ensures
            b == self.canceled().contains(job_id),
    {
        vec_contains(&self.inner.canceled, job_id)
    }

    /// A copy of the job with `job_id`, if there is one.
    pub fn job(&self, job_id: u64) -> (r: Option<TranscodeJob>)
        ensures
            r == (if self.jobs().contains_key(job_id) {
                Some(self.jobs()[job_id])
            } else {
                None
            }),
    {
        match self.inner.jobs.get(&job_id) {
            Some(job) => Some(job.duplicate()),
            None => None,
        }
    }

    /// Asks to cancel `job_id`: it is recorded as canceled, leaves the pending
    /// queue, and an existing job is marked canceled with a message.
    pub fn cancel(&mut self, job_id: u64)
        ensures
            final(self).canceled() == old(self).canceled().push(job_id),
            final(self).pending() == without(old(self).pending(), job_id),
            final(self).running() == old(self).running(),
            final(self).order() == old(self).order(),
            final(self).last_id() == old(self).last_id(),
            old(self).wf() ==> final(self).wf(),
            final(self).jobs().dom() == old(self).jobs().dom(),
            forall|id: u64|
                id != job_id && #[trigger] old(self).jobs().contains_key(id)
                    ==> final(self).jobs()[id] == old(self).jobs()[id],
            old(self).jobs().contains_key(job_id) ==> {
                let j = final(self).jobs()[job_id];
                &&& j.status == TranscodeJobStatus::Canceled
                &&& j.error_message matches Some(m) && m@ == canceled_message()
                &&& j == TranscodeJob {
                    status: TranscodeJobStatus::Canceled,
                    error_message: j.error_message,
                    ..old(self).jobs()[job_id]
                }
            },
    {
        self.inner.canceled.push(job_id);
        self.inner.pending = deque_without(&self.inner.pending, job_id);
        match self.inner.jobs.remove(&job_id) {
            Some(mut job) => {
                job.status = TranscodeJobStatus::Canceled;
                job.error_message = Some(String::from_str("任务已取消"));
                self.inner.jobs.insert(job_id, job);
                assert(final(self).jobs().dom() =~= old(self).jobs().dom());
            },
            None => {},
        }
    }

    /// Removes `job_id` from every list and from the job map.
    pub fn remove(&mut self, job_id: u64)
        ensures
            final(self).jobs() == old(self).jobs().remove(job_id),
            final(self).order() == without(old(self).order(), job_id),
            final(self).pending() == without(old(self).pending(), job_id),
            final(self).running() == without(old(self).running(), job_id),
            final(self).canceled() == without(old(self).canceled(), job_id),
            final(self).last_id() == old(self).last_id(),
            old(self).wf() ==> final(self).wf(),
    {
        proof {
            lemma_without_excludes(self.inner.running@, job_id);
        }
        self.inner.pending = deque_without(&self.inner.pending, job_id);
        self.inner.running = vec_without(&self.inner.running, job_id);
        self.inner.canceled = vec_without(&self.inner.canceled, job_id);
        let _ = self.inner.jobs.remove(&job_id);
        self.inner.order = vec_without(&self.inner.order, job_id);
    }

    /// Starts pending jobs until `MAX_CONCURRENT_JOBS` run or none is pending.
    /// A pending id that was canceled, or whose job is gone, is dropped from
    /// the queue without starting. Returns the ids started, in order.
    pub fn schedule(&mut self, now_ms: u64) -> (started: Vec<u64>)
        requires
            old(self).wf(),
        ensures
            final(self).wf(),
            ({
                let plan = schedule_plan(
                    old(self).pending(),
                    old(self).running().len(),
                    old(self).canceled(),
                    old(self).jobs(),
                );
                &&& started@ == plan.0
                &&& plan.1 <= old(self).pending().len()
                &&& final(self).pending() == old(self).pending().skip(plan.1 as int)
            }),
            final(self).running() == old(self).running() + started@,
            final(self).running().len() == Self::MAX_CONCURRENT_JOBS
                || final(self).pending().len() == 0,
            final(self).canceled() == old(self).canceled(),
            final(self).order() == old(self).order(),
            final(self).last_id() == old(self).last_id(),
            final(self).jobs().dom() == old(self).jobs().dom(),
            forall|id: u64| #[trigger]
                final(self).jobs().contains_key(id) ==> final(self).jobs()[id] == (
                if started@.contains(id) {
                    started_job(old(self).jobs()[id], now_ms)
                } else {
                    old(self).jobs()[id]
                }),
    {
        let ghost old_pending = self.inner.pending@;
        let ghost old_running = self.inner.running@;
        let ghost old_jobs = self.inner.jobs@;
        let ghost canceled = self.inner.canceled@;
        let ghost mut consumed: nat = 0;
        let mut started: Vec<u64> = Vec::new();
        loop
            invariant
                self.inner.running@ == old_running + started@,
                self.inner.running@.len() <= Self::MAX_CONCURRENT_JOBS,
                keyed_by_id(self.inner.jobs@),
                consumed <= old_pending.len(),
                self.inner.pending@ == old_pending.skip(consumed as int),
                self.inner.canceled@ == canceled,
                self.inner.order@ == old(self).inner.order@,
                self.next_id == old(self).next_id,
                self.inner.jobs@.dom() == old_jobs.dom(),
                ({
                    let whole = schedule_plan(old_pending, old_running.len(), canceled, old_jobs);
                    let rest = schedule_plan(
                        self.inner.pending@,
                        self.inner.running@.len(),
                        canceled,
                        old_jobs,
                    );
                    whole.0 == started@ + rest.0 && whole.1 == consumed + rest.1
                }),
                forall|id: u64| #[trigger]
                    self.inner.jobs@.contains_key(id) ==> self.inner.jobs@[id] == (
                    if started@.contains(id) {
                        started_job(old_jobs[id], now_ms)
                    } else {
                        old_jobs[id]
                    }),
            ensures
                self.inner.running@.len() == Self::MAX_CONCURRENT_JOBS
                    || self.inner.pending@.len() == 0,
            decreases self.inner.pending@.len(),
        {
            if self.inner.running.len() >= Self::MAX_CONCURRENT_JOBS {
                break;
            }
            let ghost before = self.inner.pending@;
            let next = self.inner.pending.pop_front();
            match next {
                None => {
                    break;
                },
                Some(id) => {
                    proof {
                        consumed = consumed + 1;
                        assert(self.inner.pending@ =~= old_pending.skip(consumed as int));
                        assert(before.drop_first() =~= self.inner.pending@);
                    }
                    if vec_contains(&self.inner.canceled, id) {
                        continue;
                    }
                    let removed = self.inner.jobs.remove(&id);
                    match removed {
                        Some(mut job) => {
                            let ghost prev_started = started@;
                            job.status = TranscodeJobStatus::Running;
                            job.started_at_ms = Some(now_ms);
                            job.progress_percent_bits = PROGRESS_ZERO_BITS;
                            self.inner.jobs.insert(id, job);
                            self.inner.running.push(id);
                            started.push(id);
                            proof {
                                assert(self.inner.jobs@.dom() =~= old_jobs.dom());
                                assert(self.inner.running@ =~= old_running + started@);
                                assert forall|k: u64|
                                    started@.contains(k) <==> (prev_started.contains(k) || k
                                        == id) by {
                                    if started@.contains(k) {
                                        let i = choose|i: int|
                                            0 <= i < started@.len() && started@[i] == k;
                                        if i < prev_started.len() {
                                            assert(prev_started[i] == k);
                                        }
                                    }
                                    if prev_started.contains(k) {
                                        let i = choose|i: int|
                                            0 <= i < prev_started.len() && prev_started[i] == k;
                                        assert(started@[i] == k);
                                    }
                                    if k == id {
                                        assert(started@[prev_started.len() as int] == k);
                                    }
                                }
                                let rest_before = schedule_plan(
                                    before,
                                    old_running.len() + prev_started.len(),
                                    canceled,
                                    old_jobs,
                                );
                                let rest_after = schedule_plan(
                                    self.inner.pending@,
                                    self.inner.running@.len(),
                                    canceled,
                                    old_jobs,
                                );
                                assert(rest_before.0 == seq![id] + rest_after.0);
                                assert(prev_started + rest_before.0 =~= started@ + rest_after.0);
                            }
                        },
                        None => {},
                    }
                },
            }
        }
        started
    }

    /// Ends `job_id` with `status`: it leaves the running set; an existing job
    /// records the status, the finish time, a given error message, and full
    /// progress on success. Returns the job's progress bits (those of `0.0`
    /// when the job is gone).
    pub fn finish(
        &mut self,
        job_id: u64,
        status: TranscodeJobStatus,
        error_message: Option<String>,
        now_ms: u64,
    ) -> (progress_bits: u64)
        ensures
            final(self).running() == without(old(self).running(), job_id),
            final(self).pending() == old(self).pending(),
            final(self).order() == old(self).order(),
            final(self).canceled() == old(self).canceled(),
            final(self).last_id() == old(self).last_id(),
            old(self).wf() ==> final(self).wf(),
            old(self).jobs().contains_key(job_id) ==> {
                let j = finished_job(old(self).jobs()[job_id], status, error_message, now_ms);
                &&& final(self).jobs() == old(self).jobs().insert(job_id, j)
                &&& progress_bits == j.progress_percent_bits
            },
            !old(self).jobs().contains_key(job_id) ==> {
                &&& final(self).jobs() == old(self).jobs()
                &&& progress_bits == PROGRESS_ZERO_BITS
            },
    {
        proof {
            lemma_without_excludes(self.inner.running@, job_id);
        }
        self.inner.running = vec_without(&self.inner.running, job_id);
        match self.inner.jobs.remove(&job_id) {
            Some(mut job) => {
                job.status = status;
                job.finished_at_ms = Some(now_ms);
                if error_message.is_some() {
                    job.error_message = error_message;
                }
                if status == TranscodeJobStatus::Success {
                    job.progress_percent_bits = PROGRESS_COMPLETE_BITS;
                }
                let bits = job.progress_percent_bits;
                self.inner.jobs.insert(job_id, job);
                proof {
                    assert(self.inner.jobs@ =~= old(self).inner.jobs@.insert(
                        job_id,
                        finished_job(old(self).jobs()[job_id], status, error_message, now_ms),
                    ));
                }
                bits
            },
            None => PROGRESS_ZERO_BITS,
        }
    }

    /// Records progress of `job_id`: the progress (clamped to `0..=100`), and an output size,
    /// status and error message where given. Returns the job's status after
    /// the report (`Running` when the job is gone).
    pub fn update_progress(
        &mut self,
        job_id: u64,
        progress_percent_bits: u64,
        output_size_bytes: Option<u64>,
        status: Option<TranscodeJobStatus>,
        error_message: Option<String>,
    ) -> (current: TranscodeJobStatus)
        ensures
            final(self).running() == old(self).running(),
            final(self).pending() == old(self).pending(),
            final(self).order() == old(self).order(),
            final(self).canceled() == old(self).canceled(),
            final(self).last_id() == old(self).last_id(),
            old(self).wf() ==> final(self).wf(),
            old(self).jobs().contains_key(job_id) ==> {
                let j = progressed_job(
                    old(self).jobs()[job_id],
                    progress_percent_bits,
                    output_size_bytes,
                    status,
                    error_message,
                );
                &&& final(self).jobs() == old(self).jobs().insert(job_id, j)
                &&& current == j.status
            },
            !old(self).jobs().contains_key(job_id) ==> {
                &&& final(self).jobs() == old(self).jobs()
                &&& current == TranscodeJobStatus::Running
            },
    {
        match self.inner.jobs.remove(&job_id) {
            Some(mut job) => {
                job.progress_percent_bits = f64_bits_clamp(
                    progress_percent_bits,
                    F64_ZERO,
                    PROGRESS_COMPLETE_BITS,
                );
                if output_size_bytes.is_some() {
                    job.output_size_bytes = output_size_bytes;
                }
                match status {
                    Some(next) => {
                        job.status = next;
                    },
                    None => {},
                }
                if error_message.is_some() {
                    job.error_message = error_message;
                }
                let current = job.status;
                self.inner.jobs.insert(job_id, job);
                proof {
                    assert(self.inner.jobs@ =~= old(self).inner.jobs@.insert(
                        job_id,
                        progressed_job(
                            old(self).jobs()[job_id],
                            progress_percent_bits,
                            output_size_bytes,
                            status,
                            error_message,
                        ),
                    ));
                }
                current
            },
            None => TranscodeJobStatus::Running,
        }
    }

    /// Records how the work on `job_id` ended: the progress report and the
    /// finish that the outcome calls for (see `concluded_job`).
    pub fn record_job_outcome(
        &mut self,
        job_id: u64,
        outcome: Result<JobResult, String>,
        now_ms: u64,
    )
        ensures
            final(self).running() == without(old(self).running(), job_id),
            final(self).pending() == old(self).pending(),
            final(self).order() == old(self).order(),
            final(self).canceled() == old(self).canceled(),
            final(self).last_id() == old(self).last_id(),
            old(self).wf() ==> final(self).wf(),
            old(self).jobs().contains_key(job_id) ==> final(self).jobs() == old(self).jobs().insert(
                job_id,
                concluded_job(old(self).jobs()[job_id], outcome, now_ms),
            ),
            !old(self).jobs().contains_key(job_id) ==> final(self).jobs() == old(self).jobs(),
    {
        match outcome {
            Ok(JobResult::Success(size)) => {
                self.update_progress(
                    job_id,
                    PROGRESS_COMPLETE_BITS,
                    Some(size),
                    Some(TranscodeJobStatus::Success),
                    None,
                );
                self.finish(job_id, TranscodeJobStatus::Success, None, now_ms);
            },
            Ok(JobResult::Skipped(size, reason)) => {
                let kept = reason.clone();
                self.update_progress(
                    job_id,
                    PROGRESS_COMPLETE_BITS,
                    Some(size),
                    Some(TranscodeJobStatus::Skipped),
                    Some(kept),
                );
                self.finish(job_id, TranscodeJobStatus::Skipped, Some(reason), now_ms);
            },
            Err(e) => {
                self.finish(job_id, TranscodeJobStatus::Failed, Some(e), now_ms);
            },
        }
    }

    /// The jobs in enqueue order, with the number running and queued.
    pub fn snapshot(&self) -> (s: TranscodeQueueSnapshot)
        ensures
            s.jobs@ == ordered_jobs(self.order(), self.jobs()),
            s.running_jobs == self.running().len(),
            s.queued_jobs == self.pending().len(),
    {
        let mut jobs: Vec<TranscodeJob> = Vec::new();
        let mut i: usize = 0;
        while i < self.inner.order.len()
            invariant
                i <= self.inner.order@.len(),
                jobs@ == ordered_jobs(self.inner.order@.take(i as int), self.inner.jobs@),
            decreases self.inner.order@.len() - i,
        {
            assert(self.inner.order@.take(i as int + 1).drop_last() =~= self.inner.order@.take(
                i as int,
            ));
            let id = self.inner.order[i];
            match self.inner.jobs.get(&id) {
                Some(job) => {
                    jobs.push(job.duplicate());
                },
                None => {},
            }
            i += 1;
        }
        assert(self.inner.order@.take(self.inner.order@.len() as int) =~= self.inner.order@);
        TranscodeQueueSnapshot {
            running_jobs: self.inner.running.len(),
            queued_jobs: self.inner.pending.len(),
            jobs,
        }
    }
}


/// Law: scheduling starts only ids that were pending, that were never asked
/// to cancel and whose job exists; it consumes no more entries than are
/// pending; and it never lets more than `MAX_CONCURRENT_JOBS` jobs run.
pub proof fn law_schedule_starts_only_eligible_jobs(
    pending: Seq<u64>,
    running: nat,
    canceled: Seq<u64>,
    jobs: Map<u64, TranscodeJob>,
)
    requires
        running <= TranscodeState::MAX_CONCURRENT_JOBS,
    ensures
        ({
            let plan = schedule_plan(pending, running, canceled, jobs);
            &&& plan.1 <= pending.len()
            &&& running + plan.0.len() <= TranscodeState::MAX_CONCURRENT_JOBS
            &&& forall|k: int|
                0 <= k < plan.0.len() ==> {
                    &&& pending.contains(#[trigger] plan.0[k])
                    &&& !canceled.contains(plan.0[k])
                    &&& jobs.contains_key(plan.0[k])
                }
        }),
    decreases pending.len(),
{
    if running < TranscodeState::MAX_CONCURRENT_JOBS && pending.len() > 0 {
        let id = pending[0];
        let starts = !canceled.contains(id) && jobs.contains_key(id);
        let next_running = if starts {
            running + 1
        } else {
            running
        };
        let rest_pending = pending.drop_first();
        law_schedule_starts_only_eligible_jobs(rest_pending, next_running, canceled, jobs);
        let plan = schedule_plan(pending, running, canceled, jobs);
        let rest = schedule_plan(rest_pending, next_running, canceled, jobs);
        assert forall|k: int| 0 <= k < plan.0.len() implies {
            &&& pending.contains(#[trigger] plan.0[k])
            &&& !canceled.contains(plan.0[k])
            &&& jobs.contains_key(plan.0[k])
        } by {
            if starts {
                if k == 0 {
                    assert(pending[0] == plan.0[k]);
                } else {
                    assert(plan.0[k] == rest.0[k - 1]);
                    let i = choose|i: int|
                        0 <= i < rest_pending.len() && rest_pending[i] == rest.0[k - 1];
                    assert(pending[i + 1] == plan.0[k]);
                }
            } else {
                assert(plan.0[k] == rest.0[k]);
                let i = choose|i: int| 0 <= i < rest_pending.len() && rest_pending[i] == rest.0[k];
                assert(pending[i + 1] == plan.0[k]);
            }
        }
    }
}

/// Law: a job whose cancellation was asked is never started by scheduling.
pub proof fn law_canceled_job_never_starts(
    pending: Seq<u64>,
    running: nat,
    canceled: Seq<u64>,
    jobs: Map<u64, TranscodeJob>,
    job_id: u64,
)
    requires
        running <= TranscodeState::MAX_CONCURRENT_JOBS,
        canceled.contains(job_id),
    ensures
        !schedule_plan(pending, running, canceled, jobs).0.contains(job_id),
{
    law_schedule_starts_only_eligible_jobs(pending, running, canceled, jobs);
}

/// Law: once `cancel(job_id)` has run, `job_id` is no longer pending and no
/// later scheduling starts it, whatever else is pending or running.
pub proof fn law_cancel_then_schedule(
    before: Seq<u64>,
    canceled: Seq<u64>,
    job_id: u64,
    running: nat,
    jobs: Map<u64, TranscodeJob>,
)
    requires
        running <= TranscodeState::MAX_CONCURRENT_JOBS,
    ensures
        !without(before, job_id).contains(job_id),
        !schedule_plan(without(before, job_id), running, canceled.push(job_id), jobs).0.contains(
            job_id,
        ),
{
    lemma_without_excludes(before, job_id);
    assert(canceled.push(job_id)[canceled.len() as int] == job_id);
    law_canceled_job_never_starts(
        without(before, job_id),
        running,
        canceled.push(job_id),
        jobs,
        job_id,
    );
}

/// Every stored job sits under its own id.
pub open spec fn keyed_by_id(jobs: Map<u64, TranscodeJob>) -> bool {
    forall|k: u64| #[trigger] jobs.contains_key(k) ==> jobs[k].id == k
}

proof fn lemma_ordered_jobs_keyed(order: Seq<u64>, jobs: Map<u64, TranscodeJob>)
    requires
        keyed_by_id(jobs),
    ensures
        forall|k: int|
            0 <= k < ordered_jobs(order, jobs).len() ==> {
                let j = #[trigger] ordered_jobs(order, jobs)[k];
                &&& jobs.contains_key(j.id)
                &&& jobs[j.id] == j
                &&& order.contains(j.id)
            },
    decreases order.len(),
{
    if order.len() > 0 {
        let t = order.drop_last();
        lemma_ordered_jobs_keyed(t, jobs);
        let out = ordered_jobs(order, jobs);
        let rest = ordered_jobs(t, jobs);
        assert forall|k: int| 0 <= k < out.len() implies {
            let j = #[trigger] out[k];
            &&& jobs.contains_key(j.id)
            &&& jobs[j.id] == j
            &&& order.contains(j.id)
        } by {
            if k < rest.len() {
                assert(out[k] == rest[k]);
                let i = choose|i: int| 0 <= i < t.len() && t[i] == rest[k].id;
                assert(order[i] == rest[k].id);
            } else {
                let last = order.last();
                assert(jobs.contains_key(last));
                assert(out[k] == jobs[last]);
                assert(order[order.len() - 1] == last);
            }
        }
    }
}

/// Law: after `remove(job_id)` the snapshot lists no job with that id, and
/// every job it lists is still stored.
pub proof fn law_removed_job_leaves_snapshot(
    order: Seq<u64>,
    jobs: Map<u64, TranscodeJob>,
    job_id: u64,
)
    requires
        keyed_by_id(jobs),
    ensures
        forall|k: int|
            0 <= k < ordered_jobs(without(order, job_id), jobs.remove(job_id)).len() ==> {
                let j = #[trigger] ordered_jobs(without(order, job_id), jobs.remove(job_id))[k];
                &&& j.id != job_id
                &&& jobs.contains_key(j.id)
                &&& jobs[j.id] == j
            },
{
    let m = jobs.remove(job_id);
    assert(keyed_by_id(m));
    lemma_ordered_jobs_keyed(without(order, job_id), m);
}

} // verus!
