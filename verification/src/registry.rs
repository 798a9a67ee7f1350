//! The directory of all jobs created in the life of the process.
//!
//! A job enters the registry as `Running` under an id that no other job
//! carries, moves at most once to a terminal status, and never leaves.

use vstd::prelude::*;
use vstd::string::*;
use crate::error::AppError;
use crate::model::{BuildJob, JobStatus, JobView};
use crate::trusted::{is_uuid_v4_text, random_job_id, utc_now_rfc3339};

verus! {

/// Why a status transition was refused.
#[derive(Clone, Copy, Debug, PartialEq, Eq, Structural)]
pub enum TransitionError {
    /// No job carries the id.
    NotFound,
    /// The job has already reached a terminal status, or the requested
    /// status is not terminal.
    InvalidTransition,
}

/// Some job in `jobs` carries `id`.
pub open spec fn has_job(jobs: Seq<JobView>, id: Seq<char>) -> bool {
    exists|i: int| 0 <= i < jobs.len() && #[trigger] jobs[i].id == id
}

/// No two jobs in `jobs` carry the same id.
pub open spec fn distinct_ids(jobs: Seq<JobView>) -> bool {
    forall|i: int, j: int|
        0 <= i < j < jobs.len() ==> #[trigger] jobs[i].id != #[trigger] jobs[j].id
}

/// The position of a job that carries `id`, where there is one.
pub open spec fn position_of(jobs: Seq<JobView>, id: Seq<char>) -> int {
    choose|i: int| 0 <= i < jobs.len() && #[trigger] jobs[i].id == id
}

/// The job that carries `id`, where there is one.
pub open spec fn lookup(jobs: Seq<JobView>, id: Seq<char>) -> Option<JobView> {
    if has_job(jobs, id) {
        Some(jobs[position_of(jobs, id)])
    } else {
        None
    }
}

/// The job that a registration under `id` at time `created_at` adds.
pub open spec fn new_job(id: Seq<char>, created_at: Seq<char>) -> JobView {
    JobView { id, status: JobStatus::Running, created_at }
}

/// The registry after a job was registered.
pub open spec fn registered(jobs: Seq<JobView>, id: Seq<char>, created_at: Seq<char>) -> Seq<
    JobView,
> {
    jobs.push(new_job(id, created_at))
}

/// `job` with its status replaced.
pub open spec fn with_status(job: JobView, status: JobStatus) -> JobView {
    JobView { id: job.id, status, created_at: job.created_at }
}

/// The registry after the job under `id` was given `status`; every other job
/// is as before.
pub open spec fn transitioned(jobs: Seq<JobView>, id: Seq<char>, status: JobStatus) -> Seq<
    JobView,
> {
    Seq::new(
        jobs.len(),
        |i: int|
            if jobs[i].id == id {
                with_status(jobs[i], status)
            } else {
                jobs[i]
            },
    )
}

/// What a transition request does: the new registry, or the reason why the
/// registry stays as it is.
pub open spec fn transition_outcome(jobs: Seq<JobView>, id: Seq<char>, status: JobStatus) -> Result<
    Seq<JobView>,
    TransitionError,
> {
    match lookup(jobs, id) {
        None => Err(TransitionError::NotFound),
        Some(job) => if job.status.terminal() || !status.terminal() {
            Err(TransitionError::InvalidTransition)
        } else {
            Ok(transitioned(jobs, id, status))
        },
    }
}

/// The message of the error that reports an unknown job.
pub open spec fn unknown_job_message(id: Seq<char>) -> Seq<char> {
    "Job "@ + id + " not found"@
}

/// The message of the error that reports an id that is already taken.
pub open spec fn taken_id_message(id: Seq<char>) -> Seq<char> {
    "Job id "@ + id + " is already in use"@
}

/// The content of each job of a list, in the same order.
pub open spec fn job_views(jobs: Seq<BuildJob>) -> Seq<JobView> {
    Seq::new(jobs.len(), |i: int| jobs[i]@)
}

/// The length of the longest id in `jobs`; zero where there is no job.
pub open spec fn longest_id(jobs: Seq<JobView>) -> nat
    decreases jobs.len(),
{
    if jobs.len() == 0 {
        0
    } else if jobs.last().id.len() > longest_id(jobs.drop_last()) {
        jobs.last().id.len()
    } else {
        longest_id(jobs.drop_last())
    }
}

/// A row of `n` hyphens.
pub open spec fn hyphens(n: nat) -> Seq<char> {
    Seq::new(n, |i: int| '-')
}

/// The id that a job gets when `drawn` was drawn for it: `drawn` itself
/// where no job carries it, else `drawn` made longer than every id in the
/// registry by hyphens at its end.
pub open spec fn unused_id(jobs: Seq<JobView>, drawn: Seq<char>) -> Seq<char> {
    if has_job(jobs, drawn) {
        drawn + hyphens(longest_id(jobs) + 1)
    } else {
        drawn
    }
}

/// `id` is what some random draw gives as the id of a new job of `jobs`.
pub open spec fn is_fresh_id(jobs: Seq<JobView>, id: Seq<char>) -> bool {
    exists|drawn: Seq<char>| is_uuid_v4_text(drawn) && id == #[trigger] unused_id(jobs, drawn)
}

/// No id in `jobs` is longer than the longest.
pub proof fn lemma_longest_id(jobs: Seq<JobView>, i: int)
    requires
        0 <= i < jobs.len(),
    ensures
        jobs[i].id.len() <= longest_id(jobs),
    decreases jobs.len(),
{
    if i < jobs.len() - 1 {
        lemma_longest_id(jobs.drop_last(), i);
    }
}

/// Whatever was drawn, the id made of it is carried by no job.
pub proof fn law_unused_id_is_unused(jobs: Seq<JobView>, drawn: Seq<char>)
    ensures
        !has_job(jobs, unused_id(jobs, drawn)),
        !has_job(jobs, drawn) ==> unused_id(jobs, drawn) == drawn,
{
    let id = unused_id(jobs, drawn);
    if has_job(jobs, id) {
        let at = position_of(jobs, id);
        lemma_longest_id(jobs, at);
        assert(id.len() == drawn.len() + longest_id(jobs) + 1);
    }
}

/// In-memory directory of jobs, in the order of their registration.
pub struct JobRegistry {
    jobs: Vec<BuildJob>,
}

impl View for JobRegistry {
    type V = Seq<JobView>;

    closed spec fn view(&self) -> Seq<JobView> {
        job_views(self.jobs@)
    }
}

impl JobRegistry {
    /// The registry is well formed: no two of its jobs share an id. Every
    /// registry built by the functions below is.
    pub open spec fn wf(&self) -> bool {
        distinct_ids(self@)
    }

    /// An empty registry.
    pub fn new() -> (registry: JobRegistry)
        ensures
            registry.wf(),
            registry@ == Seq::<JobView>::empty(),
    {
        JobRegistry { jobs: Vec::new() }
    }

    /// The number of jobs ever registered.
    pub fn len(&self) -> (n: usize)
        ensures
            n == self@.len(),
    {
        self.jobs.len()
    }

    /// The position of the job under `id`.
    fn find(&self, id: &String) -> (found: Option<usize>)
        requires
            self.wf(),
        ensures
            found is Some <==> has_job(self@, id@),
            found matches Some(i) ==> i < self@.len() && self@[i as int].id == id@ && i
                == position_of(self@, id@),
    {
        let mut i: usize = 0;
        while i < self.jobs.len()
            invariant
                i <= self.jobs@.len(),
                self@.len() == self.jobs@.len(),
                distinct_ids(self@),
                forall|k: int| 0 <= k < i ==> (#[trigger] self@[k]).id != id@,
            decreases self.jobs@.len() - i,
        {
            if self.jobs[i].id == *id {
                assert(self@[i as int].id == id@);
                return Some(i);
            }
            i += 1;
        }
        None
    }

    /// Whether a job carries `id`.
    pub fn contains(&self, id: &str) -> (known: bool)
        requires
            self.wf(),
        ensures
            known == has_job(self@, id@),
    {
        let key = String::from_str(id);
        self.find(&key).is_some()
    }

    /// The length of the longest id in the registry.
    fn longest_id_len(&self) -> (n: usize)
        ensures
            n == longest_id(self@),
    {
        let mut n: usize = 0;
        let mut i: usize = 0;
        assert(self@.take(0) =~= Seq::<JobView>::empty());
        while i < self.jobs.len()
            invariant
                i <= self.jobs@.len(),
                self@.len() == self.jobs@.len(),
                n == longest_id(self@.take(i as int)),
            decreases self.jobs@.len() - i,
        {
            let len = self.jobs[i].id.as_str().unicode_len();
            proof {
                let next = self@.take(i + 1);
                assert(next.drop_last() =~= self@.take(i as int));
                assert(next.last().id == self.jobs@[i as int].id@);
            }
            if len > n {
                n = len;
            }
            i += 1;
        }
        assert(self@.take(i as int) =~= self@);
        n
    }

    /// Makes an id that no job carries out of the id `drawn`: `drawn`
    /// itself where it is free, else `drawn` with hyphens at its end, one
    /// more than the longest id in the registry has characters.
    pub fn unused_id(&self, drawn: String) -> (id: String)
        requires
            self.wf(),
        ensures
            id@ == unused_id(self@, drawn@),
            !has_job(self@, id@),
    {
        proof {
            law_unused_id_is_unused(self@, drawn@);
        }
        if self.find(&drawn).is_none() {
            return drawn;
        }
        let longest = self.longest_id_len();
        let mut id = drawn;
        let mut k: usize = 0;
        proof {
            reveal_strlit("-");
            assert(id@ =~= drawn@ + hyphens(0));
        }
        while k < longest
            invariant
                k <= longest,
                id@ == drawn@ + hyphens(k as nat),
                "-"@ == seq!['-'],
            decreases longest - k,
        {
            id.append("-");
            k += 1;
            assert(id@ =~= drawn@ + hyphens(k as nat));
        }
        id.append("-");
        assert(id@ =~= drawn@ + hyphens((longest + 1) as nat));
        id
    }

    /// Draws a random id and makes an id of it that no job carries. The
    /// draw comes from outside, so the contract says what holds whatever was
    /// drawn.
    pub fn fresh_id(&self) -> (id: String)
        requires
            self.wf(),
        ensures
            is_fresh_id(self@, id@),
            !has_job(self@, id@),
    {
        self.unused_id(random_job_id())
    }

    /// Puts a new `Running` job under an id that is free at the end of the
    /// registry.
    pub(crate) fn register_free(&mut self, id: String, created_at: String) -> (job: BuildJob)
        requires
            old(self).wf(),
            !has_job(old(self)@, id@),
        ensures
            final(self).wf(),
            job@ == new_job(id@, created_at@),
            final(self)@ == registered(old(self)@, id@, created_at@),
    {
        let job = BuildJob { id, status: JobStatus::Running, created_at };
        let copy = job.duplicate();
        let ghost before = self@;
        self.jobs.push(job);
        assert(self@ =~= registered(before, copy@.id, copy@.created_at));
        assert(distinct_ids(self@)) by {
            assert forall|i: int, j: int| 0 <= i < j < self@.len() implies self@[i].id
                != self@[j].id by {
                if j == before.len() {
                    assert(before[i].id != copy@.id);
                } else {
                    assert(before[i].id != before[j].id);
                }
            }
        }
        copy
    }

    /// Stores a new `Running` job under `id`, unless the id is taken.
    ///
    /// On success the job stands last in the registry and is returned. On a
    /// taken id the registry is unchanged and the error is `Internal`.
    pub fn register(&mut self, id: String, created_at: String) -> (result: Result<
        BuildJob,
        AppError,
    >)
        requires
            old(self).wf(),
        ensures
            final(self).wf(),
            !has_job(old(self)@, id@) ==> result is Ok,
            result matches Ok(job) ==> {
                &&& !has_job(old(self)@, id@)
                &&& job@ == new_job(id@, created_at@)
                &&& final(self)@ == registered(old(self)@, id@, created_at@)
            },
            result matches Err(e) ==> {
                &&& has_job(old(self)@, id@)
                &&& e@ == crate::error::AppErrorView::Internal(taken_id_message(id@))
                &&& final(self)@ == old(self)@
            },
    {
        match self.find(&id) {
            Some(_) => {
                let text = String::from_str("Job id ").concat(id.as_str()).concat(
                    " is already in use",
                );
                Err(AppError::Internal(text))
            },
            None => Ok(self.register_free(id, created_at)),
        }
    }

    /// Registers a new job under a fresh id, stamped with the current time,
    /// and returns it. This never fails.
    ///
    /// The id and the time come from outside, so the contract says what holds
    /// whichever came back: the job is `Running`, its id is made of a random
    /// draw and carried by no earlier job, and the job stands last in the
    /// registry, behind the earlier jobs, which are as they were.
    pub fn create(&mut self) -> (job: BuildJob)
        requires
            old(self).wf(),
        ensures
            final(self).wf(),
            is_fresh_id(old(self)@, job@.id),
            job@.status == JobStatus::Running,
            !has_job(old(self)@, job@.id),
            final(self)@ == old(self)@.push(job@),
    {
        let id = self.fresh_id();
        let created_at = utc_now_rfc3339();
        self.register_free(id, created_at)
    }

    /// The job under `id`, or `NotFound`.
    pub fn get(&self, id: &str) -> (result: Result<BuildJob, AppError>)
        requires
            self.wf(),
        ensures
            match lookup(self@, id@) {
                Some(job) => result matches Ok(found) && found@ == job,
                None => result matches Err(e) && e@ == crate::error::AppErrorView::NotFound(
                    unknown_job_message(id@),
                ),
            },
    {
        let key = String::from_str(id);
        match self.find(&key) {
            Some(i) => Ok(self.jobs[i].duplicate()),
            None => {
                let text = String::from_str("Job ").concat(id).concat(" not found");
                Err(AppError::NotFound(text))
            },
        }
    }

    /// A snapshot of all jobs, in the order of their registration.
    pub fn list(&self) -> (jobs: Vec<BuildJob>)
        ensures
            job_views(jobs@) == self@,
    {
        let mut jobs: Vec<BuildJob> = Vec::new();
        let mut i: usize = 0;
        while i < self.jobs.len()
            invariant
                i <= self.jobs@.len(),
                jobs@.len() == i,
                self@.len() == self.jobs@.len(),
                forall|k: int| 0 <= k < i ==> (#[trigger] jobs@[k])@ == self@[k],
            decreases self.jobs@.len() - i,
        {
            jobs.push(self.jobs[i].duplicate());
            i += 1;
        }
        jobs
    }

    /// Moves the job under `id` from `Running` to the terminal `status`.
    ///
    /// Refused with `NotFound` where no job carries the id, and with
    /// `InvalidTransition` where the job is already terminal or `status` is
    /// `Running`. A refused request leaves the registry as it was.
    pub fn transition(&mut self, id: &str, status: JobStatus) -> (result: Result<
        (),
        TransitionError,
    >)
        requires
            old(self).wf(),
        ensures
            final(self).wf(),
            match transition_outcome(old(self)@, id@, status) {
                Ok(jobs) => result is Ok && final(self)@ == jobs,
                Err(e) => result == Err::<(), TransitionError>(e) && final(self)@ == old(self)@,
            },
    {
        let key = String::from_str(id);
        match self.find(&key) {
            None => Err(TransitionError::NotFound),
            Some(i) => {
                if self.jobs[i].status.is_terminal() || !status.is_terminal() {
                    return Err(TransitionError::InvalidTransition);
                }
                let ghost before = self@;
                self.jobs[i].status = status;
                proof {
                    lemma_transitioned_at(before, id@, status, i as int);
                    assert(self@ =~= transitioned(before, id@, status));
                    lemma_transition_keeps_ids(before, id@, status);
                }
                Ok(())
            },
        }
    }
}

/// With distinct ids, `transitioned` changes the one position that carries
/// the id and no other.
pub proof fn lemma_transitioned_at(jobs: Seq<JobView>, id: Seq<char>, status: JobStatus, at: int)
    requires
        distinct_ids(jobs),
        0 <= at < jobs.len(),
        jobs[at].id == id,
    ensures
        transitioned(jobs, id, status) =~= jobs.update(at, with_status(jobs[at], status)),
{
    let after = transitioned(jobs, id, status);
    assert forall|k: int| 0 <= k < jobs.len() implies after[k] == jobs.update(
        at,
        with_status(jobs[at], status),
    )[k] by {
        if k != at {
            if k < at {
                assert(jobs[k].id != jobs[at].id);
            } else {
                assert(jobs[at].id != jobs[k].id);
            }
        }
    }
}

/// A transition changes no id, so it keeps the ids distinct and the set of
/// known ids the same.
pub proof fn lemma_transition_keeps_ids(jobs: Seq<JobView>, id: Seq<char>, status: JobStatus)
    requires
        distinct_ids(jobs),
    ensures
        distinct_ids(transitioned(jobs, id, status)),
        forall|other: Seq<char>|
            has_job(transitioned(jobs, id, status), other) == has_job(jobs, other),
{
    let after = transitioned(jobs, id, status);
    assert forall|i: int| 0 <= i < jobs.len() implies (#[trigger] after[i]).id == jobs[i].id by {}
    assert forall|i: int, j: int| 0 <= i < j < after.len() implies after[i].id != after[j].id by {
        assert(jobs[i].id != jobs[j].id);
    }
    assert forall|other: Seq<char>| has_job(after, other) == has_job(jobs, other) by {
        if has_job(after, other) {
            let k = choose|k: int| 0 <= k < after.len() && #[trigger] after[k].id == other;
            assert(jobs[k].id == other);
        }
        if has_job(jobs, other) {
            let k = choose|k: int| 0 <= k < jobs.len() && #[trigger] jobs[k].id == other;
            assert(after[k].id == other);
        }
    }
}

/// With distinct ids, the job found under an id is the one at the position
/// that carries it.
pub proof fn lemma_lookup_at(jobs: Seq<JobView>, id: Seq<char>, at: int)
    requires
        distinct_ids(jobs),
        0 <= at < jobs.len(),
        jobs[at].id == id,
    ensures
        has_job(jobs, id),
        position_of(jobs, id) == at,
        lookup(jobs, id) == Some(jobs[at]),
{
    let p = position_of(jobs, id);
    if p < at {
        assert(jobs[p].id != jobs[at].id);
    } else if at < p {
        assert(jobs[at].id != jobs[p].id);
    }
}

/// Right after its registration a job is found under its id, it is
/// `Running`, and its id is carried by no other job: the ids stay distinct
/// and every other id leads to what it led to before.
pub proof fn law_registered_job_is_running(
    jobs: Seq<JobView>,
    id: Seq<char>,
    created_at: Seq<char>,
)
    requires
        distinct_ids(jobs),
        !has_job(jobs, id),
    ensures
        distinct_ids(registered(jobs, id, created_at)),
        lookup(registered(jobs, id, created_at), id) == Some(new_job(id, created_at)),
        forall|other: Seq<char>|
            other != id ==> lookup(registered(jobs, id, created_at), other) == lookup(
                jobs,
                other,
            ),
{
    let after = registered(jobs, id, created_at);
    assert forall|i: int, j: int| 0 <= i < j < after.len() implies after[i].id
        != after[j].id by {
        if j == jobs.len() {
            assert(jobs[i].id != id);
        } else {
            assert(jobs[i].id != jobs[j].id);
        }
    }
    lemma_lookup_at(after, id, jobs.len() as int);
    assert forall|other: Seq<char>| other != id implies lookup(after, other) == lookup(
        jobs,
        other,
    ) by {
        if has_job(jobs, other) {
            let k = position_of(jobs, other);
            assert(after[k].id == other);
            lemma_lookup_at(after, other, k);
        } else if has_job(after, other) {
            let k = position_of(after, other);
            assert(k < jobs.len());
            assert(jobs[k].id == other);
        }
    }
}

/// A job that was moved to a terminal status has that status, and a second
/// request for the same job, whatever it asks for, is refused.
pub proof fn law_second_transition_is_refused(
    jobs: Seq<JobView>,
    id: Seq<char>,
    first: JobStatus,
    second: JobStatus,
)
    requires
        distinct_ids(jobs),
        transition_outcome(jobs, id, first) is Ok,
    ensures
        lookup(transition_outcome(jobs, id, first)->Ok_0, id) == Some(
            with_status(lookup(jobs, id)->Some_0, first),
        ),
        transition_outcome(transition_outcome(jobs, id, first)->Ok_0, id, second) == Err::<
            Seq<JobView>,
            TransitionError,
        >(TransitionError::InvalidTransition),
{
    let after = transitioned(jobs, id, first);
    let at = position_of(jobs, id);
    lemma_transition_keeps_ids(jobs, id, first);
    lemma_lookup_at(after, id, at);
}

/// A transition of one job leaves every other job as it was.
pub proof fn law_transition_touches_one_job(
    jobs: Seq<JobView>,
    id: Seq<char>,
    status: JobStatus,
    other: Seq<char>,
)
    requires
        distinct_ids(jobs),
        other != id,
    ensures
        lookup(transitioned(jobs, id, status), other) == lookup(jobs, other),
{
    let after = transitioned(jobs, id, status);
    lemma_transition_keeps_ids(jobs, id, status);
    if has_job(jobs, other) {
        let k = position_of(jobs, other);
        assert(after[k] == jobs[k]);
        lemma_lookup_at(after, other, k);
    }
}

/// One request to the registry, as the functions of [`JobRegistry`] carry
/// it out.
pub enum RegistryOp {
    Register { id: Seq<char>, created_at: Seq<char> },
    Transition { id: Seq<char>, status: JobStatus },
}

/// The registry after one request. A request that is refused changes nothing.
pub open spec fn apply(jobs: Seq<JobView>, op: RegistryOp) -> Seq<JobView> {
    match op {
        RegistryOp::Register { id, created_at } => if has_job(jobs, id) {
            jobs
        } else {
            registered(jobs, id, created_at)
        },
        RegistryOp::Transition { id, status } => match transition_outcome(jobs, id, status) {
            Ok(after) => after,
            Err(_) => jobs,
        },
    }
}

/// The registry after a series of requests, carried out from the first to
/// the last.
pub open spec fn apply_all(jobs: Seq<JobView>, ops: Seq<RegistryOp>) -> Seq<JobView>
    decreases ops.len(),
{
    if ops.len() == 0 {
        jobs
    } else {
        apply_all(apply(jobs, ops.first()), ops.drop_first())
    }
}

/// One request keeps the ids distinct, removes no job, changes neither the
/// id nor the creation time of a job, and changes the status of a job only
/// if that job was `Running`.
pub proof fn lemma_apply_preserves(jobs: Seq<JobView>, op: RegistryOp, id: Seq<char>)
    requires
        distinct_ids(jobs),
        has_job(jobs, id),
    ensures
        distinct_ids(apply(jobs, op)),
        has_job(apply(jobs, op), id),
        lookup(apply(jobs, op), id)->Some_0.created_at == lookup(jobs, id)->Some_0.created_at,
        lookup(jobs, id)->Some_0.status.terminal() ==> lookup(apply(jobs, op), id) == lookup(
            jobs,
            id,
        ),
{
    let at = position_of(jobs, id);
    lemma_lookup_at(jobs, id, at);
    match op {
        RegistryOp::Register { id: new_id, created_at } => {
            if !has_job(jobs, new_id) {
                law_registered_job_is_running(jobs, new_id, created_at);
            }
        },
        RegistryOp::Transition { id: target, status } => {
            if transition_outcome(jobs, target, status) is Ok {
                let after = transitioned(jobs, target, status);
                lemma_transition_keeps_ids(jobs, target, status);
                assert(after[at].id == id);
                lemma_lookup_at(after, id, at);
            }
        },
    }
}

/// Whatever requests follow, a job stays in the registry under its id and
/// with its creation time, and once its status is terminal the status never
/// changes again: at most one transition of a job ever takes effect.
pub proof fn law_terminal_status_is_final(jobs: Seq<JobView>, ops: Seq<RegistryOp>, id: Seq<char>)
    requires
        distinct_ids(jobs),
        has_job(jobs, id),
    ensures
        distinct_ids(apply_all(jobs, ops)),
        has_job(apply_all(jobs, ops), id),
        lookup(apply_all(jobs, ops), id)->Some_0.created_at == lookup(
            jobs,
            id,
        )->Some_0.created_at,
        lookup(jobs, id)->Some_0.status.terminal() ==> lookup(apply_all(jobs, ops), id)
            == lookup(jobs, id),
    decreases ops.len(),
{
    if ops.len() > 0 {
        lemma_apply_preserves(jobs, ops.first(), id);
        law_terminal_status_is_final(apply(jobs, ops.first()), ops.drop_first(), id);
    }
}

} // verus!
