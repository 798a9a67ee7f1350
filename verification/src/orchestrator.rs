//! Accepts build and flash requests.
//!
//! A request that passes validation becomes a job in the registry and a
//! plan for the runtime. The caller gets both at once and answers the
//! client with the job while the plan is carried out in the background.

use vstd::prelude::*;
use vstd::string::*;
use crate::error::{AppError, AppErrorView};
use crate::model::{BuildJob, ImageConfig, JobStatus, JobView};
use crate::plan::{build_plan, flash_plan, plan_build, plan_flash, JobPlan, JobPlanView};
use crate::registry::{
    distinct_ids, has_job, is_fresh_id, law_second_transition_is_refused, lookup, new_job,
    registered, taken_id_message, transition_outcome, with_status, JobRegistry,
};
use crate::run::{after_event, law_finish_is_announced_once, RunEventView, Stage};
use crate::text::text_of;
use crate::trusted::utc_now_rfc3339;

verus! {

/// Mathematical content of a [`FlashRequest`].
pub struct FlashRequestView {
    pub image_path: Option<Seq<char>>,
    pub device_path: Option<Seq<char>>,
}

/// A request to write an image to a device, as it came in: either field may
/// be missing.
#[derive(Debug, Clone, PartialEq, Eq)]
pub struct FlashRequest {
    pub image_path: Option<String>,
    pub device_path: Option<String>,
}

impl View for FlashRequest {
    type V = FlashRequestView;

    open spec fn view(&self) -> FlashRequestView {
        FlashRequestView {
            image_path: text_of(self.image_path),
            device_path: text_of(self.device_path),
        }
    }
}

/// The two paths of a complete request, or the error that names the first
/// missing field.
pub open spec fn checked_flash(request: FlashRequestView) -> Result<
    (Seq<char>, Seq<char>),
    AppErrorView,
> {
    match request.image_path {
        None => Err(AppErrorView::BadRequest("Missing image_path"@)),
        Some(image_path) => match request.device_path {
            None => Err(AppErrorView::BadRequest("Missing device"@)),
            Some(device_path) => Ok((image_path, device_path)),
        },
    }
}

/// Checks that a flash request names both the image and the device.
pub fn check_flash_request(request: &FlashRequest) -> (result: Result<(String, String), AppError>)
    ensures
        match checked_flash(request@) {
            Ok(paths) => result matches Ok(found) && found.0@ == paths.0 && found.1@ == paths.1,
            Err(e) => result matches Err(found) && found@ == e,
        },
{
    match &request.image_path {
        None => Err(AppError::BadRequest(String::from_str("Missing image_path"))),
        Some(image_path) => match &request.device_path {
            None => Err(AppError::BadRequest(String::from_str("Missing device"))),
            Some(device_path) => Ok((image_path.clone(), device_path.clone())),
        },
    }
}

/// An accepted request: the job to answer the client with, and the plan to
/// carry out.
#[derive(Debug, Clone, PartialEq, Eq)]
pub struct Submission {
    pub job: BuildJob,
    pub plan: JobPlan,
}

/// Accepts a build under the given job id and creation time.
///
/// Succeeds exactly when the id is free: the job is registered as `Running`
/// and the plan is the plan of `config` under that id. On a taken id the
/// registry is unchanged and the error is `Internal`.
pub fn submit_build_as(
    registry: &mut JobRegistry,
    config: &ImageConfig,
    id: String,
    created_at: String,
) -> (result: Result<Submission, AppError>)
    requires
        old(registry).wf(),
    ensures
        final(registry).wf(),
        match result {
            Ok(accepted) => {
                &&& !has_job(old(registry)@, id@)
                &&& accepted.job@ == new_job(id@, created_at@)
                &&& accepted.plan@ == build_plan(config@, id@)
                &&& final(registry)@ == registered(old(registry)@, id@, created_at@)
            },
            Err(e) => {
                &&& has_job(old(registry)@, id@)
                &&& e@ == AppErrorView::Internal(taken_id_message(id@))
                &&& final(registry)@ == old(registry)@
            },
        },
{
    let plan = plan_build(config, id.as_str());
    match registry.register(id, created_at) {
        Ok(job) => Ok(Submission { job, plan }),
        Err(e) => Err(e),
    }
}

/// Accepts a build under a fresh id, stamped with the current time. This
/// never fails.
///
/// The id and the time come from outside, so the contract says what holds
/// whichever came back: the job is `Running`, its id is made of a random
/// draw and carried by no earlier job, it stands last in the registry, and
/// the plan is the plan of `config` under that id.
pub fn submit_build(registry: &mut JobRegistry, config: &ImageConfig) -> (accepted: Submission)
    requires
        old(registry).wf(),
    ensures
        final(registry).wf(),
        is_fresh_id(old(registry)@, accepted.job@.id),
        accepted.job@.status == JobStatus::Running,
        !has_job(old(registry)@, accepted.job@.id),
        accepted.plan@ == build_plan(config@, accepted.job@.id),
        final(registry)@ == old(registry)@.push(accepted.job@),
{
    let id = registry.fresh_id();
    let created_at = utc_now_rfc3339();
    let plan = plan_build(config, id.as_str());
    let job = registry.register_free(id, created_at);
    Submission { job, plan }
}

/// Accepts a flash under the given job id and creation time.
///
/// A request with a missing field is refused with `BadRequest` before
/// anything else happens: no job is created and the registry is unchanged.
/// A complete request succeeds exactly when the id is free.
pub fn submit_flash_as(
    registry: &mut JobRegistry,
    request: &FlashRequest,
    id: String,
    created_at: String,
) -> (result: Result<Submission, AppError>)
    requires
        old(registry).wf(),
    ensures
        final(registry).wf(),
        match checked_flash(request@) {
            Err(refusal) => result matches Err(e) && e@ == refusal && final(registry)@ == old(
                registry,
            )@,
            Ok(paths) => match result {
                Ok(accepted) => {
                    &&& !has_job(old(registry)@, id@)
                    &&& accepted.job@ == new_job(id@, created_at@)
                    &&& accepted.plan@ == flash_plan(id@, paths.0, paths.1)
                    &&& final(registry)@ == registered(old(registry)@, id@, created_at@)
                },
                Err(e) => {
                    &&& has_job(old(registry)@, id@)
                    &&& e@ == AppErrorView::Internal(taken_id_message(id@))
                    &&& final(registry)@ == old(registry)@
                },
            },
        },
{
    match check_flash_request(request) {
        Err(e) => Err(e),
        Ok(paths) => {
            let plan = plan_flash(id.as_str(), paths.0.as_str(), paths.1.as_str());
            match registry.register(id, created_at) {
                Ok(job) => Ok(Submission { job, plan }),
                Err(e) => Err(e),
            }
        },
    }
}

/// Accepts a flash under a fresh id, stamped with the current time.
///
/// The call fails if and only if a field of the request is missing: the
/// error is `BadRequest`, no job is created and the registry is unchanged.
/// For a complete request the contract says what holds whichever id and
/// time came back, as for a build.
pub fn submit_flash(registry: &mut JobRegistry, request: &FlashRequest) -> (result: Result<
    Submission,
    AppError,
>)
    requires
        old(registry).wf(),
    ensures
        final(registry).wf(),
        match checked_flash(request@) {
            Err(refusal) => result matches Err(e) && e@ == refusal && final(registry)@ == old(
                registry,
            )@,
            Ok(paths) => result matches Ok(accepted) && {
                &&& is_fresh_id(old(registry)@, accepted.job@.id)
                &&& accepted.job@.status == JobStatus::Running
                &&& !has_job(old(registry)@, accepted.job@.id)
                &&& accepted.plan@ == flash_plan(accepted.job@.id, paths.0, paths.1)
                &&& final(registry)@ == old(registry)@.push(accepted.job@)
            },
        },
{
    match check_flash_request(request) {
        Err(e) => Err(e),
        Ok(paths) => {
            let id = registry.fresh_id();
            let created_at = utc_now_rfc3339();
            let plan = plan_flash(id.as_str(), paths.0.as_str(), paths.1.as_str());
            let job = registry.register_free(id, created_at);
            Ok(Submission { job, plan })
        },
    }
}

/// The status that a run announces at its end can be recorded: for a job
/// that is still `Running`, the registry accepts it, and the job then
/// carries it for good.
pub proof fn law_announced_status_is_recorded(
    jobs: Seq<JobView>,
    id: Seq<char>,
    plan: JobPlanView,
    stage: Stage,
    event: RunEventView,
)
    requires
        distinct_ids(jobs),
        lookup(jobs, id) matches Some(job) && job.status == JobStatus::Running,
        after_event(plan, stage, event).1 is Finish,
    ensures
        transition_outcome(jobs, id, after_event(plan, stage, event).1->status) is Ok,
        lookup(
            transition_outcome(jobs, id, after_event(plan, stage, event).1->status)->Ok_0,
            id,
        ) == Some(with_status(lookup(jobs, id)->Some_0, after_event(plan, stage, event).1->status)),
        after_event(plan, stage, event).1->status.terminal(),
{
    let status = after_event(plan, stage, event).1->status;
    law_finish_is_announced_once(plan, stage, event);
    law_second_transition_is_refused(jobs, id, status, status);
}

} // verus!
