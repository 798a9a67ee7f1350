use imgforge::error::AppError;
use imgforge::model::{BoardType, BuildMode, ImageConfig, JobStatus};
use imgforge::plan::{plan_build, plan_flash, JobPlan};
use imgforge::run::{advance, begin, RunAction, RunEvent, Stage};

fn build_plan_in(mode: BuildMode) -> JobPlan {
    let config = ImageConfig {
        hostname: "pi1".to_string(),
        change_username: false,
        new_username: None,
        set_root_password: false,
        root_password: None,
        enable_ssh: false,
        wifi_ssid: None,
        wifi_password: None,
        board_type: BoardType::Jetson,
        mode,
        expand_image: false,
        extra_size: None,
        base_image_url: None,
        preset_image: None,
        docker_compose_content: None,
        custom_script_content: None,
        inline_command: None,
    };
    plan_build(&config, "j1")
}

fn finish(status: JobStatus, error: Option<AppError>) -> RunAction {
    RunAction::Finish { status, error }
}

#[test]
fn build_run_walks_through_every_step() {
    let plan = build_plan_in(BuildMode::Artifact);
    assert_eq!(begin(&plan), (Stage::Writing(0), RunAction::Write(0)));
    assert_eq!(
        advance(&plan, Stage::Writing(0), &RunEvent::WriteDone),
        (Stage::Writing(1), RunAction::Write(1))
    );
    assert_eq!(
        advance(&plan, Stage::Writing(1), &RunEvent::WriteDone),
        (Stage::Writing(2), RunAction::Write(2))
    );
    assert_eq!(
        advance(&plan, Stage::Writing(2), &RunEvent::WriteDone),
        (Stage::Spawning, RunAction::Spawn)
    );
    assert_eq!(
        advance(&plan, Stage::Spawning, &RunEvent::Spawned),
        (Stage::Running, RunAction::Await)
    );
    assert_eq!(
        advance(&plan, Stage::Running, &RunEvent::Exited(true)),
        (Stage::Storing, RunAction::Store)
    );
    assert_eq!(
        advance(&plan, Stage::Storing, &RunEvent::Stored),
        (Stage::Finished(JobStatus::Success), finish(JobStatus::Success, None))
    );
}

#[test]
fn clean_exit_alone_does_not_finish_a_build_that_stores_an_image() {
    let plan = build_plan_in(BuildMode::Artifact);
    let (stage, action) = advance(&plan, Stage::Running, &RunEvent::Exited(true));
    assert_eq!(stage, Stage::Storing);
    assert_eq!(action, RunAction::Store);
    assert_ne!(stage, Stage::Finished(JobStatus::Success));
}

#[test]
fn failed_store_fails_the_job() {
    let plan = build_plan_in(BuildMode::Artifact);
    let (stage, _) = advance(&plan, Stage::Running, &RunEvent::Exited(true));
    assert_eq!(
        advance(&plan, stage, &RunEvent::StoreFailed("disk full".to_string())),
        (
            Stage::Finished(JobStatus::Failed),
            finish(
                JobStatus::Failed,
                Some(AppError::Internal("Failed to move image to storage: disk full".to_string()))
            )
        )
    );
}

#[test]
fn build_that_left_no_image_still_succeeds() {
    let plan = build_plan_in(BuildMode::Artifact);
    assert_eq!(
        advance(&plan, Stage::Storing, &RunEvent::NothingToStore),
        (Stage::Finished(JobStatus::Success), finish(JobStatus::Success, None))
    );
}

#[test]
fn whole_run_with_a_failed_store_ends_failed() {
    let plan = build_plan_in(BuildMode::Artifact);
    let events = [
        RunEvent::WriteDone,
        RunEvent::WriteDone,
        RunEvent::WriteDone,
        RunEvent::Spawned,
        RunEvent::Exited(true),
        RunEvent::StoreFailed("read-only file system".to_string()),
        RunEvent::Stored,
    ];
    let (mut stage, _) = begin(&plan);
    let mut finishes = Vec::new();
    for event in events.iter() {
        let (next, action) = advance(&plan, stage, event);
        if let RunAction::Finish { status, .. } = action {
            finishes.push(status);
        }
        stage = next;
    }
    assert_eq!(stage, Stage::Finished(JobStatus::Failed));
    assert_eq!(finishes, vec![JobStatus::Failed]);
}

#[test]
fn flash_run_starts_with_the_command() {
    let plan = plan_flash("j2", "/tmp/x.img", "/dev/sdz");
    assert_eq!(begin(&plan), (Stage::Spawning, RunAction::Spawn));
    assert_eq!(
        advance(&plan, Stage::Running, &RunEvent::Exited(true)),
        (Stage::Finished(JobStatus::Success), finish(JobStatus::Success, None))
    );
}

#[test]
fn flash_mode_build_stores_no_image() {
    let plan = build_plan_in(BuildMode::Flash);
    assert_eq!(
        advance(&plan, Stage::Running, &RunEvent::Exited(true)),
        (Stage::Finished(JobStatus::Success), finish(JobStatus::Success, None))
    );
}

#[test]
fn unclean_exit_fails_the_job() {
    let plan = build_plan_in(BuildMode::Artifact);
    assert_eq!(
        advance(&plan, Stage::Running, &RunEvent::Exited(false)),
        (Stage::Finished(JobStatus::Failed), finish(JobStatus::Failed, None))
    );
}

#[test]
fn failed_write_fails_the_job_with_its_report() {
    let plan = build_plan_in(BuildMode::Artifact);
    let event = RunEvent::WriteFailed("disk full".to_string());
    assert_eq!(
        advance(&plan, Stage::Writing(0), &event),
        (
            Stage::Finished(JobStatus::Failed),
            finish(
                JobStatus::Failed,
                Some(AppError::Internal("Failed to write env file: disk full".to_string()))
            )
        )
    );
    assert_eq!(
        advance(&plan, Stage::Writing(1), &event).1,
        finish(
            JobStatus::Failed,
            Some(AppError::Internal("Failed to write config: disk full".to_string()))
            )
    );
    assert_eq!(
        advance(&plan, Stage::Writing(2), &event).1,
        finish(
            JobStatus::Failed,
            Some(AppError::Internal("Failed to write last-run.env: disk full".to_string()))
            )
    );
}

#[test]
fn failed_spawn_and_wait_fail_the_job() {
    let build = build_plan_in(BuildMode::Artifact);
    let flash = plan_flash("j2", "a", "b");
    assert_eq!(
        advance(&build, Stage::Spawning, &RunEvent::SpawnFailed("no such file".to_string())),
        (
            Stage::Finished(JobStatus::Failed),
            finish(
                JobStatus::Failed,
                Some(AppError::Internal("Failed to spawn imgforge.sh: no such file".to_string()))
            )
        )
    );
    assert_eq!(
        advance(&flash, Stage::Spawning, &RunEvent::SpawnFailed("denied".to_string())).1,
        finish(
            JobStatus::Failed,
            Some(AppError::Internal("Failed to spawn dd: denied".to_string()))
            )
    );
    assert_eq!(
        advance(&build, Stage::Running, &RunEvent::WaitFailed("gone".to_string())).1,
        finish(
            JobStatus::Failed,
            Some(AppError::Internal("Failed to wait for process: gone".to_string()))
            )
    );
    assert_eq!(
        advance(&flash, Stage::Running, &RunEvent::WaitFailed("gone".to_string())).1,
        finish(
            JobStatus::Failed,
            Some(AppError::Internal("Failed to wait for dd: gone".to_string()))
            )
    );
}

#[test]
fn finished_run_ignores_every_event() {
    let plan = build_plan_in(BuildMode::Artifact);
    let events = [
        RunEvent::WriteDone,
        RunEvent::WriteFailed("x".to_string()),
        RunEvent::Spawned,
        RunEvent::SpawnFailed("x".to_string()),
        RunEvent::Exited(true),
        RunEvent::Exited(false),
        RunEvent::WaitFailed("x".to_string()),
        RunEvent::Stored,
        RunEvent::NothingToStore,
        RunEvent::StoreFailed("x".to_string()),
    ];
    for status in [JobStatus::Success, JobStatus::Failed, JobStatus::Cancelled] {
        for event in events.iter() {
            assert_eq!(
                advance(&plan, Stage::Finished(status), event),
                (Stage::Finished(status), RunAction::Nothing)
            );
        }
    }
}

#[test]
fn event_out_of_turn_fails_the_job() {
    let plan = build_plan_in(BuildMode::Artifact);
    let expected = (
        Stage::Finished(JobStatus::Failed),
        finish(
            JobStatus::Failed,
            Some(AppError::Internal("Unexpected event for this stage of the job".to_string()))
            ),
    );
    assert_eq!(advance(&plan, Stage::Writing(0), &RunEvent::Spawned), expected);
    assert_eq!(advance(&plan, Stage::Writing(3), &RunEvent::WriteDone), expected);
    assert_eq!(advance(&plan, Stage::Spawning, &RunEvent::Exited(true)), expected);
    assert_eq!(advance(&plan, Stage::Running, &RunEvent::WriteDone), expected);
    assert_eq!(advance(&plan, Stage::Running, &RunEvent::Stored), expected);
    assert_eq!(advance(&plan, Stage::Storing, &RunEvent::Exited(true)), expected);
    assert_eq!(advance(&plan, Stage::Spawning, &RunEvent::NothingToStore), expected);
}
