use imgforge::error::AppError;
use imgforge::model::JobStatus;
use imgforge::registry::{JobRegistry, TransitionError};

fn is_lower_hex(c: char) -> bool {
    c.is_ascii_digit() || ('a'..='f').contains(&c)
}

#[test]
fn new_registry_is_empty() {
    let registry = JobRegistry::new();
    assert_eq!(registry.len(), 0);
    assert!(registry.list().is_empty());
    assert!(!registry.contains("a"));
}

#[test]
fn registered_job_is_running_and_found() {
    let mut registry = JobRegistry::new();
    let job = registry.register("job-1".to_string(), "2024-05-01T10:00:00+00:00".to_string()).unwrap();
    assert_eq!(job.id, "job-1");
    assert_eq!(job.status, JobStatus::Running);
    assert_eq!(job.created_at, "2024-05-01T10:00:00+00:00");
    let found = registry.get("job-1").unwrap();
    assert_eq!(found, job);
    assert_eq!(registry.len(), 1);
    assert!(registry.contains("job-1"));
}

#[test]
fn register_refuses_a_taken_id() {
    let mut registry = JobRegistry::new();
    registry.register("job-1".to_string(), "t0".to_string()).unwrap();
    let second = registry.register("job-1".to_string(), "t1".to_string());
    assert_eq!(second, Err(AppError::Internal("Job id job-1 is already in use".to_string())));
    assert_eq!(registry.len(), 1);
    assert_eq!(registry.get("job-1").unwrap().created_at, "t0");
}

#[test]
fn created_job_has_a_fresh_uuid() {
    let mut registry = JobRegistry::new();
    let first = registry.create();
    let second = registry.create();
    assert_ne!(first.id, second.id);
    for job in [&first, &second] {
        let chars: Vec<char> = job.id.chars().collect();
        assert_eq!(chars.len(), 36);
        for (i, c) in chars.iter().enumerate() {
            if i == 8 || i == 13 || i == 18 || i == 23 {
                assert_eq!(*c, '-');
            } else {
                assert!(is_lower_hex(*c));
            }
        }
        assert_eq!(chars[14], '4');
        assert!(matches!(chars[19], '8' | '9' | 'a' | 'b'));
        assert_eq!(job.status, JobStatus::Running);
        assert!(!job.created_at.is_empty());
        assert_eq!(registry.get(&job.id).unwrap(), *job);
    }
    assert_eq!(registry.len(), 2);
}

#[test]
fn get_unknown_job_is_not_found() {
    let mut registry = JobRegistry::new();
    registry.register("job-1".to_string(), "t0".to_string()).unwrap();
    let missing = registry.get("job-2");
    assert_eq!(missing, Err(AppError::NotFound("Job job-2 not found".to_string())));
}

#[test]
fn list_keeps_registration_order() {
    let mut registry = JobRegistry::new();
    registry.register("b".to_string(), "t0".to_string()).unwrap();
    registry.register("a".to_string(), "t1".to_string()).unwrap();
    registry.register("c".to_string(), "t2".to_string()).unwrap();
    let ids: Vec<String> = registry.list().into_iter().map(|j| j.id).collect();
    assert_eq!(ids, vec!["b".to_string(), "a".to_string(), "c".to_string()]);
}

#[test]
fn transition_moves_a_running_job_once() {
    let mut registry = JobRegistry::new();
    registry.register("job-1".to_string(), "t0".to_string()).unwrap();
    assert_eq!(registry.transition("job-1", JobStatus::Success), Ok(()));
    let job = registry.get("job-1").unwrap();
    assert_eq!(job.status, JobStatus::Success);
    assert_eq!(job.created_at, "t0");
    assert_eq!(
        registry.transition("job-1", JobStatus::Failed),
        Err(TransitionError::InvalidTransition)
    );
    assert_eq!(
        registry.transition("job-1", JobStatus::Success),
        Err(TransitionError::InvalidTransition)
    );
    assert_eq!(registry.get("job-1").unwrap().status, JobStatus::Success);
}

#[test]
fn transition_of_unknown_job_is_not_found() {
    let mut registry = JobRegistry::new();
    registry.register("job-1".to_string(), "t0".to_string()).unwrap();
    assert_eq!(registry.transition("nope", JobStatus::Failed), Err(TransitionError::NotFound));
    assert_eq!(registry.get("job-1").unwrap().status, JobStatus::Running);
}

#[test]
fn transition_to_running_is_invalid() {
    let mut registry = JobRegistry::new();
    registry.register("job-1".to_string(), "t0".to_string()).unwrap();
    assert_eq!(
        registry.transition("job-1", JobStatus::Running),
        Err(TransitionError::InvalidTransition)
    );
    assert_eq!(registry.get("job-1").unwrap().status, JobStatus::Running);
}

#[test]
fn transition_touches_only_its_job() {
    let mut registry = JobRegistry::new();
    registry.register("a".to_string(), "t0".to_string()).unwrap();
    registry.register("b".to_string(), "t1".to_string()).unwrap();
    registry.register("c".to_string(), "t2".to_string()).unwrap();
    assert_eq!(registry.transition("b", JobStatus::Cancelled), Ok(()));
    let statuses: Vec<JobStatus> = registry.list().into_iter().map(|j| j.status).collect();
    assert_eq!(statuses, vec![JobStatus::Running, JobStatus::Cancelled, JobStatus::Running]);
    assert_eq!(registry.transition("c", JobStatus::Failed), Ok(()));
    assert_eq!(registry.get("b").unwrap().status, JobStatus::Cancelled);
    assert_eq!(registry.get("c").unwrap().status, JobStatus::Failed);
    assert_eq!(registry.len(), 3);
}

#[test]
fn terminal_statuses_are_the_three_ends() {
    assert!(!JobStatus::Running.is_terminal());
    assert!(JobStatus::Success.is_terminal());
    assert!(JobStatus::Failed.is_terminal());
    assert!(JobStatus::Cancelled.is_terminal());
}

#[test]
fn duplicate_keeps_every_field() {
    let mut registry = JobRegistry::new();
    let job = registry.register("job-1".to_string(), "t0".to_string()).unwrap();
    assert_eq!(job.duplicate(), job);
}

#[test]
fn free_id_is_used_as_drawn() {
    let mut registry = JobRegistry::new();
    assert_eq!(registry.unused_id("abc".to_string()), "abc");
    registry.register("abcd".to_string(), "t0".to_string()).unwrap();
    assert_eq!(registry.unused_id("abc".to_string()), "abc");
    assert_eq!(registry.unused_id("".to_string()), "");
}

#[test]
fn taken_id_is_made_longer_than_every_id() {
    let mut registry = JobRegistry::new();
    registry.register("abc".to_string(), "t0".to_string()).unwrap();
    registry.register("h\u{e9}llo-w".to_string(), "t1".to_string()).unwrap();
    registry.register("abc--------".to_string(), "t2".to_string()).unwrap();
    let id = registry.unused_id("abc".to_string());
    assert_eq!(id, "abc------------");
    assert!(!registry.contains(&id));
    let job = registry.register(id.clone(), "t3".to_string()).unwrap();
    assert_eq!(job.id, "abc------------");
    assert_eq!(registry.unused_id("abc".to_string()), "abc----------------");
    assert_eq!(registry.len(), 4);
}

#[test]
fn fresh_id_is_free_and_of_uuid_shape() {
    let mut registry = JobRegistry::new();
    registry.register("job-1".to_string(), "t0".to_string()).unwrap();
    let id = registry.fresh_id();
    assert!(!registry.contains(&id));
    assert_eq!(id.len(), 36);
    assert_eq!(id.matches('-').count(), 4);
    assert_eq!(registry.len(), 1);
}

#[test]
fn create_always_adds_a_running_job() {
    let mut registry = JobRegistry::new();
    let mut ids = Vec::new();
    for n in 0..50 {
        let job = registry.create();
        assert_eq!(job.status, JobStatus::Running);
        assert!(!ids.contains(&job.id));
        assert_eq!(registry.get(&job.id).unwrap(), job);
        assert_eq!(registry.len(), n + 1);
        assert_eq!(registry.list().last(), Some(&job));
        ids.push(job.id);
    }
}
