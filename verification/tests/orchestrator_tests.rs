use imgforge::error::AppError;
use imgforge::model::{BoardType, BuildMode, ImageConfig, JobStatus, PresetImage};
use imgforge::orchestrator::{
    check_flash_request, submit_build, submit_build_as, submit_flash, submit_flash_as,
    FlashRequest,
};
use imgforge::plan::{plan_build, plan_flash};
use imgforge::registry::JobRegistry;

fn preset_config() -> ImageConfig {
    ImageConfig {
        hostname: "pi1".to_string(),
        change_username: false,
        new_username: None,
        set_root_password: false,
        root_password: None,
        enable_ssh: false,
        wifi_ssid: None,
        wifi_password: None,
        board_type: BoardType::RaspberryPi,
        mode: BuildMode::Artifact,
        expand_image: false,
        extra_size: None,
        base_image_url: None,
        preset_image: Some(PresetImage::RaspberryPiLite),
        docker_compose_content: None,
        custom_script_content: None,
        inline_command: None,
    }
}

fn flash_request(image_path: Option<&str>, device_path: Option<&str>) -> FlashRequest {
    FlashRequest {
        image_path: image_path.map(|s| s.to_string()),
        device_path: device_path.map(|s| s.to_string()),
    }
}

#[test]
fn submitted_build_is_running_and_registered() {
    let mut registry = JobRegistry::new();
    let accepted = submit_build(&mut registry, &preset_config());
    assert_eq!(accepted.job.status, JobStatus::Running);
    assert_eq!(accepted.job.id.len(), 36);
    assert_eq!(registry.get(&accepted.job.id).unwrap(), accepted.job);
    assert_eq!(accepted.plan, plan_build(&preset_config(), &accepted.job.id));
    let env_text = &accepted.plan.writes[0].content;
    for line in ["BOARD=1\n", "HAVE_IMG=n\n", "IMG_CHOICE=1\n", "SKIP_WIZARD=y\n"] {
        assert!(env_text.contains(line));
    }
    for (key, value) in [("BOARD", "1"), ("HAVE_IMG", "n"), ("IMG_CHOICE", "1"), ("SKIP_WIZARD", "y")] {
        let set: Vec<&str> = accepted
            .plan
            .command
            .env
            .iter()
            .filter(|e| e.key == key)
            .map(|e| e.value.as_str())
            .collect();
        assert_eq!(set, vec![value]);
    }
    let again = submit_build(&mut registry, &preset_config());
    assert_ne!(again.job.id, accepted.job.id);
    assert_eq!(registry.len(), 2);
}

#[test]
fn submitted_build_under_a_given_id() {
    let mut registry = JobRegistry::new();
    let accepted =
        submit_build_as(&mut registry, &preset_config(), "j1".to_string(), "t0".to_string())
            .unwrap();
    assert_eq!(accepted.job.id, "j1");
    assert_eq!(accepted.job.created_at, "t0");
    assert_eq!(accepted.job.status, JobStatus::Running);
    assert_eq!(accepted.plan, plan_build(&preset_config(), "j1"));
    let taken =
        submit_build_as(&mut registry, &preset_config(), "j1".to_string(), "t1".to_string());
    assert_eq!(taken, Err(AppError::Internal("Job id j1 is already in use".to_string())));
    assert_eq!(registry.len(), 1);
}

#[test]
fn submitted_flash_copies_the_two_paths() {
    let mut registry = JobRegistry::new();
    let request = flash_request(Some("/tmp/x.img"), Some("/dev/sdz"));
    let accepted = submit_flash(&mut registry, &request).unwrap();
    assert_eq!(accepted.job.status, JobStatus::Running);
    assert_eq!(registry.get(&accepted.job.id).unwrap(), accepted.job);
    assert_eq!(accepted.plan.command.program, "dd");
    assert_eq!(
        accepted.plan.command.args,
        vec![
            "if=/tmp/x.img".to_string(),
            "of=/dev/sdz".to_string(),
            "bs=4M".to_string(),
            "status=progress".to_string(),
            "conv=fsync".to_string(),
        ]
    );
    assert_eq!(accepted.plan, plan_flash(&accepted.job.id, "/tmp/x.img", "/dev/sdz"));
}

#[test]
fn flash_without_device_is_a_bad_request() {
    let mut registry = JobRegistry::new();
    registry.register("old".to_string(), "t0".to_string()).unwrap();
    let before = registry.list();
    let request = flash_request(Some("/tmp/x.img"), None);
    let refused = submit_flash(&mut registry, &request);
    assert_eq!(refused, Err(AppError::BadRequest("Missing device".to_string())));
    assert_eq!(registry.list(), before);
    let refused_as = submit_flash_as(&mut registry, &request, "new".to_string(), "t1".to_string());
    assert_eq!(refused_as, Err(AppError::BadRequest("Missing device".to_string())));
    assert_eq!(registry.list(), before);
    assert!(!registry.contains("new"));
}

#[test]
fn flash_without_image_is_a_bad_request() {
    let mut registry = JobRegistry::new();
    let refused = submit_flash(&mut registry, &flash_request(None, Some("/dev/sdz")));
    assert_eq!(refused, Err(AppError::BadRequest("Missing image_path".to_string())));
    let neither = submit_flash(&mut registry, &flash_request(None, None));
    assert_eq!(neither, Err(AppError::BadRequest("Missing image_path".to_string())));
    assert_eq!(registry.len(), 0);
}

#[test]
fn flash_under_a_given_id() {
    let mut registry = JobRegistry::new();
    let request = flash_request(Some("a.img"), Some("/dev/sdb"));
    let accepted =
        submit_flash_as(&mut registry, &request, "f1".to_string(), "t0".to_string()).unwrap();
    assert_eq!(accepted.job.id, "f1");
    assert_eq!(accepted.plan, plan_flash("f1", "a.img", "/dev/sdb"));
    let taken = submit_flash_as(&mut registry, &request, "f1".to_string(), "t1".to_string());
    assert_eq!(taken, Err(AppError::Internal("Job id f1 is already in use".to_string())));
    assert_eq!(registry.len(), 1);
}

#[test]
fn complete_flash_request_passes_the_check() {
    let request = flash_request(Some("a.img"), Some("/dev/sdb"));
    assert_eq!(check_flash_request(&request), Ok(("a.img".to_string(), "/dev/sdb".to_string())));
}
