//! What a job does, decided before it starts: the files to write, the
//! command to run, and the words to report a failure with.
//!
//! A plan is data. The runtime that owns the file system and the child
//! process carries it out step by step, as the run of the job directs.

use vstd::prelude::*;
use vstd::string::*;
use crate::env::{
    compose_path, env_entries, env_path, env_text, log_path, mode_code, render_env,
    render_env_text, scratch_file, script_path, script_source, variables, EnvEntry,
    ScriptSource, ScriptSourceView, Variable,
};
use crate::model::{BuildMode, ImageConfig, ImageConfigView};
use crate::text::{text_of, texts};
use crate::trusted::utc_now_formatted;

verus! {

/// Mathematical content of a [`Target`].
pub enum TargetView {
    Path(Seq<char>),
    Stored { directory: Seq<char>, name: Seq<char> },
}

/// Where a file goes.
#[derive(Debug, Clone, PartialEq, Eq)]
pub enum Target {
    /// A full path.
    Path(String),
    /// A file name inside a directory of the service's home, which only the
    /// runtime can locate.
    Stored { directory: String, name: String },
}

impl View for Target {
    type V = TargetView;

    open spec fn view(&self) -> TargetView {
        match self {
            Target::Path(p) => TargetView::Path(p@),
            Target::Stored { directory, name } => TargetView::Stored {
                directory: directory@,
                name: name@,
            },
        }
    }
}

/// Mathematical content of a [`FileWrite`].
pub struct FileWriteView {
    pub target: TargetView,
    pub content: Seq<char>,
    pub failure: Seq<char>,
}

/// One file that a job writes before its command starts.
#[derive(Debug, Clone, PartialEq, Eq)]
pub struct FileWrite {
    pub target: Target,
    pub content: String,
    /// How the failure of this write is reported, without the cause.
    pub failure: String,
}

impl View for FileWrite {
    type V = FileWriteView;

    open spec fn view(&self) -> FileWriteView {
        FileWriteView { target: self.target@, content: self.content@, failure: self.failure@ }
    }
}

/// The content of each write of a list, in the same order.
pub open spec fn writes_of(writes: Seq<FileWrite>) -> Seq<FileWriteView> {
    Seq::new(writes.len(), |i: int| writes[i]@)
}

/// Mathematical content of a [`CommandSpec`].
pub struct CommandView {
    pub program: Seq<char>,
    pub args: Seq<Seq<char>>,
    pub working_dir: Option<Seq<char>>,
    pub env: Seq<Variable>,
    pub stdin_closed: bool,
}

/// An external command, ready to be started. Its output is always captured.
#[derive(Debug, Clone, PartialEq, Eq)]
pub struct CommandSpec {
    pub program: String,
    pub args: Vec<String>,
    pub working_dir: Option<String>,
    /// Variables added to the environment that the child inherits.
    pub env: Vec<EnvEntry>,
    /// Whether the child gets no standard input.
    pub stdin_closed: bool,
}

impl View for CommandSpec {
    type V = CommandView;

    open spec fn view(&self) -> CommandView {
        CommandView {
            program: self.program@,
            args: texts(self.args@),
            working_dir: text_of(self.working_dir),
            env: variables(self.env@),
            stdin_closed: self.stdin_closed,
        }
    }
}

/// Mathematical content of a [`JobPlan`].
pub struct JobPlanView {
    pub job_id: Seq<char>,
    pub tag: Seq<char>,
    pub writes: Seq<FileWriteView>,
    pub command: CommandView,
    pub spawn_failure: Seq<char>,
    pub wait_failure: Seq<char>,
    pub log_path: Seq<char>,
    pub artifact_host: Option<Seq<char>>,
}

/// Everything the runtime needs to carry out one job.
#[derive(Debug, Clone, PartialEq, Eq)]
pub struct JobPlan {
    pub job_id: String,
    /// The word that marks the job's output in the process-wide log.
    pub tag: String,
    /// The files to write, in this order, before the command starts.
    pub writes: Vec<FileWrite>,
    pub command: CommandSpec,
    /// How a failure to start the command is reported, without the cause.
    pub spawn_failure: String,
    /// How a failure to wait for the command is reported, without the cause.
    pub wait_failure: String,
    /// The file that mirrors the job's log.
    pub log_path: String,
    /// The host name under which the image is stored that the command
    /// leaves behind when it exits cleanly; `None` where the job stores no
    /// image.
    pub artifact_host: Option<String>,
}

impl View for JobPlan {
    type V = JobPlanView;

    open spec fn view(&self) -> JobPlanView {
        JobPlanView {
            job_id: self.job_id@,
            tag: self.tag@,
            writes: writes_of(self.writes@),
            command: self.command@,
            spawn_failure: self.spawn_failure@,
            wait_failure: self.wait_failure@,
            log_path: self.log_path@,
            artifact_host: text_of(self.artifact_host),
        }
    }
}

/// The command of a build: the build script, run in its own directory
/// without standard input, told the mode through the variable `MODE` and
/// given the rendered environment `rendered` after it.
pub open spec fn build_command(mode: BuildMode, rendered: Seq<Variable>) -> CommandView {
    CommandView {
        program: "/workdir/imgforge.sh"@,
        args: Seq::empty(),
        working_dir: Some("/workdir"@),
        env: seq![("MODE"@, mode_code(mode))] + rendered,
        stdin_closed: true,
    }
}

/// The command of a flash: a byte copy from the image to the device in
/// blocks of four mebibytes, with progress reports, synced before it ends.
pub open spec fn flash_command(image_path: Seq<char>, device_path: Seq<char>) -> CommandView {
    CommandView {
        program: "dd"@,
        args: seq![
            "if="@ + image_path,
            "of="@ + device_path,
            "bs=4M"@,
            "status=progress"@,
            "conv=fsync"@,
        ],
        working_dir: None,
        env: Seq::empty(),
        stdin_closed: false,
    }
}

/// The name of the record that keeps the environment of a job.
pub open spec fn config_record_name(job_id: Seq<char>) -> Seq<char> {
    job_id + ".env"@
}

/// `writes` with one more file, if there is a body to write.
pub open spec fn with_body(
    writes: Seq<FileWriteView>,
    body: Option<Seq<char>>,
    path: Seq<char>,
    failure: Seq<char>,
) -> Seq<FileWriteView> {
    match body {
        Some(content) => writes.push(
            FileWriteView { target: TargetView::Path(path), content, failure },
        ),
        None => writes,
    }
}

/// The body of the script file of a build, where the script is a file.
pub open spec fn script_body(c: ImageConfigView) -> Option<Seq<char>> {
    match script_source(c) {
        ScriptSourceView::File(body) => Some(body),
        _ => None,
    }
}

/// The files of a build: the compose definition and the script body where
/// the configuration has them, then the rendered environment as text, three
/// times:
/// as a scratch file of the job, as the job's record in the `configs`
/// directory, and as the record of the last run, which every build
/// overwrites.
pub open spec fn build_writes(c: ImageConfigView, job_id: Seq<char>) -> Seq<FileWriteView> {
    let text = env_text(env_entries(c, job_id));
    let writes = with_body(
        Seq::empty(),
        c.docker_compose_content,
        compose_path(job_id),
        "Failed to write compose file"@,
    );
    let writes = with_body(writes, script_body(c), script_path(job_id), "Failed to write script"@);
    writes.push(
        FileWriteView {
            target: TargetView::Path(env_path(job_id)),
            content: text,
            failure: "Failed to write env file"@,
        },
    ).push(
        FileWriteView {
            target: TargetView::Stored {
                directory: "configs"@,
                name: config_record_name(job_id),
            },
            content: text,
            failure: "Failed to write config"@,
        },
    ).push(
        FileWriteView {
            target: TargetView::Path("/workdir/last-run.env"@),
            content: text,
            failure: "Failed to write last-run.env"@,
        },
    )
}

/// The host name under which a build stores its image: builds in artifact
/// mode store one, others none.
pub open spec fn artifact_host(c: ImageConfigView) -> Option<Seq<char>> {
    match c.mode {
        BuildMode::Artifact => Some(c.hostname),
        BuildMode::Flash => None,
    }
}

/// The plan of the build of configuration `c` as job `job_id`.
pub open spec fn build_plan(c: ImageConfigView, job_id: Seq<char>) -> JobPlanView {
    JobPlanView {
        job_id,
        tag: "BUILD"@,
        writes: build_writes(c, job_id),
        command: build_command(c.mode, env_entries(c, job_id)),
        spawn_failure: "Failed to spawn imgforge.sh"@,
        wait_failure: "Failed to wait for process"@,
        log_path: log_path(job_id),
        artifact_host: artifact_host(c),
    }
}

/// The plan of the flash of `image_path` onto `device_path` as job `job_id`.
pub open spec fn flash_plan(job_id: Seq<char>, image_path: Seq<char>, device_path: Seq<char>) -> JobPlanView {
    JobPlanView {
        job_id,
        tag: "FLASH"@,
        writes: Seq::empty(),
        command: flash_command(image_path, device_path),
        spawn_failure: "Failed to spawn dd"@,
        wait_failure: "Failed to wait for dd"@,
        log_path: log_path(job_id),
        artifact_host: None,
    }
}

/// The file that the build script leaves behind when it succeeds.
pub open spec fn artifact_source() -> Seq<char> {
    "/workdir/custom.img"@
}

/// The name under which an image is stored: host name, time stamp, `.img`.
pub open spec fn artifact_name(hostname: Seq<char>, stamp: Seq<char>) -> Seq<char> {
    hostname + "_"@ + stamp + ".img"@
}

/// Adds a file with a full path at the end of `writes`.
fn push_write(writes: &mut Vec<FileWrite>, target: Target, content: &str, failure: &str)
    ensures
        writes_of(final(writes)@) == writes_of(old(writes)@).push(
            FileWriteView { target: target@, content: content@, failure: failure@ },
        ),
{
    writes.push(
        FileWrite {
            target,
            content: String::from_str(content),
            failure: String::from_str(failure),
        },
    );
}

/// Builds the command of a build that runs in `mode` with the rendered
/// environment `rendered`.
pub fn make_build_command(mode: BuildMode, rendered: Vec<EnvEntry>) -> (command: CommandSpec)
    ensures
        command@ == build_command(mode, variables(rendered@)),
{
    let mut env: Vec<EnvEntry> = Vec::new();
    env.push(EnvEntry { key: String::from_str("MODE"), value: String::from_str(mode.code()) });
    let mut rendered = rendered;
    let ghost tail = variables(rendered@);
    env.append(&mut rendered);
    let args: Vec<String> = Vec::new();
    assert(variables(env@) =~= seq![("MODE"@, mode_code(mode))] + tail);
    assert(texts(args@) =~= Seq::<Seq<char>>::empty());
    CommandSpec {
        program: String::from_str("/workdir/imgforge.sh"),
        args,
        working_dir: Some(String::from_str("/workdir")),
        env,
        stdin_closed: true,
    }
}

/// Builds the command of a flash.
pub fn make_flash_command(image_path: &str, device_path: &str) -> (command: CommandSpec)
    ensures
        command@ == flash_command(image_path@, device_path@),
{
    let mut args: Vec<String> = Vec::new();
    args.push(String::from_str("if=").concat(image_path));
    args.push(String::from_str("of=").concat(device_path));
    args.push(String::from_str("bs=4M"));
    args.push(String::from_str("status=progress"));
    args.push(String::from_str("conv=fsync"));
    let env: Vec<EnvEntry> = Vec::new();
    assert(texts(args@) =~= seq![
        "if="@ + image_path@,
        "of="@ + device_path@,
        "bs=4M"@,
        "status=progress"@,
        "conv=fsync"@,
    ]);
    assert(variables(env@) =~= Seq::<Variable>::empty());
    CommandSpec { program: String::from_str("dd"), args, working_dir: None, env, stdin_closed: false }
}

/// Plans the build of `config` as job `job_id`.
pub fn plan_build(config: &ImageConfig, job_id: &str) -> (plan: JobPlan)
    ensures
        plan@ == build_plan(config@, job_id@),
{
    let env = render_env(config, job_id);
    let text = render_env_text(&env);
    let mut writes: Vec<FileWrite> = Vec::new();
    assert(writes_of(writes@) =~= Seq::<FileWriteView>::empty());
    match &config.docker_compose_content {
        Some(body) => {
            let path = scratch_file(job_id, "-compose.yml");
            push_write(
                &mut writes,
                Target::Path(path),
                body.as_str(),
                "Failed to write compose file",
            );
        },
        None => {},
    }
    match config.script_source() {
        ScriptSource::File(body) => {
            let path = scratch_file(job_id, "-script.sh");
            push_write(&mut writes, Target::Path(path), body.as_str(), "Failed to write script");
        },
        _ => {},
    }
    push_write(
        &mut writes,
        Target::Path(scratch_file(job_id, ".env")),
        text.as_str(),
        "Failed to write env file",
    );
    push_write(
        &mut writes,
        Target::Stored {
            directory: String::from_str("configs"),
            name: String::from_str(job_id).concat(".env"),
        },
        text.as_str(),
        "Failed to write config",
    );
    push_write(
        &mut writes,
        Target::Path(String::from_str("/workdir/last-run.env")),
        text.as_str(),
        "Failed to write last-run.env",
    );
    let artifact_host = match config.mode {
        BuildMode::Artifact => Some(config.hostname.clone()),
        BuildMode::Flash => None,
    };
    JobPlan {
        job_id: String::from_str(job_id),
        tag: String::from_str("BUILD"),
        writes,
        command: make_build_command(config.mode, env),
        spawn_failure: String::from_str("Failed to spawn imgforge.sh"),
        wait_failure: String::from_str("Failed to wait for process"),
        log_path: scratch_file(job_id, ".log"),
        artifact_host,
    }
}

/// Plans the flash of `image_path` onto `device_path` as job `job_id`.
pub fn plan_flash(job_id: &str, image_path: &str, device_path: &str) -> (plan: JobPlan)
    ensures
        plan@ == flash_plan(job_id@, image_path@, device_path@),
{
    let writes: Vec<FileWrite> = Vec::new();
    assert(writes_of(writes@) =~= Seq::<FileWriteView>::empty());
    JobPlan {
        job_id: String::from_str(job_id),
        tag: String::from_str("FLASH"),
        writes,
        command: make_flash_command(image_path, device_path),
        spawn_failure: String::from_str("Failed to spawn dd"),
        wait_failure: String::from_str("Failed to wait for dd"),
        log_path: scratch_file(job_id, ".log"),
        artifact_host: None,
    }
}

/// The path of the file that the build script leaves behind.
pub fn artifact_source_path() -> (path: String)
    ensures
        path@ == artifact_source(),
{
    String::from_str("/workdir/custom.img")
}

/// Names the stored image of `hostname` for the time stamp `stamp`.
pub fn name_artifact(hostname: &str, stamp: &str) -> (name: String)
    ensures
        name@ == artifact_name(hostname@, stamp@),
{
    String::from_str(hostname).concat("_").concat(stamp).concat(".img")
}

/// Names the stored image of `hostname` for the present moment. The time
/// stamp comes from the clock, so all that is known of the name is its
/// form.
pub fn name_artifact_now(hostname: &str) -> (name: String)
    ensures
        exists|stamp: Seq<char>| name@ == artifact_name(hostname@, stamp),
{
    let stamp = utc_now_formatted("%Y%m%d_%H%M%S");
    name_artifact(hostname, stamp.as_str())
}

} // verus!
