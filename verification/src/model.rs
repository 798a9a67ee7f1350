//! The data that travels between the service and its clients.

use vstd::prelude::*;
use crate::text::text_of;

verus! {

/// Lifecycle state of a job. `Running` is the only state a job can leave.
#[derive(Clone, Copy, Debug, PartialEq, Eq, Structural)]
pub enum JobStatus {
    Running,
    Success,
    Failed,
    Cancelled,
}

impl JobStatus {
    /// A terminal status is one that permits no further transition.
    pub open spec fn terminal(self) -> bool {
        self != JobStatus::Running
    }

    /// Whether the status is terminal.
    #[verifier::when_used_as_spec(terminal)]
    pub fn is_terminal(self) -> (b: bool)
        ensures
            b == self.terminal(),
    {
        match self {
            JobStatus::Running => false,
            JobStatus::Success => true,
            JobStatus::Failed => true,
            JobStatus::Cancelled => true,
        }
    }
}

/// The board family an image is built for.
#[derive(Clone, Copy, Debug, PartialEq, Eq, Structural)]
pub enum BoardType {
    RaspberryPi,
    Jetson,
}

/// Whether a build writes straight to a device or leaves an image file.
#[derive(Clone, Copy, Debug, PartialEq, Eq, Structural)]
pub enum BuildMode {
    Flash,
    Artifact,
}

/// Base images the build script knows how to fetch by itself.
#[derive(Clone, Copy, Debug, PartialEq, Eq, Structural)]
pub enum PresetImage {
    RaspberryPiLite,
    RadxaDesktop,
    RadxaServer,
}

/// Mathematical content of a [`BuildJob`].
pub struct JobView {
    pub id: Seq<char>,
    pub status: JobStatus,
    pub created_at: Seq<char>,
}

/// A tracked unit of work: a build or a flash.
#[derive(Debug, Clone, PartialEq, Eq)]
pub struct BuildJob {
    pub id: String,
    pub status: JobStatus,
    pub created_at: String,
}

impl View for BuildJob {
    type V = JobView;

    open spec fn view(&self) -> JobView {
        JobView { id: self.id@, status: self.status, created_at: self.created_at@ }
    }
}

impl BuildJob {
    /// An independent copy with the same content.
    pub fn duplicate(&self) -> (copy: BuildJob)
        ensures
            copy@ == self@,
    {
        BuildJob { id: self.id.clone(), status: self.status, created_at: self.created_at.clone() }
    }
}

/// Mathematical content of a [`Device`].
pub struct DeviceView {
    pub name: Seq<char>,
    pub path: Seq<char>,
    pub size: Seq<char>,
    pub removable: bool,
}

/// A block device that an image can be written to.
#[derive(Debug, Clone, PartialEq, Eq)]
pub struct Device {
    pub name: String,
    pub path: String,
    pub size: String,
    pub removable: bool,
}

impl View for Device {
    type V = DeviceView;

    open spec fn view(&self) -> DeviceView {
        DeviceView {
            name: self.name@,
            path: self.path@,
            size: self.size@,
            removable: self.removable,
        }
    }
}

/// Mathematical content of an [`ImageConfig`].
pub struct ImageConfigView {
    pub hostname: Seq<char>,
    pub change_username: bool,
    pub new_username: Option<Seq<char>>,
    pub set_root_password: bool,
    pub root_password: Option<Seq<char>>,
    pub enable_ssh: bool,
    pub wifi_ssid: Option<Seq<char>>,
    pub wifi_password: Option<Seq<char>>,
    pub board_type: BoardType,
    pub mode: BuildMode,
    pub expand_image: bool,
    pub extra_size: Option<Seq<char>>,
    pub base_image_url: Option<Seq<char>>,
    pub preset_image: Option<PresetImage>,
    pub docker_compose_content: Option<Seq<char>>,
    pub custom_script_content: Option<Seq<char>>,
    pub inline_command: Option<Seq<char>>,
}

/// Everything a client can choose for one build.
#[derive(Debug, Clone, PartialEq, Eq)]
pub struct ImageConfig {
    pub hostname: String,
    pub change_username: bool,
    pub new_username: Option<String>,
    pub set_root_password: bool,
    pub root_password: Option<String>,
    pub enable_ssh: bool,
    pub wifi_ssid: Option<String>,
    pub wifi_password: Option<String>,
    pub board_type: BoardType,
    pub mode: BuildMode,
    pub expand_image: bool,
    pub extra_size: Option<String>,
    pub base_image_url: Option<String>,
    pub preset_image: Option<PresetImage>,
    pub docker_compose_content: Option<String>,
    pub custom_script_content: Option<String>,
    pub inline_command: Option<String>,
}

impl View for ImageConfig {
    type V = ImageConfigView;

    open spec fn view(&self) -> ImageConfigView {
        ImageConfigView {
            hostname: self.hostname@,
            change_username: self.change_username,
            new_username: text_of(self.new_username),
            set_root_password: self.set_root_password,
            root_password: text_of(self.root_password),
            enable_ssh: self.enable_ssh,
            wifi_ssid: text_of(self.wifi_ssid),
            wifi_password: text_of(self.wifi_password),
            board_type: self.board_type,
            mode: self.mode,
            expand_image: self.expand_image,
            extra_size: text_of(self.extra_size),
            base_image_url: text_of(self.base_image_url),
            preset_image: self.preset_image,
            docker_compose_content: text_of(self.docker_compose_content),
            custom_script_content: text_of(self.custom_script_content),
            inline_command: text_of(self.inline_command),
        }
    }
}

} // verus!
