//! Renders a build configuration into the environment of the build script.
//!
//! The environment is an ordered list of variables. Options that exclude
//! each other are resolved first, each group to exactly one choice, by a
//! fixed order of precedence; the rendering then writes the variables of
//! the chosen branch and none of the others.

use vstd::prelude::*;
use vstd::string::*;
use crate::model::{BoardType, BuildMode, ImageConfig, ImageConfigView, PresetImage};
use crate::trusted::is_uuid_v4_text;

verus! {

/// A variable as a pair of name and value.
pub type Variable = (Seq<char>, Seq<char>);

/// One variable of the environment.
#[derive(Debug, Clone, PartialEq, Eq)]
pub struct EnvEntry {
    pub key: String,
    pub value: String,
}

impl View for EnvEntry {
    type V = Variable;

    open spec fn view(&self) -> Variable {
        (self.key@, self.value@)
    }
}

/// The content of each entry of a list, in the same order.
pub open spec fn variables(entries: Seq<EnvEntry>) -> Seq<Variable> {
    Seq::new(entries.len(), |i: int| entries[i]@)
}

/// Where the base image of a build comes from.
pub enum ImageSourceView {
    /// The build script fetches one of the images it knows.
    Preset(PresetImage),
    /// The build script fetches the image from this address.
    BaseUrl(Seq<char>),
    /// Nothing was chosen; the build script decides.
    Unset,
}

/// The script, if any, that the build runs inside the image.
pub enum ScriptSourceView {
    /// A script whose body came with the configuration.
    File(Seq<char>),
    /// A single command line.
    Inline(Seq<char>),
    /// No script.
    Unset,
}

/// The wireless network, if any, that the image joins.
pub enum WifiSetupView {
    Credentials { ssid: Seq<char>, password: Seq<char> },
    Unset,
}

/// A preset image wins over an address; with neither, nothing is chosen.
pub open spec fn image_source(c: ImageConfigView) -> ImageSourceView {
    match c.preset_image {
        Some(preset) => ImageSourceView::Preset(preset),
        None => match c.base_image_url {
            Some(url) => ImageSourceView::BaseUrl(url),
            None => ImageSourceView::Unset,
        },
    }
}

/// A script body wins over an inline command; with neither, there is no
/// script.
pub open spec fn script_source(c: ImageConfigView) -> ScriptSourceView {
    match c.custom_script_content {
        Some(body) => ScriptSourceView::File(body),
        None => match c.inline_command {
            Some(command) => ScriptSourceView::Inline(command),
            None => ScriptSourceView::Unset,
        },
    }
}

/// Credentials count only when both the network name and the password are
/// given.
pub open spec fn wifi_setup(c: ImageConfigView) -> WifiSetupView {
    match (c.wifi_ssid, c.wifi_password) {
        (Some(ssid), Some(password)) => WifiSetupView::Credentials { ssid, password },
        _ => WifiSetupView::Unset,
    }
}

/// Where the base image of a build comes from.
#[derive(Debug, Clone, PartialEq, Eq)]
pub enum ImageSource {
    Preset(PresetImage),
    BaseUrl(String),
    Unset,
}

impl View for ImageSource {
    type V = ImageSourceView;

    open spec fn view(&self) -> ImageSourceView {
        match self {
            ImageSource::Preset(p) => ImageSourceView::Preset(*p),
            ImageSource::BaseUrl(url) => ImageSourceView::BaseUrl(url@),
            ImageSource::Unset => ImageSourceView::Unset,
        }
    }
}

/// The script, if any, that the build runs inside the image.
#[derive(Debug, Clone, PartialEq, Eq)]
pub enum ScriptSource {
    File(String),
    Inline(String),
    Unset,
}

impl View for ScriptSource {
    type V = ScriptSourceView;

    open spec fn view(&self) -> ScriptSourceView {
        match self {
            ScriptSource::File(body) => ScriptSourceView::File(body@),
            ScriptSource::Inline(command) => ScriptSourceView::Inline(command@),
            ScriptSource::Unset => ScriptSourceView::Unset,
        }
    }
}

/// The wireless network, if any, that the image joins.
#[derive(Debug, Clone, PartialEq, Eq)]
pub enum WifiSetup {
    Credentials { ssid: String, password: String },
    Unset,
}

impl View for WifiSetup {
    type V = WifiSetupView;

    open spec fn view(&self) -> WifiSetupView {
        match self {
            WifiSetup::Credentials { ssid, password } => WifiSetupView::Credentials {
                ssid: ssid@,
                password: password@,
            },
            WifiSetup::Unset => WifiSetupView::Unset,
        }
    }
}

impl ImageConfig {
    /// Resolves the choice of base image.
    pub fn image_source(&self) -> (source: ImageSource)
        ensures
            source@ == image_source(self@),
    {
        match &self.preset_image {
            Some(preset) => ImageSource::Preset(*preset),
            None => match &self.base_image_url {
                Some(url) => ImageSource::BaseUrl(url.clone()),
                None => ImageSource::Unset,
            },
        }
    }

    /// Resolves the choice of script.
    pub fn script_source(&self) -> (source: ScriptSource)
        ensures
            source@ == script_source(self@),
    {
        match &self.custom_script_content {
            Some(body) => ScriptSource::File(body.clone()),
            None => match &self.inline_command {
                Some(command) => ScriptSource::Inline(command.clone()),
                None => ScriptSource::Unset,
            },
        }
    }

    /// Resolves the wireless setup.
    pub fn wifi_setup(&self) -> (setup: WifiSetup)
        ensures
            setup@ == wifi_setup(self@),
    {
        match &self.wifi_ssid {
            Some(ssid) => match &self.wifi_password {
                Some(password) => WifiSetup::Credentials {
                    ssid: ssid.clone(),
                    password: password.clone(),
                },
                None => WifiSetup::Unset,
            },
            None => WifiSetup::Unset,
        }
    }
}

/// How the build script spells a switch.
pub open spec fn yes_no(on: bool) -> Seq<char> {
    if on {
        "y"@
    } else {
        "n"@
    }
}

/// The number under which the build script knows a board.
pub open spec fn board_code(board: BoardType) -> Seq<char> {
    match board {
        BoardType::RaspberryPi => "1"@,
        BoardType::Jetson => "2"@,
    }
}

/// The number under which the build script knows a preset image.
pub open spec fn preset_code(preset: PresetImage) -> Seq<char> {
    match preset {
        PresetImage::RaspberryPiLite => "1"@,
        PresetImage::RadxaDesktop => "2"@,
        PresetImage::RadxaServer => "3"@,
    }
}

/// The number under which the build script knows a build mode.
pub open spec fn mode_code(mode: BuildMode) -> Seq<char> {
    match mode {
        BuildMode::Flash => "1"@,
        BuildMode::Artifact => "2"@,
    }
}

/// The path of a scratch file of a job: a fixed prefix, the job id, and a
/// suffix that tells the files of one job apart.
pub open spec fn scratch_path(job_id: Seq<char>, suffix: Seq<char>) -> Seq<char> {
    "/tmp/imgforge-"@ + job_id + suffix
}

/// Where the rendered environment of a job is written.
pub open spec fn env_path(job_id: Seq<char>) -> Seq<char> {
    scratch_path(job_id, ".env"@)
}

/// Where the captured output of a job is written.
pub open spec fn log_path(job_id: Seq<char>) -> Seq<char> {
    scratch_path(job_id, ".log"@)
}

/// Where the compose definition of a job is written.
pub open spec fn compose_path(job_id: Seq<char>) -> Seq<char> {
    scratch_path(job_id, "-compose.yml"@)
}

/// Where the script body of a job is written.
pub open spec fn script_path(job_id: Seq<char>) -> Seq<char> {
    scratch_path(job_id, "-script.sh"@)
}

/// Scratch paths tell jobs and files apart: where two ids are of the same
/// length, equal paths mean the same id and the same suffix.
pub proof fn law_scratch_paths_are_distinct(
    a: Seq<char>,
    suffix_a: Seq<char>,
    b: Seq<char>,
    suffix_b: Seq<char>,
)
    requires
        a.len() == b.len(),
        scratch_path(a, suffix_a) == scratch_path(b, suffix_b),
    ensures
        a == b,
        suffix_a == suffix_b,
{
    let prefix = "/tmp/imgforge-"@;
    let x = scratch_path(a, suffix_a);
    let y = scratch_path(b, suffix_b);
    assert(x.len() == prefix.len() + a.len() + suffix_a.len());
    assert forall|i: int| 0 <= i < a.len() implies a[i] == b[i] by {
        assert(x[prefix.len() + i] == a[i]);
        assert(y[prefix.len() + i] == b[i]);
    }
    assert forall|i: int| 0 <= i < suffix_a.len() implies suffix_a[i] == suffix_b[i] by {
        assert(x[prefix.len() + a.len() + i] == suffix_a[i]);
        assert(y[prefix.len() + b.len() + i] == suffix_b[i]);
    }
}

/// Two jobs with random ids share no scratch file, whatever the suffixes.
pub proof fn law_jobs_share_no_scratch_file(
    a: Seq<char>,
    suffix_a: Seq<char>,
    b: Seq<char>,
    suffix_b: Seq<char>,
)
    requires
        is_uuid_v4_text(a),
        is_uuid_v4_text(b),
        a != b,
    ensures
        scratch_path(a, suffix_a) != scratch_path(b, suffix_b),
{
    if scratch_path(a, suffix_a) == scratch_path(b, suffix_b) {
        law_scratch_paths_are_distinct(a, suffix_a, b, suffix_b);
    }
}

/// The four scratch files of one job have four different paths.
pub proof fn law_files_of_a_job_differ(job_id: Seq<char>)
    ensures
        env_path(job_id) != log_path(job_id),
        env_path(job_id) != compose_path(job_id),
        env_path(job_id) != script_path(job_id),
        log_path(job_id) != compose_path(job_id),
        log_path(job_id) != script_path(job_id),
        compose_path(job_id) != script_path(job_id),
{
    reveal_strlit(".env");
    reveal_strlit(".log");
    reveal_strlit("-compose.yml");
    reveal_strlit("-script.sh");
    assert(".env"@[1] != ".log"@[1]);
    if env_path(job_id) == log_path(job_id) {
        law_scratch_paths_are_distinct(job_id, ".env"@, job_id, ".log"@);
    }
    if env_path(job_id) == compose_path(job_id) {
        law_scratch_paths_are_distinct(job_id, ".env"@, job_id, "-compose.yml"@);
    }
    if env_path(job_id) == script_path(job_id) {
        law_scratch_paths_are_distinct(job_id, ".env"@, job_id, "-script.sh"@);
    }
    if log_path(job_id) == compose_path(job_id) {
        law_scratch_paths_are_distinct(job_id, ".log"@, job_id, "-compose.yml"@);
    }
    if log_path(job_id) == script_path(job_id) {
        law_scratch_paths_are_distinct(job_id, ".log"@, job_id, "-script.sh"@);
    }
    if compose_path(job_id) == script_path(job_id) {
        law_scratch_paths_are_distinct(job_id, "-compose.yml"@, job_id, "-script.sh"@);
    }
}

/// `env` with one more variable, if a value is given.
pub open spec fn with_optional(env: Seq<Variable>, key: Seq<char>, value: Option<Seq<char>>) -> Seq<
    Variable,
> {
    match value {
        Some(v) => env.push((key, v)),
        None => env,
    }
}

/// `env` with the variables of the wireless setup. Without credentials the
/// choice is recorded as `3`, the script's word for "no network".
pub open spec fn with_wifi(env: Seq<Variable>, setup: WifiSetupView) -> Seq<Variable> {
    match setup {
        WifiSetupView::Credentials { ssid, password } => env.push(("WIFI_CHOICE"@, "1"@)).push(
            ("WIFI_SSID"@, ssid),
        ).push(("WIFI_PASS"@, password)),
        WifiSetupView::Unset => env.push(("WIFI_CHOICE"@, "3"@)),
    }
}

/// `env` with the variables of the base image. Where nothing was chosen the
/// environment still says so: there is no image at hand, and no preset is
/// named, which leaves the choice to the build script.
pub open spec fn with_image(env: Seq<Variable>, source: ImageSourceView) -> Seq<Variable> {
    match source {
        ImageSourceView::Preset(preset) => env.push(("HAVE_IMG"@, "n"@)).push(
            ("IMG_CHOICE"@, preset_code(preset)),
        ),
        ImageSourceView::BaseUrl(url) => env.push(("HAVE_IMG"@, "y"@)).push(("BASE_IMG"@, url)),
        ImageSourceView::Unset => env.push(("HAVE_IMG"@, "n"@)),
    }
}

/// `env` with the variables of the compose definition, which is handed to
/// the script as a file of the job.
pub open spec fn with_compose(env: Seq<Variable>, compose: Option<Seq<char>>, job_id: Seq<char>) -> Seq<
    Variable,
> {
    match compose {
        Some(_) => env.push(("HAVE_COMPOSE"@, "y"@)).push(("COMPOSE_FILE"@, compose_path(job_id))),
        None => env.push(("HAVE_COMPOSE"@, "n"@)),
    }
}

/// `env` with the variables of the script. A script body is handed over as
/// a file of the job, an inline command as it is.
pub open spec fn with_script(env: Seq<Variable>, source: ScriptSourceView, job_id: Seq<char>) -> Seq<
    Variable,
> {
    match source {
        ScriptSourceView::File(_) => env.push(("HAVE_SCRIPT"@, "y"@)).push(
            ("SCRIPT_TYPE"@, "1"@),
        ).push(("CUSTOM_SCRIPT"@, script_path(job_id))),
        ScriptSourceView::Inline(command) => env.push(("HAVE_SCRIPT"@, "y"@)).push(
            ("SCRIPT_TYPE"@, "2"@),
        ).push(("INLINE_COMMAND"@, command)),
        ScriptSourceView::Unset => env.push(("HAVE_SCRIPT"@, "n"@)),
    }
}

/// The environment of the build of configuration `c` as job `job_id`: a
/// function of these two and of nothing else.
pub open spec fn env_entries(c: ImageConfigView, job_id: Seq<char>) -> Seq<Variable> {
    let env = seq![("HOSTNAME"@, c.hostname), ("CHANGE_USERNAME"@, yes_no(c.change_username))];
    let env = with_optional(env, "NEW_USERNAME"@, c.new_username);
    let env = env.push(("SET_ROOTPW"@, yes_no(c.set_root_password)));
    let env = with_optional(env, "ROOTPW"@, c.root_password);
    let env = env.push(("ENABLE_SSH"@, yes_no(c.enable_ssh)));
    let env = with_wifi(env, wifi_setup(c));
    let env = env.push(("BOARD"@, board_code(c.board_type)));
    let env = with_image(env, image_source(c));
    let env = env.push(("EXPAND_IMG"@, yes_no(c.expand_image)));
    let env = with_optional(env, "EXTRA_SIZE"@, c.extra_size);
    let env = with_compose(env, c.docker_compose_content, job_id);
    let env = with_script(env, script_source(c), job_id);
    env.push(("SKIP_WIZARD"@, "y"@))
}

/// The place of a variable's name in the order in which an environment
/// lists its variables; `-1` for a name that no environment uses.
pub open spec fn key_rank(key: Seq<char>) -> int {
    if key == "HOSTNAME"@ {
        0
    } else if key == "CHANGE_USERNAME"@ {
        1
    } else if key == "NEW_USERNAME"@ {
        2
    } else if key == "SET_ROOTPW"@ {
        3
    } else if key == "ROOTPW"@ {
        4
    } else if key == "ENABLE_SSH"@ {
        5
    } else if key == "WIFI_CHOICE"@ {
        6
    } else if key == "WIFI_SSID"@ {
        7
    } else if key == "WIFI_PASS"@ {
        8
    } else if key == "BOARD"@ {
        9
    } else if key == "HAVE_IMG"@ {
        10
    } else if key == "IMG_CHOICE"@ {
        11
    } else if key == "BASE_IMG"@ {
        12
    } else if key == "EXPAND_IMG"@ {
        13
    } else if key == "EXTRA_SIZE"@ {
        14
    } else if key == "HAVE_COMPOSE"@ {
        15
    } else if key == "COMPOSE_FILE"@ {
        16
    } else if key == "HAVE_SCRIPT"@ {
        17
    } else if key == "SCRIPT_TYPE"@ {
        18
    } else if key == "CUSTOM_SCRIPT"@ {
        19
    } else if key == "INLINE_COMMAND"@ {
        20
    } else if key == "SKIP_WIZARD"@ {
        21
    } else {
        -1
    }
}

/// The variables of `env` stand in the order of their names' places, and
/// all places lie below `bound`.
pub open spec fn in_order(env: Seq<Variable>, bound: int) -> bool {
    &&& forall|i: int| 0 <= i < env.len() ==> 0 <= key_rank((#[trigger] env[i]).0) < bound
    &&& forall|i: int, j: int|
        0 <= i < j < env.len() ==> key_rank((#[trigger] env[i]).0) < key_rank(
            (#[trigger] env[j]).0,
        )
}

/// What tells the names apart: the length of a name, its first three
/// characters and its last.
spec fn mark(key: Seq<char>) -> (nat, char, char, char, char) {
    (key.len(), key[0], key[1], key[2], key.last())
}

/// Each name has the place that the order gives it: no two names are the
/// same text.
proof fn lemma_key_ranks()
    ensures
        key_rank("HOSTNAME"@) == 0,
        key_rank("CHANGE_USERNAME"@) == 1,
        key_rank("NEW_USERNAME"@) == 2,
        key_rank("SET_ROOTPW"@) == 3,
        key_rank("ROOTPW"@) == 4,
        key_rank("ENABLE_SSH"@) == 5,
        key_rank("WIFI_CHOICE"@) == 6,
        key_rank("WIFI_SSID"@) == 7,
        key_rank("WIFI_PASS"@) == 8,
        key_rank("BOARD"@) == 9,
        key_rank("HAVE_IMG"@) == 10,
        key_rank("IMG_CHOICE"@) == 11,
        key_rank("BASE_IMG"@) == 12,
        key_rank("EXPAND_IMG"@) == 13,
        key_rank("EXTRA_SIZE"@) == 14,
        key_rank("HAVE_COMPOSE"@) == 15,
        key_rank("COMPOSE_FILE"@) == 16,
        key_rank("HAVE_SCRIPT"@) == 17,
        key_rank("SCRIPT_TYPE"@) == 18,
        key_rank("CUSTOM_SCRIPT"@) == 19,
        key_rank("INLINE_COMMAND"@) == 20,
        key_rank("SKIP_WIZARD"@) == 21,
{
    reveal_strlit("HOSTNAME");
    reveal_strlit("CHANGE_USERNAME");
    reveal_strlit("NEW_USERNAME");
    reveal_strlit("SET_ROOTPW");
    reveal_strlit("ROOTPW");
    reveal_strlit("ENABLE_SSH");
    reveal_strlit("WIFI_CHOICE");
    reveal_strlit("WIFI_SSID");
    reveal_strlit("WIFI_PASS");
    reveal_strlit("BOARD");
    reveal_strlit("HAVE_IMG");
    reveal_strlit("IMG_CHOICE");
    reveal_strlit("BASE_IMG");
    reveal_strlit("EXPAND_IMG");
    reveal_strlit("EXTRA_SIZE");
    reveal_strlit("HAVE_COMPOSE");
    reveal_strlit("COMPOSE_FILE");
    reveal_strlit("HAVE_SCRIPT");
    reveal_strlit("SCRIPT_TYPE");
    reveal_strlit("CUSTOM_SCRIPT");
    reveal_strlit("INLINE_COMMAND");
    reveal_strlit("SKIP_WIZARD");
    assert(mark("HOSTNAME"@) == (8nat, 'H', 'O', 'S', 'E'));
    assert(mark("CHANGE_USERNAME"@) == (15nat, 'C', 'H', 'A', 'E'));
    assert(mark("NEW_USERNAME"@) == (12nat, 'N', 'E', 'W', 'E'));
    assert(mark("SET_ROOTPW"@) == (10nat, 'S', 'E', 'T', 'W'));
    assert(mark("ROOTPW"@) == (6nat, 'R', 'O', 'O', 'W'));
    assert(mark("ENABLE_SSH"@) == (10nat, 'E', 'N', 'A', 'H'));
    assert(mark("WIFI_CHOICE"@) == (11nat, 'W', 'I', 'F', 'E'));
    assert(mark("WIFI_SSID"@) == (9nat, 'W', 'I', 'F', 'D'));
    assert(mark("WIFI_PASS"@) == (9nat, 'W', 'I', 'F', 'S'));
    assert(mark("BOARD"@) == (5nat, 'B', 'O', 'A', 'D'));
    assert(mark("HAVE_IMG"@) == (8nat, 'H', 'A', 'V', 'G'));
    assert(mark("IMG_CHOICE"@) == (10nat, 'I', 'M', 'G', 'E'));
    assert(mark("BASE_IMG"@) == (8nat, 'B', 'A', 'S', 'G'));
    assert(mark("EXPAND_IMG"@) == (10nat, 'E', 'X', 'P', 'G'));
    assert(mark("EXTRA_SIZE"@) == (10nat, 'E', 'X', 'T', 'E'));
    assert(mark("HAVE_COMPOSE"@) == (12nat, 'H', 'A', 'V', 'E'));
    assert(mark("COMPOSE_FILE"@) == (12nat, 'C', 'O', 'M', 'E'));
    assert(mark("HAVE_SCRIPT"@) == (11nat, 'H', 'A', 'V', 'T'));
    assert(mark("SCRIPT_TYPE"@) == (11nat, 'S', 'C', 'R', 'E'));
    assert(mark("CUSTOM_SCRIPT"@) == (13nat, 'C', 'U', 'S', 'T'));
    assert(mark("INLINE_COMMAND"@) == (14nat, 'I', 'N', 'L', 'D'));
    assert(mark("SKIP_WIZARD"@) == (11nat, 'S', 'K', 'I', 'D'));
}

/// A variable whose name has the place `rank` may follow variables whose
/// places lie below `rank`.
proof fn lemma_push_in_order(env: Seq<Variable>, key: Seq<char>, value: Seq<char>, rank: int)
    requires
        in_order(env, rank),
        key_rank(key) == rank,
        0 <= rank,
    ensures
        in_order(env.push((key, value)), rank + 1),
{
    let after = env.push((key, value));
    assert forall|i: int| 0 <= i < after.len() implies 0 <= key_rank((#[trigger] after[i]).0) < rank
        + 1 by {
        if i < env.len() {
            assert(after[i] == env[i]);
        }
    }
    assert forall|i: int, j: int| 0 <= i < j < after.len() implies key_rank(
        (#[trigger] after[i]).0,
    ) < key_rank((#[trigger] after[j]).0) by {
        assert(after[i] == env[i]);
        if j < env.len() {
            assert(after[j] == env[j]);
        }
    }
}

/// An optional variable keeps the order.
proof fn lemma_optional_in_order(
    env: Seq<Variable>,
    key: Seq<char>,
    value: Option<Seq<char>>,
    rank: int,
)
    requires
        in_order(env, rank),
        key_rank(key) == rank,
        0 <= rank,
    ensures
        in_order(with_optional(env, key, value), rank + 1),
{
    if value is Some {
        lemma_push_in_order(env, key, value->Some_0, rank);
    }
}

/// The variables of the wireless setup keep the order.
proof fn lemma_wifi_in_order(env: Seq<Variable>, setup: WifiSetupView)
    requires
        in_order(env, 6),
    ensures
        in_order(with_wifi(env, setup), 9),
{
    lemma_key_ranks();
    match setup {
        WifiSetupView::Credentials { ssid, password } => {
            lemma_push_in_order(env, "WIFI_CHOICE"@, "1"@, 6);
            let e1 = env.push(("WIFI_CHOICE"@, "1"@));
            lemma_push_in_order(e1, "WIFI_SSID"@, ssid, 7);
            let e2 = e1.push(("WIFI_SSID"@, ssid));
            lemma_push_in_order(e2, "WIFI_PASS"@, password, 8);
        },
        WifiSetupView::Unset => {
            lemma_push_in_order(env, "WIFI_CHOICE"@, "3"@, 6);
        },
    }
}

/// The variables of the base image keep the order.
proof fn lemma_image_in_order(env: Seq<Variable>, source: ImageSourceView)
    requires
        in_order(env, 10),
    ensures
        in_order(with_image(env, source), 13),
{
    lemma_key_ranks();
    match source {
        ImageSourceView::Preset(preset) => {
            lemma_push_in_order(env, "HAVE_IMG"@, "n"@, 10);
            let e1 = env.push(("HAVE_IMG"@, "n"@));
            lemma_push_in_order(e1, "IMG_CHOICE"@, preset_code(preset), 11);
        },
        ImageSourceView::BaseUrl(url) => {
            lemma_push_in_order(env, "HAVE_IMG"@, "y"@, 10);
            let e1 = env.push(("HAVE_IMG"@, "y"@));
            lemma_push_in_order(e1, "BASE_IMG"@, url, 12);
        },
        ImageSourceView::Unset => {
            lemma_push_in_order(env, "HAVE_IMG"@, "n"@, 10);
        },
    }
}

/// The variables of the compose definition keep the order.
proof fn lemma_compose_in_order(env: Seq<Variable>, compose: Option<Seq<char>>, job_id: Seq<char>)
    requires
        in_order(env, 15),
    ensures
        in_order(with_compose(env, compose, job_id), 17),
{
    lemma_key_ranks();
    match compose {
        Some(_) => {
            lemma_push_in_order(env, "HAVE_COMPOSE"@, "y"@, 15);
            let e1 = env.push(("HAVE_COMPOSE"@, "y"@));
            lemma_push_in_order(e1, "COMPOSE_FILE"@, compose_path(job_id), 16);
        },
        None => {
            lemma_push_in_order(env, "HAVE_COMPOSE"@, "n"@, 15);
        },
    }
}

/// The variables of the script keep the order.
proof fn lemma_script_in_order(env: Seq<Variable>, source: ScriptSourceView, job_id: Seq<char>)
    requires
        in_order(env, 17),
    ensures
        in_order(with_script(env, source, job_id), 21),
{
    lemma_key_ranks();
    match source {
        ScriptSourceView::File(_) => {
            lemma_push_in_order(env, "HAVE_SCRIPT"@, "y"@, 17);
            let e1 = env.push(("HAVE_SCRIPT"@, "y"@));
            lemma_push_in_order(e1, "SCRIPT_TYPE"@, "1"@, 18);
            let e2 = e1.push(("SCRIPT_TYPE"@, "1"@));
            lemma_push_in_order(e2, "CUSTOM_SCRIPT"@, script_path(job_id), 19);
        },
        ScriptSourceView::Inline(command) => {
            lemma_push_in_order(env, "HAVE_SCRIPT"@, "y"@, 17);
            let e1 = env.push(("HAVE_SCRIPT"@, "y"@));
            lemma_push_in_order(e1, "SCRIPT_TYPE"@, "2"@, 18);
            let e2 = e1.push(("SCRIPT_TYPE"@, "2"@));
            lemma_push_in_order(e2, "INLINE_COMMAND"@, command, 20);
        },
        ScriptSourceView::Unset => {
            lemma_push_in_order(env, "HAVE_SCRIPT"@, "n"@, 17);
        },
    }
}

/// The variables of every environment stand in the order of their names'
/// places.
proof fn lemma_env_in_order(c: ImageConfigView, job_id: Seq<char>)
    ensures
        in_order(env_entries(c, job_id), 22),
{
    lemma_key_ranks();
    let e0 = Seq::<Variable>::empty();
    lemma_push_in_order(e0, "HOSTNAME"@, c.hostname, 0);
    let e1 = e0.push(("HOSTNAME"@, c.hostname));
    lemma_push_in_order(e1, "CHANGE_USERNAME"@, yes_no(c.change_username), 1);
    let e2 = e1.push(("CHANGE_USERNAME"@, yes_no(c.change_username)));
    assert(e2 =~= seq![("HOSTNAME"@, c.hostname), ("CHANGE_USERNAME"@, yes_no(c.change_username))]);
    lemma_optional_in_order(e2, "NEW_USERNAME"@, c.new_username, 2);
    let e3 = with_optional(e2, "NEW_USERNAME"@, c.new_username);
    lemma_push_in_order(e3, "SET_ROOTPW"@, yes_no(c.set_root_password), 3);
    let e4 = e3.push(("SET_ROOTPW"@, yes_no(c.set_root_password)));
    lemma_optional_in_order(e4, "ROOTPW"@, c.root_password, 4);
    let e5 = with_optional(e4, "ROOTPW"@, c.root_password);
    lemma_push_in_order(e5, "ENABLE_SSH"@, yes_no(c.enable_ssh), 5);
    let e6 = e5.push(("ENABLE_SSH"@, yes_no(c.enable_ssh)));
    lemma_wifi_in_order(e6, wifi_setup(c));
    let e7 = with_wifi(e6, wifi_setup(c));
    lemma_push_in_order(e7, "BOARD"@, board_code(c.board_type), 9);
    let e8 = e7.push(("BOARD"@, board_code(c.board_type)));
    lemma_image_in_order(e8, image_source(c));
    let e9 = with_image(e8, image_source(c));
    lemma_push_in_order(e9, "EXPAND_IMG"@, yes_no(c.expand_image), 13);
    let e10 = e9.push(("EXPAND_IMG"@, yes_no(c.expand_image)));
    lemma_optional_in_order(e10, "EXTRA_SIZE"@, c.extra_size, 14);
    let e11 = with_optional(e10, "EXTRA_SIZE"@, c.extra_size);
    lemma_compose_in_order(e11, c.docker_compose_content, job_id);
    let e12 = with_compose(e11, c.docker_compose_content, job_id);
    lemma_script_in_order(e12, script_source(c), job_id);
    let e13 = with_script(e12, script_source(c), job_id);
    lemma_push_in_order(e13, "SKIP_WIZARD"@, "y"@, 21);
}

/// No environment sets a variable twice: of the branches of every choice
/// exactly one is written, and each variable of it once.
pub proof fn law_no_variable_is_set_twice(c: ImageConfigView, job_id: Seq<char>)
    ensures
        forall|i: int, j: int|
            0 <= i < j < env_entries(c, job_id).len() ==> (#[trigger] env_entries(c, job_id)[i]).0
                != (#[trigger] env_entries(c, job_id)[j]).0,
{
    lemma_env_in_order(c, job_id);
}

/// One variable as a line of an environment file.
pub open spec fn variable_line(v: Variable) -> Seq<char> {
    v.0 + "="@ + v.1 + "\n"@
}

/// The environment as the text of an environment file: one line per
/// variable, in order.
pub open spec fn env_text(env: Seq<Variable>) -> Seq<char>
    decreases env.len(),
{
    if env.len() == 0 {
        Seq::empty()
    } else {
        env_text(env.drop_last()) + variable_line(env.last())
    }
}

/// Adds one variable at the end of `env`.
fn push_entry(env: &mut Vec<EnvEntry>, key: &str, value: &str)
    ensures
        variables(final(env)@) == variables(old(env)@).push((key@, value@)),
{
    env.push(EnvEntry { key: String::from_str(key), value: String::from_str(value) });
}

/// Adds one variable at the end of `env` if a value is given.
fn push_optional(env: &mut Vec<EnvEntry>, key: &str, value: &Option<String>)
    ensures
        variables(final(env)@) == with_optional(
            variables(old(env)@),
            key@,
            crate::text::text_of(*value),
        ),
{
    match value {
        Some(v) => push_entry(env, key, v.as_str()),
        None => {},
    }
}

/// Spells a switch for the build script.
pub fn yes_no_text(on: bool) -> (text: &'static str)
    ensures
        text@ == yes_no(on),
{
    if on {
        "y"
    } else {
        "n"
    }
}

impl BoardType {
    /// The number under which the build script knows the board.
    pub fn code(&self) -> (text: &'static str)
        ensures
            text@ == board_code(*self),
    {
        match self {
            BoardType::RaspberryPi => "1",
            BoardType::Jetson => "2",
        }
    }
}

impl PresetImage {
    /// The number under which the build script knows the image.
    pub fn code(&self) -> (text: &'static str)
        ensures
            text@ == preset_code(*self),
    {
        match self {
            PresetImage::RaspberryPiLite => "1",
            PresetImage::RadxaDesktop => "2",
            PresetImage::RadxaServer => "3",
        }
    }
}

impl BuildMode {
    /// The number under which the build script knows the mode.
    pub fn code(&self) -> (text: &'static str)
        ensures
            text@ == mode_code(*self),
    {
        match self {
            BuildMode::Flash => "1",
            BuildMode::Artifact => "2",
        }
    }
}

/// Builds the path of a scratch file of a job.
pub fn scratch_file(job_id: &str, suffix: &str) -> (path: String)
    ensures
        path@ == scratch_path(job_id@, suffix@),
{
    String::from_str("/tmp/imgforge-").concat(job_id).concat(suffix)
}

/// Renders `config` into the environment of the build that runs as job
/// `job_id`.
pub fn render_env(config: &ImageConfig, job_id: &str) -> (env: Vec<EnvEntry>)
    ensures
        variables(env@) == env_entries(config@, job_id@),
{
    let mut env: Vec<EnvEntry> = Vec::new();
    push_entry(&mut env, "HOSTNAME", config.hostname.as_str());
    push_entry(&mut env, "CHANGE_USERNAME", yes_no_text(config.change_username));
    assert(variables(env@) =~= seq![
        ("HOSTNAME"@, config@.hostname),
        ("CHANGE_USERNAME"@, yes_no(config@.change_username)),
    ]);
    push_optional(&mut env, "NEW_USERNAME", &config.new_username);
    push_entry(&mut env, "SET_ROOTPW", yes_no_text(config.set_root_password));
    push_optional(&mut env, "ROOTPW", &config.root_password);
    push_entry(&mut env, "ENABLE_SSH", yes_no_text(config.enable_ssh));
    match config.wifi_setup() {
        WifiSetup::Credentials { ssid, password } => {
            push_entry(&mut env, "WIFI_CHOICE", "1");
            push_entry(&mut env, "WIFI_SSID", ssid.as_str());
            push_entry(&mut env, "WIFI_PASS", password.as_str());
        },
        WifiSetup::Unset => {
            push_entry(&mut env, "WIFI_CHOICE", "3");
        },
    }
    push_entry(&mut env, "BOARD", config.board_type.code());
    match config.image_source() {
        ImageSource::Preset(preset) => {
            push_entry(&mut env, "HAVE_IMG", "n");
            push_entry(&mut env, "IMG_CHOICE", preset.code());
        },
        ImageSource::BaseUrl(url) => {
            push_entry(&mut env, "HAVE_IMG", "y");
            push_entry(&mut env, "BASE_IMG", url.as_str());
        },
        ImageSource::Unset => {
            push_entry(&mut env, "HAVE_IMG", "n");
        },
    }
    push_entry(&mut env, "EXPAND_IMG", yes_no_text(config.expand_image));
    push_optional(&mut env, "EXTRA_SIZE", &config.extra_size);
    match &config.docker_compose_content {
        Some(_) => {
            push_entry(&mut env, "HAVE_COMPOSE", "y");
            let path = scratch_file(job_id, "-compose.yml");
            push_entry(&mut env, "COMPOSE_FILE", path.as_str());
        },
        None => {
            push_entry(&mut env, "HAVE_COMPOSE", "n");
        },
    }
    match config.script_source() {
        ScriptSource::File(_) => {
            push_entry(&mut env, "HAVE_SCRIPT", "y");
            push_entry(&mut env, "SCRIPT_TYPE", "1");
            let path = scratch_file(job_id, "-script.sh");
            push_entry(&mut env, "CUSTOM_SCRIPT", path.as_str());
        },
        ScriptSource::Inline(command) => {
            push_entry(&mut env, "HAVE_SCRIPT", "y");
            push_entry(&mut env, "SCRIPT_TYPE", "2");
            push_entry(&mut env, "INLINE_COMMAND", command.as_str());
        },
        ScriptSource::Unset => {
            push_entry(&mut env, "HAVE_SCRIPT", "n");
        },
    }
    push_entry(&mut env, "SKIP_WIZARD", "y");
    env
}

/// Writes the environment as the text of an environment file.
pub fn render_env_text(env: &Vec<EnvEntry>) -> (text: String)
    ensures
        text@ == env_text(variables(env@)),
{
    let mut text = String::new();
    let mut i: usize = 0;
    while i < env.len()
        invariant
            i <= env@.len(),
            text@ == env_text(variables(env@).subrange(0, i as int)),
        decreases env@.len() - i,
    {
        let ghost done = variables(env@).subrange(0, i as int);
        let ghost next = variables(env@).subrange(0, i + 1);
        text.append(env[i].key.as_str());
        text.append("=");
        text.append(env[i].value.as_str());
        text.append("\n");
        proof {
            assert(next.drop_last() =~= done);
        }
        i += 1;
    }
    assert(variables(env@).subrange(0, i as int) =~= variables(env@));
    text
}

} // verus!
