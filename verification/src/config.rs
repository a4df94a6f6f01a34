//! The loop's parameters: their defaults, how a quality gate resolves to one
//! command, where configuration files lie, and which of several candidate
//! files is taken.

use crate::text::views;
use vstd::prelude::*;

verus! {

/// Loop settings.
#[derive(Debug)]
pub struct LoopConfig {
    pub max_iterations: u32,
    pub iteration_timeout_minutes: u32,
    pub sleep_between_secs: u64,
    pub completion_signal: String,
}

pub struct LoopConfigView {
    pub max_iterations: u32,
    pub iteration_timeout_minutes: u32,
    pub sleep_between_secs: u64,
    pub completion_signal: Seq<char>,
}

impl View for LoopConfig {
    type V = LoopConfigView;

    open spec fn view(&self) -> LoopConfigView {
        LoopConfigView {
            max_iterations: self.max_iterations,
            iteration_timeout_minutes: self.iteration_timeout_minutes,
            sleep_between_secs: self.sleep_between_secs,
            completion_signal: self.completion_signal@,
        }
    }
}

impl LoopConfigView {
    pub open spec fn standard() -> LoopConfigView {
        LoopConfigView {
            max_iterations: 100,
            iteration_timeout_minutes: 10,
            sleep_between_secs: 2,
            completion_signal: "<promise>COMPLETE</promise>"@,
        }
    }
}

impl Default for LoopConfig {
    fn default() -> (r: Self)
        ensures
            r@ == LoopConfigView::standard(),
    {
        LoopConfig {
            max_iterations: 100,
            iteration_timeout_minutes: 10,
            sleep_between_secs: 2,
            completion_signal: "<promise>COMPLETE</promise>".to_string(),
        }
    }
}

impl Clone for LoopConfig {
    fn clone(&self) -> (r: Self)
        ensures
            r@ == self@,
    {
        LoopConfig {
            max_iterations: self.max_iterations,
            iteration_timeout_minutes: self.iteration_timeout_minutes,
            sleep_between_secs: self.sleep_between_secs,
            completion_signal: self.completion_signal.clone(),
        }
    }
}

/// The validation command.
#[derive(Debug)]
pub struct ValidationConfig {
    pub command: String,
}

pub struct ValidationConfigView {
    pub command: Seq<char>,
}

impl View for ValidationConfig {
    type V = ValidationConfigView;

    open spec fn view(&self) -> ValidationConfigView {
        ValidationConfigView { command: self.command@ }
    }
}

impl ValidationConfigView {
    pub open spec fn standard() -> ValidationConfigView {
        ValidationConfigView { command: "otto ci"@ }
    }
}

impl Default for ValidationConfig {
    fn default() -> (r: Self)
        ensures
            r@ == ValidationConfigView::standard(),
    {
        ValidationConfig { command: "otto ci".to_string() }
    }
}

impl Clone for ValidationConfig {
    fn clone(&self) -> (r: Self)
        ensures
            r@ == self@,
    {
        ValidationConfig { command: self.command.clone() }
    }
}

/// The text of an optional string.
pub open spec fn text_of(o: Option<String>) -> Option<Seq<char>> {
    match o {
        Some(s) => Some(s@),
        None => None,
    }
}

/// A copy of an optional string.
pub fn copy_of(o: &Option<String>) -> (r: Option<String>)
    ensures
        text_of(r) == text_of(*o),
{
    match o {
        Some(s) => Some(s.clone()),
        None => None,
    }
}

/// A named check: an inline command or the path of a script, one of the two.
#[derive(Debug)]
pub struct QualityGate {
    pub name: String,
    pub command: Option<String>,
    pub script: Option<String>,
}

pub struct QualityGateView {
    pub name: Seq<char>,
    pub command: Option<Seq<char>>,
    pub script: Option<Seq<char>>,
}

impl View for QualityGate {
    type V = QualityGateView;

    open spec fn view(&self) -> QualityGateView {
        QualityGateView {
            name: self.name@,
            command: text_of(self.command),
            script: text_of(self.script),
        }
    }
}

/// Why a quality gate resolves to no command.
#[derive(Debug)]
pub enum GateError {
    /// A command and a script are both set.
    Both { name: String },
    /// Neither a command nor a script is set.
    Neither { name: String },
}

pub enum GateErrorView {
    Both { name: Seq<char> },
    Neither { name: Seq<char> },
}

impl View for GateError {
    type V = GateErrorView;

    open spec fn view(&self) -> GateErrorView {
        match self {
            GateError::Both { name } => GateErrorView::Both { name: name@ },
            GateError::Neither { name } => GateErrorView::Neither { name: name@ },
        }
    }
}

impl GateErrorView {
    pub open spec fn message(self) -> Seq<char> {
        match self {
            GateErrorView::Both { name } => "Gate '"@ + name + "' has both command and script"@,
            GateErrorView::Neither { name } => "Gate '"@ + name
                + "' has neither command nor script"@,
        }
    }
}

impl GateError {
    /// The error in words.
    pub fn message(&self) -> (r: String)
        ensures
            r@ == self@.message(),
    {
        match self {
            GateError::Both { name } => {
                let mut r = "Gate '".to_string();
                r.append(name.as_str());
                r.append("' has both command and script");
                r
            },
            GateError::Neither { name } => {
                let mut r = "Gate '".to_string();
                r.append(name.as_str());
                r.append("' has neither command nor script");
                r
            },
        }
    }
}

impl QualityGateView {
    /// The command that a quality gate stands for: its inline command unchanged, or
    /// `bash` applied to its script; an error where it has both or neither.
    pub open spec fn resolved(self) -> Result<Seq<char>, GateErrorView> {
        match (self.command, self.script) {
            (Some(c), None) => Ok(c),
            (None, Some(p)) => Ok("bash "@ + p),
            (Some(_), Some(_)) => Err(GateErrorView::Both { name: self.name }),
            (None, None) => Err(GateErrorView::Neither { name: self.name }),
        }
    }
}

/// The view of a command line or of the reason why there is none.
pub open spec fn resolution(r: Result<String, GateError>) -> Result<Seq<char>, GateErrorView> {
    match r {
        Ok(s) => Ok(s@),
        Err(e) => Err(e@),
    }
}

impl QualityGate {
    /// The command to execute for this gate.
    pub fn get_command(&self) -> (r: Result<String, GateError>)
        ensures
            resolution(r) == self@.resolved(),
    {
        match (&self.command, &self.script) {
            (Some(cmd), None) => Ok(cmd.clone()),
            (None, Some(script)) => {
                let mut r = "bash ".to_string();
                r.append(script.as_str());
                Ok(r)
            },
            (Some(_), Some(_)) => Err(GateError::Both { name: self.name.clone() }),
            (None, None) => Err(GateError::Neither { name: self.name.clone() }),
        }
    }
}

impl Clone for QualityGate {
    fn clone(&self) -> (r: Self)
        ensures
            r@ == self@,
    {
        QualityGate {
            name: self.name.clone(),
            command: copy_of(&self.command),
            script: copy_of(&self.script),
        }
    }
}

/// A copy of a list of gates.
pub fn copy_gates(gates: &Vec<QualityGate>) -> (r: Vec<QualityGate>)
    ensures
        views(r@) == views(gates@),
{
    let mut r: Vec<QualityGate> = Vec::new();
    let mut i: usize = 0;
    while i < gates.len()
        invariant
            i <= gates.len(),
            r@.len() == i,
            forall|j: int| 0 <= j < i ==> r@[j]@ == gates@[j]@,
        decreases gates.len() - i,
    {
        r.push(gates[i].clone());
        i += 1;
    }
    assert(views(r@) =~= views(gates@));
    r
}

/// Settings of the agent.
#[derive(Debug)]
pub struct LlmConfig {
    pub model: String,
    pub dangerously_skip_permissions: bool,
}

pub struct LlmConfigView {
    pub model: Seq<char>,
    pub dangerously_skip_permissions: bool,
}

impl View for LlmConfig {
    type V = LlmConfigView;

    open spec fn view(&self) -> LlmConfigView {
        LlmConfigView {
            model: self.model@,
            dangerously_skip_permissions: self.dangerously_skip_permissions,
        }
    }
}

impl LlmConfigView {
    pub open spec fn standard() -> LlmConfigView {
        LlmConfigView { model: "opus"@, dangerously_skip_permissions: true }
    }
}

impl Default for LlmConfig {
    fn default() -> (r: Self)
        ensures
            r@ == LlmConfigView::standard(),
    {
        LlmConfig { model: "opus".to_string(), dangerously_skip_permissions: true }
    }
}

impl Clone for LlmConfig {
    fn clone(&self) -> (r: Self)
        ensures
            r@ == self@,
    {
        LlmConfig {
            model: self.model.clone(),
            dangerously_skip_permissions: self.dangerously_skip_permissions,
        }
    }
}

/// Settings of version control.
#[derive(Debug)]
pub struct GitConfig {
    pub auto_commit: bool,
    pub commit_message_template: String,
}

pub struct GitConfigView {
    pub auto_commit: bool,
    pub commit_message_template: Seq<char>,
}

impl View for GitConfig {
    type V = GitConfigView;

    open spec fn view(&self) -> GitConfigView {
        GitConfigView {
            auto_commit: self.auto_commit,
            commit_message_template: self.commit_message_template@,
        }
    }
}

impl GitConfigView {
    pub open spec fn standard() -> GitConfigView {
        GitConfigView { auto_commit: true, commit_message_template: "rwl: iteration {iteration}"@ }
    }
}

impl Default for GitConfig {
    fn default() -> (r: Self)
        ensures
            r@ == GitConfigView::standard(),
    {
        GitConfig {
            auto_commit: true,
            commit_message_template: "rwl: iteration {iteration}".to_string(),
        }
    }
}

impl Clone for GitConfig {
    fn clone(&self) -> (r: Self)
        ensures
            r@ == self@,
    {
        GitConfig {
            auto_commit: self.auto_commit,
            commit_message_template: self.commit_message_template.clone(),
        }
    }
}

/// The whole configuration.
#[derive(Debug)]
pub struct Config {
    pub loop_config: LoopConfig,
    pub validation: ValidationConfig,
    pub quality_gates: Vec<QualityGate>,
    pub llm: LlmConfig,
    pub git: GitConfig,
}

pub struct ConfigView {
    pub loop_config: LoopConfigView,
    pub validation: ValidationConfigView,
    pub quality_gates: Seq<QualityGateView>,
    pub llm: LlmConfigView,
    pub git: GitConfigView,
}

impl View for Config {
    type V = ConfigView;

    open spec fn view(&self) -> ConfigView {
        ConfigView {
            loop_config: self.loop_config@,
            validation: self.validation@,
            quality_gates: views(self.quality_gates@),
            llm: self.llm@,
            git: self.git@,
        }
    }
}

impl ConfigView {
    pub open spec fn standard() -> ConfigView {
        ConfigView {
            loop_config: LoopConfigView::standard(),
            validation: ValidationConfigView::standard(),
            quality_gates: seq![
                QualityGateView {
                    name: "no_dead_code"@,
                    command: Some("! grep -rn 'allow(dead_code)' src/"@),
                    script: None,
                },
                QualityGateView {
                    name: "no_todos"@,
                    command: Some("! grep -rn 'TODO' src/"@),
                    script: None,
                },
            ],
            llm: LlmConfigView::standard(),
            git: GitConfigView::standard(),
        }
    }
}

impl Default for Config {
    fn default() -> (r: Self)
        ensures
            r@ == ConfigView::standard(),
    {
        let mut gates: Vec<QualityGate> = Vec::new();
        gates.push(
            QualityGate {
                name: "no_dead_code".to_string(),
                command: Some("! grep -rn 'allow(dead_code)' src/".to_string()),
                script: None,
            },
        );
        gates.push(
            QualityGate {
                name: "no_todos".to_string(),
                command: Some("! grep -rn 'TODO' src/".to_string()),
                script: None,
            },
        );
        assert(views(gates@) =~= ConfigView::standard().quality_gates);
        Config {
            loop_config: LoopConfig::default(),
            validation: ValidationConfig::default(),
            quality_gates: gates,
            llm: LlmConfig::default(),
            git: GitConfig::default(),
        }
    }
}

impl Clone for Config {
    fn clone(&self) -> (r: Self)
        ensures
            r@ == self@,
    {
        Config {
            loop_config: self.loop_config.clone(),
            validation: self.validation.clone(),
            quality_gates: copy_gates(&self.quality_gates),
            llm: self.llm.clone(),
            git: self.git.clone(),
        }
    }
}

/// `name` below the directory `base`, as paths are joined where `/`
/// separates their parts: a `name` that starts at the root stands alone.
pub open spec fn joined(base: Seq<char>, name: Seq<char>) -> Seq<char> {
    if name.len() > 0 && name[0] == '/' {
        name
    } else if base.len() == 0 || base.last() == '/' {
        base + name
    } else {
        base + seq!['/'] + name
    }
}

/// The path of `name` below the directory `base`.
pub fn join(base: &str, name: &str) -> (r: String)
    ensures
        r@ == joined(base@, name@),
{
    let b = crate::text::chars_of(base);
    let n = crate::text::chars_of(name);
    if n.len() > 0 && n[0] == '/' {
        return name.to_string();
    }
    let mut r = base.to_string();
    if b.len() > 0 && b[b.len() - 1] != '/' {
        r.push('/');
    }
    r.append(name);
    r
}

/// What became of the attempt to read one configuration file.
#[derive(Debug)]
pub enum ConfigFile {
    /// There is no such file.
    Missing,
    /// The file could not be read or does not hold a configuration.
    Invalid { reason: String },
    /// The configuration that the file holds.
    Parsed(Config),
}

pub enum ConfigFileView {
    Missing,
    Invalid { reason: Seq<char> },
    Parsed(ConfigView),
}

impl View for ConfigFile {
    type V = ConfigFileView;

    open spec fn view(&self) -> ConfigFileView {
        match self {
            ConfigFile::Missing => ConfigFileView::Missing,
            ConfigFile::Invalid { reason } => ConfigFileView::Invalid { reason: reason@ },
            ConfigFile::Parsed(c) => ConfigFileView::Parsed(c@),
        }
    }
}

/// Why no configuration was loaded.
#[derive(Debug)]
pub enum ConfigError {
    /// The file that was asked for does not exist.
    Missing,
    /// The file that was asked for could not be read or does not hold a configuration.
    Invalid { reason: String },
}

pub enum ConfigErrorView {
    Missing,
    Invalid { reason: Seq<char> },
}

impl View for ConfigError {
    type V = ConfigErrorView;

    open spec fn view(&self) -> ConfigErrorView {
        match self {
            ConfigError::Missing => ConfigErrorView::Missing,
            ConfigError::Invalid { reason } => ConfigErrorView::Invalid { reason: reason@ },
        }
    }
}

impl ConfigErrorView {
    pub open spec fn message(self) -> Seq<char> {
        match self {
            ConfigErrorView::Missing => "Failed to read config file"@,
            ConfigErrorView::Invalid { reason } => "Failed to load config: "@ + reason,
        }
    }
}

impl ConfigError {
    /// The error in words.
    pub fn message(&self) -> (r: String)
        ensures
            r@ == self@.message(),
    {
        match self {
            ConfigError::Missing => "Failed to read config file".to_string(),
            ConfigError::Invalid { reason } => {
                let mut r = "Failed to load config: ".to_string();
                r.append(reason.as_str());
                r
            },
        }
    }
}

/// The view of a loaded configuration or of the reason why there is none.
pub open spec fn loaded(r: Result<Config, ConfigError>) -> Result<ConfigView, ConfigErrorView> {
    match r {
        Ok(c) => Ok(c@),
        Err(e) => Err(e@),
    }
}

/// The view of a candidate that may not have been named.
pub open spec fn named(file: Option<ConfigFile>) -> Option<ConfigFileView> {
    match file {
        Some(f) => Some(f@),
        None => None,
    }
}

/// What a file that must be there gives.
pub open spec fn required(file: ConfigFileView) -> Result<ConfigView, ConfigErrorView> {
    match file {
        ConfigFileView::Missing => Err(ConfigErrorView::Missing),
        ConfigFileView::Invalid { reason } => Err(ConfigErrorView::Invalid { reason }),
        ConfigFileView::Parsed(c) => Ok(c),
    }
}

/// The configuration taken from the candidates: the explicit file alone where
/// one was named; else the local file, else the global one, each passed over
/// where it is missing or invalid; else the defaults.
pub open spec fn cascade(
    explicit: Option<ConfigFileView>,
    local: ConfigFileView,
    global: ConfigFileView,
) -> Result<ConfigView, ConfigErrorView> {
    match explicit {
        Some(file) => required(file),
        None => match local {
            ConfigFileView::Parsed(c) => Ok(c),
            _ => match global {
                ConfigFileView::Parsed(c) => Ok(c),
                _ => Ok(ConfigView::standard()),
            },
        },
    }
}

/// The configuration in a file that must be there.
pub fn require(file: ConfigFile) -> (r: Result<Config, ConfigError>)
    ensures
        loaded(r) == required(file@),
{
    match file {
        ConfigFile::Missing => Err(ConfigError::Missing),
        ConfigFile::Invalid { reason } => Err(ConfigError::Invalid { reason }),
        ConfigFile::Parsed(c) => Ok(c),
    }
}

impl Config {
    /// The directory of the global configuration, below the user's
    /// configuration directory `config_home`, where there is one.
    pub fn global_config_dir(config_home: Option<&str>) -> (r: Option<String>)
        ensures
            match config_home {
                Some(home) => r matches Some(d) && d@ == joined(home@, "rwl"@),
                None => r is None,
            },
    {
        match config_home {
            Some(home) => Some(join(home, "rwl")),
            None => None,
        }
    }

    /// The path of the global configuration file.
    pub fn global_config_path(config_home: Option<&str>) -> (r: Option<String>)
        ensures
            match config_home {
                Some(home) => r matches Some(p) && p@ == joined(
                    joined(home@, "rwl"@),
                    "rwl.yml"@,
                ),
                None => r is None,
            },
    {
        match Self::global_config_dir(config_home) {
            Some(dir) => Some(join(dir.as_str(), "rwl.yml")),
            None => None,
        }
    }

    /// The directory of the local configuration, below `work_dir`.
    pub fn local_config_dir(work_dir: &str) -> (r: String)
        ensures
            r@ == joined(work_dir@, ".rwl"@),
    {
        join(work_dir, ".rwl")
    }

    /// The path of the local configuration file, below `work_dir`.
    pub fn local_config_path(work_dir: &str) -> (r: String)
        ensures
            r@ == joined(joined(work_dir@, ".rwl"@), "rwl.yml"@),
    {
        let dir = Self::local_config_dir(work_dir);
        join(dir.as_str(), "rwl.yml")
    }

    /// Takes the configuration from the candidate files.
    pub fn load(explicit: Option<ConfigFile>, local: ConfigFile, global: ConfigFile) -> (r: Result<
        Config,
        ConfigError,
    >)
        ensures
            loaded(r) == cascade(named(explicit), local@, global@),
    {
        match explicit {
            Some(file) => require(file),
            None => match local {
                ConfigFile::Parsed(c) => Ok(c),
                _ => match global {
                    ConfigFile::Parsed(c) => Ok(c),
                    _ => Ok(Config::default()),
                },
            },
        }
    }

    /// The global configuration: the defaults where there is no global file.
    pub fn load_global(global: ConfigFile) -> (r: Result<Config, ConfigError>)
        ensures
            loaded(r) == (match global@ {
                ConfigFileView::Missing => Ok(ConfigView::standard()),
                _ => required(global@),
            }),
    {
        match global {
            ConfigFile::Missing => Ok(Config::default()),
            other => require(other),
        }
    }

    /// The local configuration, which must be there.
    pub fn load_local(local: ConfigFile) -> (r: Result<Config, ConfigError>)
        ensures
            loaded(r) == required(local@),
    {
        require(local)
    }
}

} // verus!
