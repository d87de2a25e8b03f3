//! The settings of the service, where they are read from, and how command-line options
//! override them.
use vstd::prelude::*;

use crate::Opt;

verus! {

broadcast use vstd::string::group_string_axioms;

/// All settings of the service.
#[derive(Debug)]
pub struct Settings {
    pub database: DatabaseSettings,
    pub application: ApplicationSettings,
}

/// How to reach the database.
#[derive(Debug)]
pub struct DatabaseSettings {
    pub username: String,
    pub password: String,
    pub port: u16,
    pub host: String,
    pub database_name: String,
}

/// How the service itself runs.
#[derive(Debug)]
pub struct ApplicationSettings {
    pub log_level: String,
    pub addr: String,
    pub port: u16,
    pub static_dir: String,
}

/// A place that settings are read from; later places override earlier ones.
#[derive(Debug)]
pub enum ConfigSource {
    /// A configuration file, named without its extension; a required file must exist.
    File { name: String, required: bool },
    /// The environment variables whose names start with the prefix.
    Environment { prefix: String },
}

/// A place that settings are read from, as plain values.
pub enum SourceView {
    File(Seq<char>, bool),
    Environment(Seq<char>),
}

impl View for ConfigSource {
    type V = SourceView;

    open spec fn view(&self) -> SourceView {
        match self {
            ConfigSource::File { name, required } => SourceView::File(name@, *required),
            ConfigSource::Environment { prefix } => SourceView::Environment(prefix@),
        }
    }
}

/// Where the settings for a run mode are read from, lowest priority first: the default
/// file (which must exist), the file of the run mode, the local file, and the environment
/// variables that start with "app".
pub open spec fn config_plan(run_mode: Seq<char>) -> Seq<SourceView> {
    seq![
        SourceView::File("config/default"@, true),
        SourceView::File("config/"@ + run_mode, false),
        SourceView::File("config/local"@, false),
        SourceView::Environment("app"@),
    ]
}

/// The run mode that is used where none is given.
pub open spec fn default_run_mode() -> Seq<char> {
    "development"@
}

/// The settings once the options that are given override them.
pub open spec fn with_options(settings: Settings, opt: Opt) -> Settings {
    Settings {
        database: settings.database,
        application: ApplicationSettings {
            log_level: match opt.log_level {
                Some(level) => level,
                None => settings.application.log_level,
            },
            addr: match opt.addr {
                Some(addr) => addr,
                None => settings.application.addr,
            },
            port: match opt.port {
                Some(port) => port,
                None => settings.application.port,
            },
            static_dir: match opt.static_dir {
                Some(dir) => dir,
                None => settings.application.static_dir,
            },
        },
    }
}

impl Settings {
    /// Where the settings are read from: `run_mode` is the value of the `RUN_MODE`
    /// variable, where it is set, and "development" is used otherwise.
    pub fn new(run_mode: Option<String>) -> (plan: Vec<ConfigSource>)
        ensures
            plan@.map_values(|s: ConfigSource| s@) == config_plan(
                match run_mode {
                    Some(mode) => mode@,
                    None => default_run_mode(),
                },
            ),
    {
        let mode = match run_mode {
            Some(mode) => mode,
            None => "development".to_string(),
        };
        Self::load(mode)
    }

    /// Where the settings of the run mode `run_mode` are read from.
    pub fn load(run_mode: String) -> (plan: Vec<ConfigSource>)
        ensures
            plan@.map_values(|s: ConfigSource| s@) == config_plan(run_mode@),
    {
        let mut run_mode_file = "config/".to_string();
        run_mode_file.append(run_mode.as_str());
        let mut plan: Vec<ConfigSource> = Vec::new();
        plan.push(ConfigSource::File { name: "config/default".to_string(), required: true });
        plan.push(ConfigSource::File { name: run_mode_file, required: false });
        plan.push(ConfigSource::File { name: "config/local".to_string(), required: false });
        plan.push(ConfigSource::Environment { prefix: "app".to_string() });
        assert(plan@.map_values(|s: ConfigSource| s@) =~= config_plan(run_mode@));
        plan
    }

    /// Where the settings of the test run mode are read from.
    pub fn test() -> (plan: Vec<ConfigSource>)
        ensures
            plan@.map_values(|s: ConfigSource| s@) == config_plan("test"@),
    {
        Self::load("test".to_string())
    }

    /// Overrides the settings with each command-line option that is given.
    pub fn apply_options(&mut self, opt: Opt)
        ensures
            *final(self) == with_options(*old(self), opt),
    {
        if let Some(log_level) = opt.log_level {
            self.application.log_level = log_level;
        }
        if let Some(addr) = opt.addr {
            self.application.addr = addr;
        }
        if let Some(port) = opt.port {
            self.application.port = port;
        }
        if let Some(static_dir) = opt.static_dir {
            self.application.static_dir = static_dir;
        }
    }
}

/// Each option that is given overrides its own setting, whatever the other options
/// are; each option that is not given leaves its setting as it was; and the database
/// settings never change.
pub proof fn law_each_option_overrides_its_setting(settings: Settings, opt: Opt)
    ensures
        with_options(settings, opt).database == settings.database,
        opt.log_level matches Some(level) ==> with_options(settings, opt).application.log_level
            == level,
        opt.log_level is None ==> with_options(settings, opt).application.log_level
            == settings.application.log_level,
        opt.addr matches Some(addr) ==> with_options(settings, opt).application.addr == addr,
        opt.addr is None ==> with_options(settings, opt).application.addr
            == settings.application.addr,
        opt.port matches Some(port) ==> with_options(settings, opt).application.port == port,
        opt.port is None ==> with_options(settings, opt).application.port
            == settings.application.port,
        opt.static_dir matches Some(dir) ==> with_options(settings, opt).application.static_dir
            == dir,
        opt.static_dir is None ==> with_options(settings, opt).application.static_dir
            == settings.application.static_dir,
{
}

/// Options that are not given change no setting.
pub proof fn law_no_options_change_nothing(settings: Settings)
    ensures
        with_options(
            settings,
            Opt { log_level: None, addr: None, port: None, static_dir: None },
        ) == settings,
{
}

/// Overriding settings with the same options twice is overriding them once.
pub proof fn law_options_apply_once(settings: Settings, opt: Opt)
    ensures
        with_options(with_options(settings, opt), opt) == with_options(settings, opt),
{
}

/// The run mode selects one file of the four places and changes no other.
pub proof fn law_run_mode_names_one_file(run_mode: Seq<char>, other: Seq<char>)
    ensures
        forall|i: int|
            0 <= i < 4 && i != 1 ==> #[trigger] config_plan(run_mode)[i] == config_plan(other)[i],
        config_plan(run_mode).len() == config_plan(other).len(),
{
}

} // verus!
