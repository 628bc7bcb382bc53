//! Where the settings file lives, and the settings of its persistence.
//!
//! An explicitly given path is used as it is. Otherwise the path is built
//! from the environment: on Windows `%APPDATA%/<windows dir>/<file>`; on
//! other systems `$XDG_CONFIG_HOME/<unix dir>/<file>`, or failing that
//! `$HOME/.config/<unix dir>/<file>`. The Windows directory keeps the
//! application's name as written, the Unix one is its ASCII lower-case form.

use vstd::prelude::*;
use vstd::string::*;
use std::path::PathBuf;
use crate::text::views;

verus! {

#[verifier::external_type_specification]
#[verifier::external_body]
pub struct ExPathBuf(PathBuf);

/// Calls `<PathBuf as Clone>::clone`. Claimed: the copy is the same path.
#[verifier::external_body]
fn clone_path(p: &PathBuf) -> (r: PathBuf)
    ensures
        r == *p,
{
    p.clone()
}

/// `s` with ASCII upper-case letters turned into lower case, all other
/// characters unchanged.
pub open spec fn ascii_lowercase(s: Seq<char>) -> Seq<char> {
    s.map_values(|c: char| if 'A' <= c <= 'Z' { ((c as u32) + 32) as char } else { c })
}

/// Calls `str::to_ascii_lowercase`. Claimed, as its documentation states:
/// 'A' to 'Z' become 'a' to 'z' and every other character is kept.
#[verifier::external_body]
fn to_ascii_lowercase(s: &str) -> (r: String)
    ensures
        r@ == ascii_lowercase(s@),
{
    s.to_ascii_lowercase()
}

/// Timing of settings persistence (stored under `settings.persistence`).
pub struct SettingsPersistenceSettings {
    /// Delay before a change is written out, in milliseconds.
    pub save_debounce_ms: u64,
    /// Interval at which the file is checked for outside changes, in milliseconds.
    pub watch_interval_ms: u64,
}

impl Default for SettingsPersistenceSettings {
    /// Writes debounced by 300 ms, the file checked every 500 ms.
    fn default() -> (r: Self)
        ensures
            r.save_debounce_ms == 300,
            r.watch_interval_ms == 500,
    {
        SettingsPersistenceSettings { save_debounce_ms: 300, watch_interval_ms: 500 }
    }
}

/// Names that make up the default settings path.
#[derive(Clone, Debug)]
pub struct SettingsPathOptions {
    pub windows_dir_name: String,
    pub unix_dir_name: String,
    pub file_name: String,
}

impl SettingsPathOptions {
    /// Options for the application `app_name`: its name as the Windows
    /// directory, its ASCII lower-case name as the Unix directory, and
    /// `settings.json` as the file.
    pub fn new(app_name: &str) -> (r: Self)
        ensures
            r.windows_dir_name@ == app_name@,
            r.unix_dir_name@ == ascii_lowercase(app_name@),
            r.file_name@ == "settings.json"@,
    {
        SettingsPathOptions {
            windows_dir_name: String::from_str(app_name),
            unix_dir_name: to_ascii_lowercase(app_name),
            file_name: String::from_str("settings.json"),
        }
    }
}

impl Default for SettingsPathOptions {
    /// The options of the `Uniproc` application.
    fn default() -> (r: Self)
        ensures
            r.windows_dir_name@ == "Uniproc"@,
            r.unix_dir_name@ == "uniproc"@,
            r.file_name@ == "settings.json"@,
    {
        SettingsPathOptions {
            windows_dir_name: String::from_str("Uniproc"),
            unix_dir_name: String::from_str("uniproc"),
            file_name: String::from_str("settings.json"),
        }
    }
}

/// The parts of the environment that the default settings path depends on.
pub struct SettingsEnv {
    /// The program runs on Windows.
    pub is_windows: bool,
    /// `APPDATA`, when set to valid Unicode.
    pub appdata: Option<String>,
    /// `XDG_CONFIG_HOME`, when set to valid Unicode.
    pub xdg_config_home: Option<String>,
    /// `HOME`, when set to valid Unicode.
    pub home: Option<String>,
}

/// The default settings path could not be resolved.
#[derive(Clone, Copy, Debug, PartialEq, Eq, Structural)]
pub enum SettingsPathError {
    /// None of the variables that locate the configuration directory is set.
    NoConfigDir,
}

/// The components of the default settings path in `env`, joined in order,
/// for the directory names `windows_dir` and `unix_dir` and the file name
/// `file`; `None` when the environment does not locate a configuration
/// directory.
pub open spec fn default_path_of(
    windows_dir: Seq<char>,
    unix_dir: Seq<char>,
    file: Seq<char>,
    env: SettingsEnv,
) -> Option<Seq<Seq<char>>> {
    if env.is_windows {
        match env.appdata {
            Some(base) => Some(seq![base@, windows_dir, file]),
            None => None,
        }
    } else {
        match env.xdg_config_home {
            Some(xdg) => Some(seq![xdg@, unix_dir, file]),
            None => match env.home {
                Some(home) => Some(seq![home@, ".config"@, unix_dir, file]),
                None => None,
            },
        }
    }
}

/// `default_path_of` for the names in `o`.
pub open spec fn default_path_for(o: SettingsPathOptions, env: SettingsEnv) -> Option<Seq<Seq<char>>> {
    default_path_of(o.windows_dir_name@, o.unix_dir_name@, o.file_name@, env)
}

/// Components of the default settings path for `options` in `env`.
pub fn default_settings_path_with(options: &SettingsPathOptions, env: &SettingsEnv) -> (r: Result<
    Vec<String>,
    SettingsPathError,
>)
    ensures
        r matches Ok(v) ==> default_path_for(*options, *env) == Some(views(v@)),
        r is Err ==> default_path_for(*options, *env) is None,
{
    let mut parts: Vec<String> = Vec::new();
    if env.is_windows {
        match &env.appdata {
            Some(base) => {
                parts.push(base.clone());
                parts.push(options.windows_dir_name.clone());
                parts.push(options.file_name.clone());
                assert(views(parts@) =~= seq![base@, options.windows_dir_name@, options.file_name@]);
                return Ok(parts);
            },
            None => {},
        }
    } else {
        match &env.xdg_config_home {
            Some(xdg) => {
                parts.push(xdg.clone());
                parts.push(options.unix_dir_name.clone());
                parts.push(options.file_name.clone());
                assert(views(parts@) =~= seq![xdg@, options.unix_dir_name@, options.file_name@]);
                return Ok(parts);
            },
            None => {},
        }
        match &env.home {
            Some(home) => {
                parts.push(home.clone());
                parts.push(String::from_str(".config"));
                parts.push(options.unix_dir_name.clone());
                parts.push(options.file_name.clone());
                assert(views(parts@) =~= seq![
                    home@,
                    ".config"@,
                    options.unix_dir_name@,
                    options.file_name@,
                ]);
                return Ok(parts);
            },
            None => {},
        }
    }
    Err(SettingsPathError::NoConfigDir)
}

/// Components of the default settings path of the `Uniproc` application in `env`.
pub fn default_settings_path(env: &SettingsEnv) -> (r: Result<Vec<String>, SettingsPathError>)
    ensures
        r matches Ok(v) ==> default_path_of("Uniproc"@, "uniproc"@, "settings.json"@, *env) == Some(
            views(v@),
        ),
        r is Err ==> default_path_of("Uniproc"@, "uniproc"@, "settings.json"@, *env) is None,
{
    let options = SettingsPathOptions::default();
    default_settings_path_with(&options, env)
}


/// Where the settings file is.
pub enum SettingsLocation {
    /// The path given to the feature.
    Given(PathBuf),
    /// The default path, as the components to join in order.
    Default(Vec<String>),
}

/// The feature that opens the settings store.
#[derive(Clone, Debug)]
pub struct SettingsFeature {
    path: Option<PathBuf>,
    path_options: SettingsPathOptions,
}

impl SettingsFeature {
    /// The path the feature was given, if any.
    pub closed spec fn given_path(&self) -> Option<PathBuf> {
        self.path
    }

    /// The names the default path is made of.
    pub closed spec fn path_options(&self) -> SettingsPathOptions {
        self.path_options
    }

    /// A feature that keeps its settings at `path`.
    pub fn with_path(path: PathBuf) -> (r: Self)
        ensures
            r.given_path() == Some(path),
            r.path_options().windows_dir_name@ == "Uniproc"@,
            r.path_options().unix_dir_name@ == "uniproc"@,
            r.path_options().file_name@ == "settings.json"@,
    {
        SettingsFeature { path: Some(path), path_options: SettingsPathOptions::default() }
    }

    /// A feature that keeps its settings at the default path of the
    /// application `app_name`.
    pub fn with_app_name(app_name: &str) -> (r: Self)
        ensures
            r.given_path() is None,
            r.path_options().windows_dir_name@ == app_name@,
            r.path_options().unix_dir_name@ == ascii_lowercase(app_name@),
            r.path_options().file_name@ == "settings.json"@,
    {
        SettingsFeature { path: None, path_options: SettingsPathOptions::new(app_name) }
    }

    /// A feature that keeps its settings at the default path made of `path_options`.
    pub fn with_path_options(path_options: SettingsPathOptions) -> (r: Self)
        ensures
            r.given_path() is None,
            r.path_options() == path_options,
    {
        SettingsFeature { path: None, path_options }
    }

    /// Where the settings file is in `env`: the given path when there is
    /// one, else the default path.
    pub fn path(&self, env: &SettingsEnv) -> (r: Result<SettingsLocation, SettingsPathError>)
        ensures
            self.given_path() matches Some(p) ==> r matches Ok(SettingsLocation::Given(q)) && q == p,
            self.given_path() is None ==> (match default_path_for(self.path_options(), *env) {
                Some(parts) => r matches Ok(SettingsLocation::Default(v)) && views(v@) == parts,
                None => r is Err,
            }),
    {
        match &self.path {
            Some(p) => Ok(SettingsLocation::Given(clone_path(p))),
            None => match default_settings_path_with(&self.path_options, env) {
                Ok(parts) => Ok(SettingsLocation::Default(parts)),
                Err(e) => Err(e),
            },
        }
    }
}

impl Default for SettingsFeature {
    /// A feature that keeps its settings at the default path of `Uniproc`.
    fn default() -> (r: Self)
        ensures
            r.given_path() is None,
            r.path_options().windows_dir_name@ == "Uniproc"@,
            r.path_options().unix_dir_name@ == "uniproc"@,
            r.path_options().file_name@ == "settings.json"@,
    {
        SettingsFeature { path: None, path_options: SettingsPathOptions::default() }
    }
}


/// Precedence of the locations: on Windows only `APPDATA` counts; elsewhere
/// `XDG_CONFIG_HOME` wins over `HOME`, and `APPDATA` is ignored; the path
/// always ends in the settings file, inside the application's directory.
pub proof fn law_default_path_precedence(windows_dir: Seq<char>, unix_dir: Seq<char>, file: Seq<char>, env: SettingsEnv)
    ensures
        env.is_windows ==> (default_path_of(windows_dir, unix_dir, file, env) is Some <==> env.appdata is Some),
        !env.is_windows && env.xdg_config_home is Some ==> default_path_of(windows_dir, unix_dir, file, env)
            == Some(seq![env.xdg_config_home->0@, unix_dir, file]),
        !env.is_windows ==> (default_path_of(windows_dir, unix_dir, file, env) is Some <==> (env.xdg_config_home is Some
            || env.home is Some)),
        default_path_of(windows_dir, unix_dir, file, env) matches Some(parts) ==> parts.last() == file
            && parts[parts.len() - 2] == (if env.is_windows { windows_dir } else { unix_dir }),
{
}

/// Lower-casing an application's name for its Unix directory is stable:
/// lower-casing it again changes nothing.
pub proof fn law_ascii_lowercase_idempotent(s: Seq<char>)
    ensures
        ascii_lowercase(ascii_lowercase(s)) == ascii_lowercase(s),
{
    assert(ascii_lowercase(ascii_lowercase(s)) =~= ascii_lowercase(s));
}

} // verus!
