//! Where the application keeps its files: the home directory of the
//! application, chosen among an override of the environment, a portable
//! layout beside the executable, a development checkout and the user's home
//! directory, and the directories below it.

use crate::failure::{IoFailure, IoFailureKind, IoFailureView};
use crate::naming::text_of;
use crate::paths::{join, joined};
use crate::text::{eq_ignore_ascii_case, same_ignoring_ascii_case};
use vstd::prelude::*;
use vstd::string::*;

verus! {

/// The name of the application.
pub const APP_NAME: &'static str = "papyru2";

/// The environment variable that overrides the home of the application.
pub const APP_HOME_ENV: &'static str = "PAPYRU2_HOME";

/// The file whose presence beside `bin` marks a portable installation.
pub const PORTABLE_MARKER_FILE: &'static str = "papyru2.portable";

/// A run mode that the command line forces.
#[derive(Debug, Clone, Copy, PartialEq, Eq, Structural)]
pub enum CliRunModeOverride {
    Portable,
    Installed,
}

/// How the home of the application was found.
#[derive(Debug, Clone, Copy, PartialEq, Eq, Structural)]
pub enum RunEnvPattern {
    /// The environment names it.
    EnvOverride,
    /// The executable lies in the `bin` directory of a portable installation.
    Portable,
    /// The executable lies in the build directory of a checkout.
    DevCargoRun,
    /// It lies in the user's home directory.
    Installed,
}

/// The reason that goes with a pattern, as a text.
pub open spec fn reason_text(pattern: RunEnvPattern) -> Seq<char> {
    match pattern {
        RunEnvPattern::EnvOverride => "env_override"@,
        RunEnvPattern::Portable => "portable_marker_or_layout"@,
        RunEnvPattern::DevCargoRun => "cargo_target_layout"@,
        RunEnvPattern::Installed => "installed_home_fallback"@,
    }
}

impl RunEnvPattern {
    /// Why this pattern was chosen, in a word for the log.
    pub fn reason(self) -> (reason: &'static str)
        ensures
            reason@ == reason_text(self),
    {
        match self {
            RunEnvPattern::EnvOverride => "env_override",
            RunEnvPattern::Portable => "portable_marker_or_layout",
            RunEnvPattern::DevCargoRun => "cargo_target_layout",
            RunEnvPattern::Installed => "installed_home_fallback",
        }
    }
}

/// The directories of the application.
#[derive(Debug, Clone, PartialEq, Eq)]
pub struct AppPaths {
    pub mode: RunEnvPattern,
    pub app_home: String,
    pub conf_dir: String,
    pub data_dir: String,
    pub user_document_dir: String,
    pub log_dir: String,
    pub bin_dir: String,
}

/// [`AppPaths`] with its paths as sequences of characters.
pub struct AppPathsView {
    pub mode: RunEnvPattern,
    pub app_home: Seq<char>,
    pub conf_dir: Seq<char>,
    pub data_dir: Seq<char>,
    pub user_document_dir: Seq<char>,
    pub log_dir: Seq<char>,
    pub bin_dir: Seq<char>,
}

impl View for AppPaths {
    type V = AppPathsView;

    open spec fn view(&self) -> AppPathsView {
        AppPathsView {
            mode: self.mode,
            app_home: self.app_home@,
            conf_dir: self.conf_dir@,
            data_dir: self.data_dir@,
            user_document_dir: self.user_document_dir@,
            log_dir: self.log_dir@,
            bin_dir: self.bin_dir@,
        }
    }
}

/// The directories below a home: `conf`, `data`, `data/user_document`,
/// `log` and `bin`.
pub open spec fn paths_from_home(mode: RunEnvPattern, app_home: Seq<char>) -> AppPathsView {
    AppPathsView {
        mode,
        app_home,
        conf_dir: joined(app_home, "conf"@),
        data_dir: joined(app_home, "data"@),
        user_document_dir: joined(joined(app_home, "data"@), "user_document"@),
        log_dir: joined(app_home, "log"@),
        bin_dir: joined(app_home, "bin"@),
    }
}

/// What is known of the directory that holds the executable, and of what
/// lies around it.
#[derive(Debug, Clone, PartialEq, Eq)]
pub struct ExecutableDir {
    /// The name of the directory, if it has one.
    pub name: Option<String>,
    /// The directory above it, if there is one.
    pub parent: Option<String>,
    /// The name of the directory above it, if it has one.
    pub parent_name: Option<String>,
    /// The directory two levels above it, if there is one.
    pub grandparent: Option<String>,
    /// Whether the portable marker is a file in `parent`.
    pub parent_has_portable_marker: bool,
    /// Whether `conf`, `data` and `log` are directories in `parent`.
    pub parent_has_portable_layout: bool,
    /// Whether `Cargo.toml` is a file in `grandparent`.
    pub grandparent_has_cargo_toml: bool,
}

/// [`ExecutableDir`] with its texts as sequences of characters.
pub struct ExecutableDirView {
    pub name: Option<Seq<char>>,
    pub parent: Option<Seq<char>>,
    pub parent_name: Option<Seq<char>>,
    pub grandparent: Option<Seq<char>>,
    pub parent_has_portable_marker: bool,
    pub parent_has_portable_layout: bool,
    pub grandparent_has_cargo_toml: bool,
}

impl View for ExecutableDir {
    type V = ExecutableDirView;

    open spec fn view(&self) -> ExecutableDirView {
        ExecutableDirView {
            name: text_of(self.name),
            parent: text_of(self.parent),
            parent_name: text_of(self.parent_name),
            grandparent: text_of(self.grandparent),
            parent_has_portable_marker: self.parent_has_portable_marker,
            parent_has_portable_layout: self.parent_has_portable_layout,
            grandparent_has_cargo_toml: self.grandparent_has_cargo_toml,
        }
    }
}

/// An optional [`ExecutableDir`], as a view.
pub open spec fn exe_dir_of(exe_dir: Option<ExecutableDir>) -> Option<ExecutableDirView> {
    match exe_dir {
        None => None,
        Some(dir) => Some(dir@),
    }
}

/// The home of a portable installation, if the executable lies in one: its
/// directory is called `bin`, in any case of the letters, and the directory
/// above holds the marker file or the three directories `conf`, `data`
/// and `log`.
pub open spec fn portable_home(exe_dir: ExecutableDirView) -> Option<Seq<char>> {
    match exe_dir.name {
        None => None,
        Some(name) => if !same_ignoring_ascii_case(name, "bin"@) {
            None
        } else {
            match exe_dir.parent {
                None => None,
                Some(home) => if exe_dir.parent_has_portable_marker
                    || exe_dir.parent_has_portable_layout {
                    Some(home)
                } else {
                    None
                },
            }
        },
    }
}

/// The root of a development checkout, if the executable lies in one: its
/// directory is called `debug` or `release`, in any case of the letters,
/// the one above is called `target`, and the one above that holds a
/// `Cargo.toml`.
pub open spec fn dev_home(exe_dir: ExecutableDirView) -> Option<Seq<char>> {
    match exe_dir.name {
        None => None,
        Some(name) => if !same_ignoring_ascii_case(name, "debug"@) && !same_ignoring_ascii_case(
            name,
            "release"@,
        ) {
            None
        } else if exe_dir.parent is None {
            None
        } else {
            match exe_dir.parent_name {
                None => None,
                Some(parent_name) => if parent_name != "target"@ {
                    None
                } else {
                    match exe_dir.grandparent {
                        None => None,
                        Some(root) => if exe_dir.grandparent_has_cargo_toml {
                            Some(root)
                        } else {
                            None
                        },
                    }
                },
            }
        },
    }
}

/// The message for an executable without a directory.
pub open spec fn no_exe_dir_message() -> Seq<char> {
    "failed to resolve executable directory"@
}

/// The message for a forced portable mode without a directory above the
/// executable's.
pub open spec fn no_portable_home_message() -> Seq<char> {
    "failed to resolve portable APP_HOME from executable directory"@
}

/// The message for an installed mode without a home directory of the user.
pub open spec fn no_user_home_message() -> Seq<char> {
    "failed to resolve user home directory for installed fallback"@
}

/// The message for a command line that forces both modes.
pub open spec fn conflicting_overrides_message() -> Seq<char> {
    "conflicting CLI overrides: --portable and --installed"@
}

/// The home of an installed application: `.papyru2` in the user's home.
pub open spec fn installed_home(user_home: Option<Seq<char>>) -> Result<Seq<char>, IoFailureView> {
    match user_home {
        None => Err(
            IoFailureView { kind: IoFailureKind::NotFound, message: no_user_home_message() },
        ),
        Some(home) => Ok(joined(home, ".papyru2"@)),
    }
}

/// The home that a forced portable mode takes: the directory above the
/// executable's.
pub open spec fn forced_portable_home(exe_dir: ExecutableDirView) -> Result<
    Seq<char>,
    IoFailureView,
> {
    match exe_dir.parent {
        None => Err(
            IoFailureView {
                kind: IoFailureKind::InvalidInput,
                message: no_portable_home_message(),
            },
        ),
        Some(home) => Ok(home),
    }
}

/// The mode and the home of the application, by priority:
/// 1. what the command line forces;
/// 2. the home that the environment names;
/// 3. a portable installation around the executable;
/// 4. a development checkout around the executable;
/// 5. the user's home directory.
///
/// An executable without a directory is an invalid input, whatever else
/// is known.
pub open spec fn resolved_home(
    env_home: Option<Seq<char>>,
    exe_dir: Option<ExecutableDirView>,
    user_home: Option<Seq<char>>,
    override_mode: Option<CliRunModeOverride>,
) -> Result<(RunEnvPattern, Seq<char>), IoFailureView> {
    match exe_dir {
        None => Err(
            IoFailureView { kind: IoFailureKind::InvalidInput, message: no_exe_dir_message() },
        ),
        Some(dir) => match override_mode {
            Some(CliRunModeOverride::Portable) => match forced_portable_home(dir) {
                Ok(home) => Ok((RunEnvPattern::Portable, home)),
                Err(failure) => Err(failure),
            },
            Some(CliRunModeOverride::Installed) => match installed_home(user_home) {
                Ok(home) => Ok((RunEnvPattern::Installed, home)),
                Err(failure) => Err(failure),
            },
            None => match env_home {
                Some(home) => Ok((RunEnvPattern::EnvOverride, home)),
                None => match portable_home(dir) {
                    Some(home) => Ok((RunEnvPattern::Portable, home)),
                    None => match dev_home(dir) {
                        Some(home) => Ok((RunEnvPattern::DevCargoRun, home)),
                        None => match installed_home(user_home) {
                            Ok(home) => Ok((RunEnvPattern::Installed, home)),
                            Err(failure) => Err(failure),
                        },
                    },
                },
            },
        },
    }
}

/// The directories of the application for the given inputs: those below
/// the home that [`resolved_home`] finds.
pub open spec fn resolved_paths(
    env_home: Option<Seq<char>>,
    exe_dir: Option<ExecutableDirView>,
    user_home: Option<Seq<char>>,
    override_mode: Option<CliRunModeOverride>,
) -> Result<AppPathsView, IoFailureView> {
    match resolved_home(env_home, exe_dir, user_home, override_mode) {
        Ok((mode, home)) => Ok(paths_from_home(mode, home)),
        Err(failure) => Err(failure),
    }
}

/// Directories or a failure, as a view.
pub open spec fn paths_result_view(result: Result<AppPaths, IoFailure>) -> Result<
    AppPathsView,
    IoFailureView,
> {
    match result {
        Ok(paths) => Ok(paths@),
        Err(failure) => Err(failure@),
    }
}

/// A path or a failure, as a view.
pub open spec fn home_result_view(result: Result<String, IoFailure>) -> Result<
    Seq<char>,
    IoFailureView,
> {
    match result {
        Ok(home) => Ok(home@),
        Err(failure) => Err(failure@),
    }
}

fn copy_text(text: &Option<String>) -> (copy: Option<String>)
    ensures
        text_of(copy) == text_of(*text),
{
    match text {
        Some(t) => Some(t.clone()),
        None => None,
    }
}

/// The home of a portable installation around the executable, if there is
/// one: see [`portable_home`].
pub fn detect_portable_app_home(exe_dir: &ExecutableDir) -> (home: Option<String>)
    ensures
        text_of(home) == portable_home(exe_dir@),
{
    match &exe_dir.name {
        None => None,
        Some(name) => {
            if !eq_ignore_ascii_case(name.as_str(), "bin") {
                return None;
            }
            match &exe_dir.parent {
                None => None,
                Some(home) => {
                    if exe_dir.parent_has_portable_marker || exe_dir.parent_has_portable_layout {
                        Some(home.clone())
                    } else {
                        None
                    }
                },
            }
        },
    }
}

/// The root of a development checkout around the executable, if there is
/// one: see [`dev_home`].
pub fn detect_dev_app_home(exe_dir: &ExecutableDir) -> (home: Option<String>)
    ensures
        text_of(home) == dev_home(exe_dir@),
{
    match &exe_dir.name {
        None => None,
        Some(name) => {
            if !eq_ignore_ascii_case(name.as_str(), "debug") && !eq_ignore_ascii_case(
                name.as_str(),
                "release",
            ) {
                return None;
            }
            if exe_dir.parent.is_none() {
                return None;
            }
            match &exe_dir.parent_name {
                None => None,
                Some(parent_name) => {
                    let target = "target".to_owned();
                    if !(*parent_name == target) {
                        return None;
                    }
                    match &exe_dir.grandparent {
                        None => None,
                        Some(root) => {
                            if exe_dir.grandparent_has_cargo_toml {
                                Some(root.clone())
                            } else {
                                None
                            }
                        },
                    }
                },
            }
        },
    }
}

/// The home that a forced portable mode takes: see [`forced_portable_home`].
pub fn forced_portable_app_home(exe_dir: &ExecutableDir) -> (home: Result<String, IoFailure>)
    ensures
        home_result_view(home) == forced_portable_home(exe_dir@),
{
    match &exe_dir.parent {
        None => Err(
            IoFailure::new(
                IoFailureKind::InvalidInput,
                "failed to resolve portable APP_HOME from executable directory",
            ),
        ),
        Some(home) => Ok(home.clone()),
    }
}

/// The home of an installed application: see [`installed_home`].
pub fn installed_app_home(user_home: Option<String>) -> (home: Result<String, IoFailure>)
    ensures
        home_result_view(home) == installed_home(text_of(user_home)),
{
    match user_home {
        None => Err(
            IoFailure::new(
                IoFailureKind::NotFound,
                "failed to resolve user home directory for installed fallback",
            ),
        ),
        Some(home) => Ok(join(home.as_str(), ".papyru2")),
    }
}

impl AppPaths {
    /// The directories below `app_home`: see [`paths_from_home`].
    pub fn from_home(mode: RunEnvPattern, app_home: String) -> (paths: AppPaths)
        ensures
            paths@ == paths_from_home(mode, app_home@),
    {
        let data_dir = join(app_home.as_str(), "data");
        AppPaths {
            conf_dir: join(app_home.as_str(), "conf"),
            user_document_dir: join(data_dir.as_str(), "user_document"),
            data_dir,
            log_dir: join(app_home.as_str(), "log"),
            bin_dir: join(app_home.as_str(), "bin"),
            app_home,
            mode,
        }
    }

    /// The directories of the application when the command line forces
    /// nothing: see [`resolved_paths`].
    pub fn resolve(
        env_home: Option<String>,
        exe_dir: Option<ExecutableDir>,
        user_home: Option<String>,
    ) -> (paths: Result<AppPaths, IoFailure>)
        ensures
            paths_result_view(paths) == resolved_paths(
                text_of(env_home),
                exe_dir_of(exe_dir),
                text_of(user_home),
                None,
            ),
    {
        AppPaths::resolve_from_inputs(env_home, exe_dir, user_home, None)
    }

    /// The directories of the application: see [`resolved_paths`]. The
    /// caller creates them: see [`AppPaths::directories`].
    pub fn resolve_from_inputs(
        env_home: Option<String>,
        exe_dir: Option<ExecutableDir>,
        user_home: Option<String>,
        override_mode: Option<CliRunModeOverride>,
    ) -> (paths: Result<AppPaths, IoFailure>)
        ensures
            paths_result_view(paths) == resolved_paths(
                text_of(env_home),
                exe_dir_of(exe_dir),
                text_of(user_home),
                override_mode,
            ),
    {
        let dir = match exe_dir {
            None => {
                return Err(
                    IoFailure::new(
                        IoFailureKind::InvalidInput,
                        "failed to resolve executable directory",
                    ),
                );
            },
            Some(dir) => dir,
        };
        match override_mode {
            Some(CliRunModeOverride::Portable) => {
                return match forced_portable_app_home(&dir) {
                    Ok(home) => Ok(AppPaths::from_home(RunEnvPattern::Portable, home)),
                    Err(failure) => Err(failure),
                };
            },
            Some(CliRunModeOverride::Installed) => {
                return match installed_app_home(user_home) {
                    Ok(home) => Ok(AppPaths::from_home(RunEnvPattern::Installed, home)),
                    Err(failure) => Err(failure),
                };
            },
            None => {},
        }
        if let Some(home) = env_home {
            return Ok(AppPaths::from_home(RunEnvPattern::EnvOverride, home));
        }
        if let Some(home) = detect_portable_app_home(&dir) {
            return Ok(AppPaths::from_home(RunEnvPattern::Portable, home));
        }
        if let Some(home) = detect_dev_app_home(&dir) {
            return Ok(AppPaths::from_home(RunEnvPattern::DevCargoRun, home));
        }
        match installed_app_home(user_home) {
            Ok(home) => Ok(AppPaths::from_home(RunEnvPattern::Installed, home)),
            Err(failure) => Err(failure),
        }
    }

    /// The directories to create, in this order: home, `conf`, `data`,
    /// `data/user_document`, `log`, `bin`.
    pub fn directories(&self) -> (dirs: Vec<String>)
        ensures
            dirs@.len() == 6,
            dirs@[0]@ == self.app_home@,
            dirs@[1]@ == self.conf_dir@,
            dirs@[2]@ == self.data_dir@,
            dirs@[3]@ == self.user_document_dir@,
            dirs@[4]@ == self.log_dir@,
            dirs@[5]@ == self.bin_dir@,
    {
        let mut dirs: Vec<String> = Vec::new();
        dirs.push(self.app_home.clone());
        dirs.push(self.conf_dir.clone());
        dirs.push(self.data_dir.clone());
        dirs.push(self.user_document_dir.clone());
        dirs.push(self.log_dir.clone());
        dirs.push(self.bin_dir.clone());
        dirs
    }

    /// The path of a configuration file: `file_name` in the `conf` directory.
    pub fn config_file_path(&self, file_name: &str) -> (path: String)
        ensures
            path@ == joined(self.conf_dir@, file_name@),
    {
        join(self.conf_dir.as_str(), file_name)
    }

    /// The path of a log file: `file_name` in the `log` directory.
    pub fn log_file_path(&self, file_name: &str) -> (path: String)
        ensures
            path@ == joined(self.log_dir@, file_name@),
    {
        join(self.log_dir.as_str(), file_name)
    }
}

/// Whether `flag` stands among the arguments after the first, which is the
/// name of the program.
pub open spec fn has_flag(args: Seq<String>, flag: Seq<char>) -> bool {
    exists|i: int| 1 <= i < args.len() && (#[trigger] args[i])@ == flag
}

/// The run mode that the arguments force: `--portable` or `--installed`
/// anywhere after the program's name, none if neither is there, and a
/// failure if both are.
pub open spec fn parsed_override(args: Seq<String>) -> Result<
    Option<CliRunModeOverride>,
    IoFailureView,
> {
    if has_flag(args, "--portable"@) && has_flag(args, "--installed"@) {
        Err(
            IoFailureView {
                kind: IoFailureKind::InvalidInput,
                message: conflicting_overrides_message(),
            },
        )
    } else if has_flag(args, "--portable"@) {
        Ok(Some(CliRunModeOverride::Portable))
    } else if has_flag(args, "--installed"@) {
        Ok(Some(CliRunModeOverride::Installed))
    } else {
        Ok(None)
    }
}

/// An override or a failure, as a view.
pub open spec fn override_result_view(result: Result<Option<CliRunModeOverride>, IoFailure>) -> Result<
    Option<CliRunModeOverride>,
    IoFailureView,
> {
    match result {
        Ok(mode) => Ok(mode),
        Err(failure) => Err(failure@),
    }
}

/// Reads the run mode that the command line forces: see [`parsed_override`].
pub fn parse_cli_mode_override(args: &Vec<String>) -> (parsed: Result<
    Option<CliRunModeOverride>,
    IoFailure,
>)
    ensures
        override_result_view(parsed) == parsed_override(args@),
{
    let portable_flag = "--portable".to_owned();
    let installed_flag = "--installed".to_owned();
    let mut force_portable = false;
    let mut force_installed = false;
    let mut index: usize = 1;
    while index < args.len()
        invariant
            1 <= index,
            portable_flag@ == "--portable"@,
            installed_flag@ == "--installed"@,
            force_portable <==> exists|i: int|
                1 <= i < index && i < args.len() && (#[trigger] args@[i])@ == "--portable"@,
            force_installed <==> exists|i: int|
                1 <= i < index && i < args.len() && (#[trigger] args@[i])@ == "--installed"@,
        decreases args.len() - index,
    {
        if args[index] == portable_flag {
            force_portable = true;
        }
        if args[index] == installed_flag {
            force_installed = true;
        }
        index = index + 1;
    }
    if force_portable && force_installed {
        return Err(
            IoFailure::new(
                IoFailureKind::InvalidInput,
                "conflicting CLI overrides: --portable and --installed",
            ),
        );
    }
    if force_portable {
        return Ok(Some(CliRunModeOverride::Portable));
    }
    if force_installed {
        return Ok(Some(CliRunModeOverride::Installed));
    }
    Ok(None)
}

/// The command line outranks the environment, and the environment outranks
/// what lies around the executable: with an executable that has a
/// directory, a forced mode decides alone, and without one a home that the
/// environment names is taken whatever the layout looks like.
pub proof fn lemma_resolution_priority(
    env_home: Seq<char>,
    exe_dir: ExecutableDirView,
    user_home: Option<Seq<char>>,
    other_env: Option<Seq<char>>,
)
    ensures
        resolved_home(Some(env_home), Some(exe_dir), user_home, None) == Ok::<
            (RunEnvPattern, Seq<char>),
            IoFailureView,
        >((RunEnvPattern::EnvOverride, env_home)),
        resolved_home(other_env, Some(exe_dir), user_home, Some(CliRunModeOverride::Portable))
            == resolved_home(None, Some(exe_dir), user_home, Some(CliRunModeOverride::Portable)),
        resolved_home(other_env, Some(exe_dir), user_home, Some(CliRunModeOverride::Installed))
            == resolved_home(None, Some(exe_dir), user_home, Some(CliRunModeOverride::Installed)),
{
}

} // verus!
