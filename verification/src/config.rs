//! The application configuration and the choice of the configuration file.

use vstd::prelude::*;

verus! {

/// The settings read from `config.toml`.
#[derive(Clone, Debug)]
pub struct AppConfig {
    /// HTTP proxy for all downloads.
    pub proxy: String,
    /// Root directory of the IPC output files.
    pub output_dir: String,
    /// Trading pairs to download.
    pub symbols: Vec<String>,
    /// Kline intervals, such as `1h`.
    pub intervals: Vec<String>,
    /// Gotify server (empty: no Gotify push).
    pub gotify_url: String,
    /// Gotify application token (empty: no Gotify push).
    pub gotify_token: String,
    /// Ntfy topic URL (empty: no Ntfy push).
    pub ntfy_url: String,
    /// Ntfy access token (may be empty for public topics).
    pub ntfy_token: String,
    /// Directory of the daily rotated log files (empty: no log file).
    pub log_dir: String,
}

/// The two configuration files, in order of preference.
#[derive(Clone, Copy, Debug, PartialEq, Eq, Structural)]
pub enum ConfigFile {
    /// `config.toml`.
    Primary,
    /// `config.toml.example`, used when no `config.toml` is found.
    Example,
}

/// Where a configuration file is looked for, in order of preference.
#[derive(Clone, Copy, Debug, PartialEq, Eq, Structural)]
pub enum SearchDir {
    /// The directory of the running executable.
    ExeDir,
    /// The current working directory.
    CurrentDir,
}

/// The configuration file that was chosen.
#[derive(Clone, Copy, Debug, PartialEq, Eq, Structural)]
pub struct ConfigLocation {
    pub file: ConfigFile,
    pub dir: SearchDir,
}

/// No configuration file was found.
#[derive(Clone, Copy, Debug, PartialEq, Eq, Structural)]
pub enum ConfigError {
    NotFound,
}

/// The file name of a configuration file.
pub open spec fn config_file_name(f: ConfigFile) -> Seq<char> {
    match f {
        ConfigFile::Primary => "config.toml"@,
        ConfigFile::Example => "config.toml.example"@,
    }
}

/// The first directory, in order of preference, that holds the file.
pub open spec fn located(in_exe_dir: bool, in_current_dir: bool) -> Option<SearchDir> {
    if in_exe_dir {
        Some(SearchDir::ExeDir)
    } else if in_current_dir {
        Some(SearchDir::CurrentDir)
    } else {
        None
    }
}

/// `config.toml` from the first directory that holds it; failing that,
/// `config.toml.example` likewise; failing that, `NotFound`.
pub open spec fn chosen_config(
    primary_in_exe_dir: bool,
    primary_in_current_dir: bool,
    example_in_exe_dir: bool,
    example_in_current_dir: bool,
) -> Result<ConfigLocation, ConfigError> {
    match located(primary_in_exe_dir, primary_in_current_dir) {
        Some(dir) => Ok(ConfigLocation { file: ConfigFile::Primary, dir }),
        None => match located(example_in_exe_dir, example_in_current_dir) {
            Some(dir) => Ok(ConfigLocation { file: ConfigFile::Example, dir }),
            None => Err(ConfigError::NotFound),
        },
    }
}

/// A file is found next to the executable whenever it is there, otherwise
/// in the current directory whenever it is there, and reported missing only
/// when it is in neither. `config.toml` is chosen wherever it is found; the
/// example file only when `config.toml` is found nowhere; an error only when
/// neither is found.
pub proof fn lemma_config_search_order(p_exe: bool, p_cwd: bool, e_exe: bool, e_cwd: bool)
    ensures
        p_exe ==> located(p_exe, p_cwd) == Some(SearchDir::ExeDir),
        !p_exe && p_cwd ==> located(p_exe, p_cwd) == Some(SearchDir::CurrentDir),
        (p_exe || p_cwd) <==> located(p_exe, p_cwd) is Some,
        p_exe ==> chosen_config(p_exe, p_cwd, e_exe, e_cwd) == Ok::<ConfigLocation, ConfigError>(
            ConfigLocation { file: ConfigFile::Primary, dir: SearchDir::ExeDir },
        ),
        !p_exe && p_cwd ==> chosen_config(p_exe, p_cwd, e_exe, e_cwd) == Ok::<
            ConfigLocation,
            ConfigError,
        >(ConfigLocation { file: ConfigFile::Primary, dir: SearchDir::CurrentDir }),
        !p_exe && !p_cwd && e_exe ==> chosen_config(p_exe, p_cwd, e_exe, e_cwd) == Ok::<
            ConfigLocation,
            ConfigError,
        >(ConfigLocation { file: ConfigFile::Example, dir: SearchDir::ExeDir }),
        !p_exe && !p_cwd && !e_exe && e_cwd ==> chosen_config(p_exe, p_cwd, e_exe, e_cwd) == Ok::<
            ConfigLocation,
            ConfigError,
        >(ConfigLocation { file: ConfigFile::Example, dir: SearchDir::CurrentDir }),
        (chosen_config(p_exe, p_cwd, e_exe, e_cwd) is Err) <==> !(p_exe || p_cwd || e_exe || e_cwd),
{
}

impl ConfigFile {
    /// The file name.
    pub fn name(&self) -> (r: String)
        ensures
            r@ == config_file_name(*self),
    {
        match self {
            ConfigFile::Primary => String::from_str("config.toml"),
            ConfigFile::Example => String::from_str("config.toml.example"),
        }
    }
}

impl ConfigError {
    /// The message of the error.
    pub fn message(&self) -> (r: String)
        ensures
            r@ == "config.toml (or config.toml.example) not found next to executable or in current directory"@,
    {
        String::from_str(
            "config.toml (or config.toml.example) not found next to executable or in current directory",
        )
    }
}

impl AppConfig {
    /// Where a file is found: next to the executable first, then in the
    /// current directory. Each flag says whether the file exists there (false
    /// where that directory could not be determined).
    pub fn locate(in_exe_dir: bool, in_current_dir: bool) -> (r: Option<SearchDir>)
        ensures
            r == located(in_exe_dir, in_current_dir),
            in_exe_dir ==> r == Some(SearchDir::ExeDir),
            !in_exe_dir && in_current_dir ==> r == Some(SearchDir::CurrentDir),
            r is None <==> !in_exe_dir && !in_current_dir,
    {
        if in_exe_dir {
            Some(SearchDir::ExeDir)
        } else if in_current_dir {
            Some(SearchDir::CurrentDir)
        } else {
            None
        }
    }

    /// The configuration file to read: `config.toml` wherever it is found,
    /// else `config.toml.example` (a fallback the caller warns about), else
    /// an error.
    pub fn config_path(
        primary_in_exe_dir: bool,
        primary_in_current_dir: bool,
        example_in_exe_dir: bool,
        example_in_current_dir: bool,
    ) -> (r: Result<ConfigLocation, ConfigError>)
        ensures
            r == chosen_config(
                primary_in_exe_dir,
                primary_in_current_dir,
                example_in_exe_dir,
                example_in_current_dir,
            ),
    {
        if let Some(dir) = Self::locate(primary_in_exe_dir, primary_in_current_dir) {
            return Ok(ConfigLocation { file: ConfigFile::Primary, dir });
        }
        if let Some(dir) = Self::locate(example_in_exe_dir, example_in_current_dir) {
            return Ok(ConfigLocation { file: ConfigFile::Example, dir });
        }
        Err(ConfigError::NotFound)
    }
}

} // verus!
