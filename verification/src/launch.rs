//! Which of the two processes an invocation of the program is, and where the
//! configuration they share is kept.

use vstd::prelude::*;

verus! {

/// The flag that makes an invocation the overlay process.
pub const OVERLAY_FLAG: &'static str = "--overlay";

/// Name of the directory, below the base directory, that holds the
/// configuration.
pub const CONFIG_DIRECTORY: &'static str = "RedShift";

/// Name of the configuration file.
pub const CONFIG_FILE: &'static str = "config.json";

/// The two processes that share the executable.
#[derive(Clone, Copy, Debug, PartialEq, Eq, Structural)]
pub enum LaunchMode {
    /// Tints the screen.
    Overlay,
    /// Shows the settings panel and the tray icon.
    Controller,
}

/// The mode that the command line `args` asks for, `args[0]` being the
/// program's own name: the overlay where the first argument is the overlay
/// flag, the controller otherwise.
pub open spec fn mode_of(args: Seq<Seq<char>>) -> LaunchMode {
    if args.len() > 1 && args[1] == OVERLAY_FLAG@ {
        LaunchMode::Overlay
    } else {
        LaunchMode::Controller
    }
}

/// The views of the strings of `args`, in order.
pub open spec fn arguments(args: Seq<String>) -> Seq<Seq<char>> {
    args.map_values(|arg: String| arg@)
}

/// Decides from the command line which process this invocation is.
pub fn launch_mode(args: &Vec<String>) -> (mode: LaunchMode)
    ensures
        mode == mode_of(arguments(args@)),
{
    if args.len() > 1 {
        let flag = OVERLAY_FLAG.to_string();
        if args[1] == flag {
            return LaunchMode::Overlay;
        }
    }
    LaunchMode::Controller
}

/// Where the configuration file lies: a base directory, the directory below
/// it, and the file in that directory.
#[derive(Debug, PartialEq, Eq)]
pub struct ConfigLocation {
    pub base: String,
    pub directory: String,
    pub file: String,
}

/// The base directory of the configuration: the per-user application-data
/// directory where the system names one, the executable's directory where it
/// does not.
pub open spec fn base_of(app_data: Option<Seq<char>>, executable_dir: Seq<char>) -> Seq<char> {
    match app_data {
        Some(dir) => dir,
        None => executable_dir,
    }
}

/// Resolves the location of the configuration file. `app_data` is the
/// per-user application-data directory, or `None` where the system names
/// none; `executable_dir` is the directory of the running executable.
pub fn config_path(app_data: Option<String>, executable_dir: String) -> (location:
    ConfigLocation)
    ensures
        location.base@ == base_of(
            match app_data {
                Some(dir) => Some(dir@),
                None => None,
            },
            executable_dir@,
        ),
        location.directory@ == CONFIG_DIRECTORY@,
        location.file@ == CONFIG_FILE@,
{
    let base = match app_data {
        Some(dir) => dir,
        None => executable_dir,
    };
    ConfigLocation { base, directory: CONFIG_DIRECTORY.to_string(), file: CONFIG_FILE.to_string() }
}

} // verus!
