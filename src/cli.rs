use vstd::prelude::*;

verus! {

/// The lowest severity of log message that is shown.
#[derive(Clone, Copy, Debug, PartialEq, Eq, Structural)]
pub enum LogLevel {
    Error,
    Warn,
    Info,
    Debug,
    Trace,
}

/// Where the two configuration files are.
pub struct ConfigFileArgs {
    pub config_file_path: String,
    pub apiconfig_file_path: String,
}

/// What the program is asked to do.
pub enum Commands {
    /// Write the schemas of the configuration files into `out_dir`.
    Schema { out_dir: String },
    /// Poll the sources and publish new stories, cycle after cycle.
    Run { config_info: ConfigFileArgs },
    /// Render an image for each line of a file of headlines.
    ImageTest { config_info: ConfigFileArgs },
    /// Ask for an access token and store it.
    TumblrAuthTest { config_info: ConfigFileArgs },
    /// Publish a test post.
    TumblrApiTest { config_info: ConfigFileArgs },
}

/// The command line: log levels, an optional log file and the command.
pub struct Cli {
    pub log_level: LogLevel,
    pub logfile_level: LogLevel,
    pub logfile: Option<String>,
    pub command: Commands,
}

} // verus!
