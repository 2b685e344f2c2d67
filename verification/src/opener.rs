//! Handing things to the system: which command opens the documentation, the
//! configuration file or the configuration directory on each platform.
//!
//! The host starts the command with the thing to open as its last argument.

use crate::config::SaveFailure;
use crate::platform::Platform;
use crate::text::join2;
use vstd::prelude::*;

verus! {

/// The address of the documentation.
pub fn docs_url() -> (url: &'static str)
    ensures
        url@ == "https://docs.onyx.app"@,
{
    "https://docs.onyx.app"
}

/// What is handed to the system.
#[derive(Clone, Copy, Debug, PartialEq, Eq, Structural)]
pub enum OpenTarget {
    /// The documentation, in the browser.
    Documentation,
    /// The configuration file, in an editor.
    ConfigFile,
    /// The configuration directory, in the file manager.
    ConfigDirectory,
}

/// A command of the system that opens something.
#[derive(Clone, Debug)]
pub struct OpenCommand {
    /// The program to start.
    pub program: String,
    /// The arguments that stand before the thing to open.
    pub options: Vec<String>,
    /// Whether the host waits until the program has ended. Where it waits,
    /// it ignores how the program ended; where it does not, it reports a
    /// program that could not be started.
    pub wait: bool,
}

/// What an `OpenCommand` holds.
pub struct OpenCommandView {
    pub program: Seq<char>,
    pub options: Seq<Seq<char>>,
    pub wait: bool,
}

impl View for OpenCommand {
    type V = OpenCommandView;

    open spec fn view(&self) -> OpenCommandView {
        OpenCommandView {
            program: self.program@,
            options: self.options.deep_view(),
            wait: self.wait,
        }
    }
}

/// What an optional command holds.
pub open spec fn optional_command_view(command: Option<OpenCommand>) -> Option<OpenCommandView> {
    match command {
        Some(c) => Some(c@),
        None => None,
    }
}

/// The program that opens `target` on `platform`, if the platform has one.
pub open spec fn opener_program(target: OpenTarget, platform: Platform) -> Option<Seq<char>> {
    match platform {
        Platform::MacOs => Some("open"@),
        Platform::Linux => Some("xdg-open"@),
        Platform::Windows => Some(
            match target {
                OpenTarget::Documentation => "rundll32"@,
                OpenTarget::ConfigFile => "notepad"@,
                OpenTarget::ConfigDirectory => "explorer"@,
            },
        ),
        Platform::Other => None,
    }
}

/// The arguments that stand before the thing to open.
pub open spec fn opener_options(target: OpenTarget, platform: Platform) -> Seq<Seq<char>> {
    match (platform, target) {
        (Platform::MacOs, OpenTarget::ConfigFile) => seq!["-t"@],
        (Platform::Windows, OpenTarget::Documentation) => seq!["url.dll,FileProtocolHandler"@],
        _ => Seq::empty(),
    }
}

/// The command that opens `target` on `platform`. The host waits for the
/// browser that shows the documentation and for nothing else.
pub open spec fn open_command(target: OpenTarget, platform: Platform) -> Option<OpenCommandView> {
    match opener_program(target, platform) {
        Some(program) => Some(
            OpenCommandView {
                program,
                options: opener_options(target, platform),
                wait: target == OpenTarget::Documentation,
            },
        ),
        None => None,
    }
}

/// The command that opens `target` on `platform`, or `None` on a platform
/// that has no such command.
pub fn plan_open(target: OpenTarget, platform: Platform) -> (command: Option<OpenCommand>)
    ensures
        optional_command_view(command) == open_command(target, platform),
{
    let program = match platform {
        Platform::MacOs => "open",
        Platform::Linux => "xdg-open",
        Platform::Windows => match target {
            OpenTarget::Documentation => "rundll32",
            OpenTarget::ConfigFile => "notepad",
            OpenTarget::ConfigDirectory => "explorer",
        },
        Platform::Other => {
            return None;
        },
    };
    let mut options: Vec<String> = Vec::new();
    match (platform, target) {
        (Platform::MacOs, OpenTarget::ConfigFile) => {
            options.push("-t".to_owned());
        },
        (Platform::Windows, OpenTarget::Documentation) => {
            options.push("url.dll,FileProtocolHandler".to_owned());
        },
        _ => {},
    }
    assert(options.deep_view() =~= opener_options(target, platform));
    let wait = match target {
        OpenTarget::Documentation => true,
        _ => false,
    };
    Some(OpenCommand { program: program.to_owned(), options, wait })
}

/// The command that shows the documentation at `docs_url` in the browser.
pub fn open_docs(platform: Platform) -> (command: Option<OpenCommand>)
    ensures
        optional_command_view(command) == open_command(OpenTarget::Documentation, platform),
{
    plan_open(OpenTarget::Documentation, platform)
}

/// How the configuration file is opened.
#[derive(Clone, Debug)]
pub struct OpenConfigFilePlan {
    /// Whether the host first writes the default configuration to the file,
    /// as there is none to open.
    pub write_default: bool,
    /// The command that opens the file.
    pub command: Option<OpenCommand>,
}

/// How the configuration file is opened, given whether it exists: a missing
/// file is first written with the defaults, then the editor is started.
pub fn open_config_file(config_exists: bool, platform: Platform) -> (plan: OpenConfigFilePlan)
    ensures
        plan.write_default == !config_exists,
        optional_command_view(plan.command) == open_command(OpenTarget::ConfigFile, platform),
{
    OpenConfigFilePlan {
        write_default: !config_exists,
        command: plan_open(OpenTarget::ConfigFile, platform),
    }
}

/// The command that shows the configuration directory in the file manager.
/// The host creates the directory before it starts the command.
pub fn open_config_directory(platform: Platform) -> (command: Option<OpenCommand>)
    ensures
        optional_command_view(command) == open_command(OpenTarget::ConfigDirectory, platform),
{
    plan_open(OpenTarget::ConfigDirectory, platform)
}

/// Why something could not be opened.
#[derive(Clone, Debug)]
pub enum OpenError {
    /// The place of the configuration file could not be determined.
    NoConfigPath,
    /// The configuration directory could not be determined.
    NoConfigDir,
    /// The configuration directory could not be created; the text says why.
    CreateDir(String),
    /// The default configuration could not be written first.
    Save(SaveFailure),
    /// The editor could not be started; the text says why.
    OpenFile(String),
    /// The file manager could not be started; the text says why.
    OpenDirectory(String),
}

impl OpenError {
    /// The words of the error for the user.
    pub open spec fn message_text(self) -> Seq<char> {
        match self {
            OpenError::NoConfigPath => "Could not determine config path"@,
            OpenError::NoConfigDir => "Could not determine config directory"@,
            OpenError::CreateDir(reason) => "Failed to create config dir: "@ + reason@,
            OpenError::Save(failure) => failure.message_text(),
            OpenError::OpenFile(reason) => "Failed to open config: "@ + reason@,
            OpenError::OpenDirectory(reason) => "Failed to open directory: "@ + reason@,
        }
    }

    /// The words of the error for the user.
    pub fn message(&self) -> (message: String)
        ensures
            message@ == self.message_text(),
    {
        match self {
            OpenError::NoConfigPath => "Could not determine config path".to_owned(),
            OpenError::NoConfigDir => "Could not determine config directory".to_owned(),
            OpenError::CreateDir(reason) => join2("Failed to create config dir: ", reason.as_str()),
            OpenError::Save(failure) => failure.message(),
            OpenError::OpenFile(reason) => join2("Failed to open config: ", reason.as_str()),
            OpenError::OpenDirectory(reason) => join2(
                "Failed to open directory: ",
                reason.as_str(),
            ),
        }
    }
}

} // verus!
