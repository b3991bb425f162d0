//! How an operation reaches its control surface: as the command line of a
//! control utility, or as an edit that the registry accessor makes under
//! the machine-wide root. Also how the end of a child process is reduced to
//! success or failure.

use vstd::prelude::*;
use vstd::string::*;
use crate::config::Config;
use crate::model::{PolicyValue, PolicyValueView, StartMode};
use crate::plan::{Operation, OperationView, Scope, Utility};

verus! {

/// The flag that keeps a child process from opening a console window.
pub const CREATE_NO_WINDOW: u32 = 0x0800_0000;

/// How a child process ended.
#[derive(Clone, Copy, Debug, PartialEq, Eq, Structural)]
pub enum Completion {
    /// The process could not be started.
    NotStarted,
    /// The process ran and exited with a status.
    Exited(i32),
    /// The process ran and ended without an exit status.
    Interrupted,
}

/// Reduces the end of a child process to a flag: true if and only if the
/// process exited with status zero.
pub fn succeeded(completion: Completion) -> (success: bool)
    ensures
        success == (completion == Completion::Exited(0)),
{
    match completion {
        Completion::Exited(status) => status == 0,
        Completion::NotStarted => false,
        Completion::Interrupted => false,
    }
}

/// A control utility and the arguments it is run with.
#[derive(Clone, Debug, PartialEq, Eq)]
pub struct CommandLine {
    pub program: String,
    pub arguments: Vec<String>,
}

pub struct CommandLineView {
    pub program: Seq<char>,
    pub arguments: Seq<Seq<char>>,
}

impl View for CommandLine {
    type V = CommandLineView;

    open spec fn view(&self) -> CommandLineView {
        CommandLineView {
            program: self.program@,
            arguments: self.arguments@.map_values(|argument: String| argument@),
        }
    }
}

/// The word by which the service-control utility knows a start mode.
pub open spec fn mode_keyword(mode: StartMode) -> Seq<char> {
    match mode {
        StartMode::Auto => "auto"@,
        StartMode::Demand => "demand"@,
        StartMode::Disabled => "disabled"@,
    }
}

/// The command line of an operation that a control utility carries out;
/// `None` for an operation of the registry accessor.
pub open spec fn command_of(operation: OperationView) -> Option<CommandLineView> {
    match operation {
        OperationView::StopService { service, utility } => Some(
            match utility {
                Utility::ServiceControl => CommandLineView {
                    program: "sc"@,
                    arguments: seq!["stop"@, service],
                },
                Utility::LegacyService => CommandLineView {
                    program: "net"@,
                    arguments: seq!["stop"@, service, "/y"@],
                },
            },
        ),
        OperationView::ConfigureStartMode { service, mode } => Some(
            CommandLineView {
                program: "sc"@,
                arguments: seq!["config"@, service, "start="@, mode_keyword(mode)],
            },
        ),
        OperationView::SetTaskEnabled { task, enabled } => Some(
            CommandLineView {
                program: "schtasks"@,
                arguments: seq![
                    "/Change"@,
                    "/TN"@,
                    task,
                    if enabled {
                        "/Enable"@
                    } else {
                        "/Disable"@
                    },
                ],
            },
        ),
        OperationView::RefreshPolicy { scope } => Some(
            CommandLineView {
                program: "gpupdate"@,
                arguments: seq![
                    match scope {
                        Scope::Machine => "/target:computer"@,
                        Scope::User => "/target:user"@,
                    },
                    "/force"@,
                ],
            },
        ),
        _ => None,
    }
}

fn line2(program: &str, first: String, second: String) -> (line: CommandLine)
    ensures
        line@ == (CommandLineView { program: program@, arguments: seq![first@, second@] }),
{
    let mut arguments: Vec<String> = Vec::new();
    arguments.push(first);
    arguments.push(second);
    let line = CommandLine { program: String::from_str(program), arguments };
    assert(line@.arguments =~= seq![first@, second@]);
    line
}

fn line3(program: &str, first: String, second: String, third: String) -> (line: CommandLine)
    ensures
        line@ == (CommandLineView { program: program@, arguments: seq![first@, second@, third@] }),
{
    let mut arguments: Vec<String> = Vec::new();
    arguments.push(first);
    arguments.push(second);
    arguments.push(third);
    let line = CommandLine { program: String::from_str(program), arguments };
    assert(line@.arguments =~= seq![first@, second@, third@]);
    line
}

fn line4(program: &str, first: String, second: String, third: String, fourth: String) -> (line:
    CommandLine)
    ensures
        line@ == (CommandLineView {
            program: program@,
            arguments: seq![first@, second@, third@, fourth@],
        }),
{
    let mut arguments: Vec<String> = Vec::new();
    arguments.push(first);
    arguments.push(second);
    arguments.push(third);
    arguments.push(fourth);
    let line = CommandLine { program: String::from_str(program), arguments };
    assert(line@.arguments =~= seq![first@, second@, third@, fourth@]);
    line
}

fn keyword(mode: StartMode) -> (word: String)
    ensures
        word@ == mode_keyword(mode),
{
    match mode {
        StartMode::Auto => String::from_str("auto"),
        StartMode::Demand => String::from_str("demand"),
        StartMode::Disabled => String::from_str("disabled"),
    }
}

/// Lays out the command line of an operation.
pub fn command_line(operation: &Operation) -> (line: Option<CommandLine>)
    ensures
        match line {
            Some(line) => command_of(operation@) == Some(line@),
            None => command_of(operation@).is_none(),
        },
{
    match operation {
        Operation::StopService { service, utility } => Some(
            match utility {
                Utility::ServiceControl => line2("sc", String::from_str("stop"), service.clone()),
                Utility::LegacyService => line3(
                    "net",
                    String::from_str("stop"),
                    service.clone(),
                    String::from_str("/y"),
                ),
            },
        ),
        Operation::ConfigureStartMode { service, mode } => Some(
            line4(
                "sc",
                String::from_str("config"),
                service.clone(),
                String::from_str("start="),
                keyword(*mode),
            ),
        ),
        Operation::SetTaskEnabled { task, enabled } => Some(
            line4(
                "schtasks",
                String::from_str("/Change"),
                String::from_str("/TN"),
                task.clone(),
                if *enabled {
                    String::from_str("/Enable")
                } else {
                    String::from_str("/Disable")
                },
            ),
        ),
        Operation::RefreshPolicy { scope } => Some(
            line2(
                "gpupdate",
                match scope {
                    Scope::Machine => String::from_str("/target:computer"),
                    Scope::User => String::from_str("/target:user"),
                },
                String::from_str("/force"),
            ),
        ),
        _ => None,
    }
}

/// The command line that hands a whole script to the script interpreter,
/// with the interpreter's execution policy lifted for this one run.
pub open spec fn script_command_of(script: Seq<char>) -> CommandLineView {
    CommandLineView {
        program: "powershell"@,
        arguments: seq!["-ExecutionPolicy"@, "Bypass"@, "-Command"@, script],
    }
}

/// Lays out the command line that runs a script.
pub fn script_command(script: &str) -> (line: CommandLine)
    ensures
        line@ == script_command_of(script@),
{
    line4(
        "powershell",
        String::from_str("-ExecutionPolicy"),
        String::from_str("Bypass"),
        String::from_str("-Command"),
        String::from_str(script),
    )
}

/// One edit that the registry accessor makes under the machine-wide root.
#[derive(Clone, Debug, PartialEq, Eq)]
pub enum RegistryEdit {
    /// Store a 32-bit number.
    SetDword { key_path: String, value_name: String, number: u32 },
    /// Store a string.
    SetText { key_path: String, value_name: String, text: String },
    /// Store a string in which names of environment variables are expanded
    /// when it is read.
    SetExpandableText { key_path: String, value_name: String, text: String },
    /// Delete a value. Deleting a value that does not exist counts as done.
    DeleteValue { key_path: String, value_name: String },
    /// Delete a key with everything below it. Deleting a key that does not
    /// exist counts as done.
    DeleteTree { key_path: String },
}

pub enum RegistryEditView {
    SetDword { key_path: Seq<char>, value_name: Seq<char>, number: u32 },
    SetText { key_path: Seq<char>, value_name: Seq<char>, text: Seq<char> },
    SetExpandableText { key_path: Seq<char>, value_name: Seq<char>, text: Seq<char> },
    DeleteValue { key_path: Seq<char>, value_name: Seq<char> },
    DeleteTree { key_path: Seq<char> },
}

impl View for RegistryEdit {
    type V = RegistryEditView;

    open spec fn view(&self) -> RegistryEditView {
        match self {
            RegistryEdit::SetDword { key_path, value_name, number } => RegistryEditView::SetDword {
                key_path: key_path@,
                value_name: value_name@,
                number: *number,
            },
            RegistryEdit::SetText { key_path, value_name, text } => RegistryEditView::SetText {
                key_path: key_path@,
                value_name: value_name@,
                text: text@,
            },
            RegistryEdit::SetExpandableText {
                key_path,
                value_name,
                text,
            } => RegistryEditView::SetExpandableText {
                key_path: key_path@,
                value_name: value_name@,
                text: text@,
            },
            RegistryEdit::DeleteValue { key_path, value_name } => RegistryEditView::DeleteValue {
                key_path: key_path@,
                value_name: value_name@,
            },
            RegistryEdit::DeleteTree { key_path } => RegistryEditView::DeleteTree {
                key_path: key_path@,
            },
        }
    }
}

/// The key of a service's control entry.
pub open spec fn service_key_of(service: Seq<char>) -> Seq<char> {
    "SYSTEM\\CurrentControlSet\\Services\\"@ + service
}

/// The key of a service's control entry.
pub fn service_key(service: &String) -> (key: String)
    ensures
        key@ == service_key_of(service@),
{
    let mut key = String::from_str("SYSTEM\\CurrentControlSet\\Services\\");
    key.append(service.as_str());
    key
}

/// The registry edit of an operation that the registry accessor carries
/// out; `None` for an operation of a control utility.
pub open spec fn edit_of(operation: OperationView) -> Option<RegistryEditView> {
    match operation {
        OperationView::WriteImagePath { service, path } => Some(
            RegistryEditView::SetExpandableText {
                key_path: service_key_of(service),
                value_name: "ImagePath"@,
                text: path,
            },
        ),
        OperationView::WriteStartMode { service, mode } => Some(
            RegistryEditView::SetDword {
                key_path: service_key_of(service),
                value_name: "Start"@,
                number: mode.code_of(),
            },
        ),
        OperationView::WritePolicy { key_path, value_name, value } => Some(
            match value {
                PolicyValueView::Dword(number) => RegistryEditView::SetDword {
                    key_path,
                    value_name,
                    number,
                },
                PolicyValueView::Text(text) => RegistryEditView::SetText {
                    key_path,
                    value_name,
                    text,
                },
            },
        ),
        OperationView::DeletePolicy { key_path, value_name } => Some(
            RegistryEditView::DeleteValue { key_path, value_name },
        ),
        OperationView::RemovePolicyTree { key_path } => Some(
            RegistryEditView::DeleteTree { key_path },
        ),
        _ => None,
    }
}

/// Lays out the registry edit of an operation.
pub fn registry_edit(operation: &Operation) -> (edit: Option<RegistryEdit>)
    ensures
        match edit {
            Some(edit) => edit_of(operation@) == Some(edit@),
            None => edit_of(operation@).is_none(),
        },
{
    match operation {
        Operation::WriteImagePath { service, path } => Some(
            RegistryEdit::SetExpandableText {
                key_path: service_key(service),
                value_name: String::from_str("ImagePath"),
                text: path.clone(),
            },
        ),
        Operation::WriteStartMode { service, mode } => Some(
            RegistryEdit::SetDword {
                key_path: service_key(service),
                value_name: String::from_str("Start"),
                number: mode.code(),
            },
        ),
        Operation::WritePolicy { key_path, value_name, value } => Some(
            match value {
                PolicyValue::Dword(number) => RegistryEdit::SetDword {
                    key_path: key_path.clone(),
                    value_name: value_name.clone(),
                    number: *number,
                },
                PolicyValue::Text(text) => RegistryEdit::SetText {
                    key_path: key_path.clone(),
                    value_name: value_name.clone(),
                    text: text.clone(),
                },
            },
        ),
        Operation::DeletePolicy { key_path, value_name } => Some(
            RegistryEdit::DeleteValue {
                key_path: key_path.clone(),
                value_name: value_name.clone(),
            },
        ),
        Operation::RemovePolicyTree { key_path } => Some(
            RegistryEdit::DeleteTree { key_path: key_path.clone() },
        ),
        _ => None,
    }
}

/// How the registry answered an edit.
#[derive(Clone, Copy, Debug, PartialEq, Eq, Structural)]
pub enum EditOutcome {
    /// The edit was made.
    Done,
    /// The key or the value that the edit names does not exist.
    NotFound,
    /// The edit was refused or failed otherwise.
    Failed,
}

impl RegistryEditView {
    /// Whether the edit takes something away.
    pub open spec fn is_deletion(self) -> bool {
        self is DeleteValue || self is DeleteTree
    }
}

/// Whether an edit counts as done: it was made, or it was a deletion and
/// there was nothing to delete.
pub open spec fn edit_settled(edit: RegistryEditView, outcome: EditOutcome) -> bool {
    outcome == EditOutcome::Done || (outcome == EditOutcome::NotFound && edit.is_deletion())
}

/// Reduces the registry's answer to an edit to a flag.
pub fn settled(edit: &RegistryEdit, outcome: EditOutcome) -> (success: bool)
    ensures
        success == edit_settled(edit@, outcome),
{
    match outcome {
        EditOutcome::Done => true,
        EditOutcome::NotFound => match edit {
            RegistryEdit::DeleteValue { .. } => true,
            RegistryEdit::DeleteTree { .. } => true,
            _ => false,
        },
        EditOutcome::Failed => false,
    }
}

/// Every operation reaches the host in exactly one way: as a command line
/// or as a registry edit.
pub proof fn lemma_one_surface(operation: OperationView)
    ensures
        command_of(operation).is_some() != edit_of(operation).is_some(),
{
}

/// A place in the registry where one value is stored.
#[derive(Clone, Debug, PartialEq, Eq)]
pub struct ValueLocation {
    pub key_path: String,
    pub value_name: String,
}

pub struct ValueLocationView {
    pub key_path: Seq<char>,
    pub value_name: Seq<char>,
}

impl View for ValueLocation {
    type V = ValueLocationView;

    open spec fn view(&self) -> ValueLocationView {
        ValueLocationView { key_path: self.key_path@, value_name: self.value_name@ }
    }
}

/// Where the no-automatic-update flag is stored.
pub fn flag_location(config: &Config) -> (location: ValueLocation)
    ensures
        location@ == (ValueLocationView {
            key_path: config@.flag_key,
            value_name: config@.flag_name,
        }),
{
    ValueLocation { key_path: config.flag_key.clone(), value_name: config.flag_name.clone() }
}

/// Where the executable path of a service is stored.
pub fn image_path_location(service: &String) -> (location: ValueLocation)
    ensures
        location@ == (ValueLocationView {
            key_path: service_key_of(service@),
            value_name: "ImagePath"@,
        }),
{
    ValueLocation { key_path: service_key(service), value_name: String::from_str("ImagePath") }
}

/// Where the start mode of a service is stored.
pub fn start_mode_location(service: &String) -> (location: ValueLocation)
    ensures
        location@ == (ValueLocationView {
            key_path: service_key_of(service@),
            value_name: "Start"@,
        }),
{
    ValueLocation { key_path: service_key(service), value_name: String::from_str("Start") }
}

} // verus!
