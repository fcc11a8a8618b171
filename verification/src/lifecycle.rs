//! The service lifecycle controller: starting, stopping and toggling a
//! service, and reporting its status.
//!
//! An operation is a state machine. It is created with the first effect it
//! asks for; `advance` takes the observation of how that effect went,
//! writes to the registry where the operation has come to its end, and
//! hands out the next effect or the outcome. The steps of one operation
//! follow each other in a fixed order, and none is taken twice.
//!
//! Toggling reads the registry and then starts or stops. It does not hold
//! the registry in between: of two toggles of one service that run at the
//! same time, both may see it stopped and both may start it.
//!
//! A start whose port is not listening after the settle interval fails and
//! leaves the registry as it was. The process that was spawned is not
//! terminated and not tracked.

use crate::config::{default_config, default_config_text};
use crate::effect::{Answer, CommandLine, Effect, Invocation, Observation, Request};
use crate::error::{outcome_of, ErrorKind, Failure, Outcome, SupervisorError};
use crate::inspect::{reported_version, service_version};
use crate::layout::{
    binary, binary_path, config_directory, config_directory_path, config_file,
    config_file_path, data_directory, data_directory_path, home, home_path, system_tables,
    system_tables_path,
};
use crate::probe::{is_listening, port_listening};
use crate::registry::{RegistryState, ServiceRecord, ServiceStateRegistry, valid_state};
use crate::service::ServiceName;
use crate::text::{concat2, concat3, concat4, decimal, decimal_text, slice_text_of, text_of};
use vstd::prelude::*;
use vstd::string::*;

verus! {

/// The message of a start whose binary is missing.
pub open spec fn not_found_message(service: ServiceName, path: Seq<char>) -> Seq<char> {
    service.spec_label() + " binary not found at "@ + path + ". Please ensure "@
        + service.spec_label() + " is installed."@
}

/// The message of a start whose configuration could not be written.
pub open spec fn config_write_message(service: ServiceName, detail: Seq<char>) -> Seq<char> {
    "Failed to write the "@ + service.spec_label() + " configuration: "@ + detail
}

/// The message of a start that could not make the installation root its
/// working directory.
pub open spec fn enter_message(root: Seq<char>, detail: Seq<char>) -> Seq<char> {
    "Failed to enter "@ + root + ": "@ + detail
}

/// The message of a start whose data directory could not be set up.
pub open spec fn initialization_message(service: ServiceName, detail: Seq<char>) -> Seq<char> {
    "Failed to initialize "@ + service.spec_label() + " data directory: "@ + detail
}

/// The message of a start whose configuration the service refused.
pub open spec fn config_test_message(service: ServiceName, detail: Seq<char>) -> Seq<char> {
    service.spec_label() + " configuration test failed: "@ + detail
}

/// The message of a start whose process could not be spawned.
pub open spec fn launch_message(service: ServiceName, detail: Seq<char>) -> Seq<char> {
    "Failed to start "@ + service.spec_label() + ": "@ + detail
}

/// The message of a start whose port does not show in the socket table.
pub open spec fn not_listening_message(service: ServiceName) -> Seq<char> {
    service.spec_label() + " started but port "@ + decimal(service.spec_port() as nat)
        + " is not listening"@
}

/// The message of a start after which the port could not be looked for.
pub open spec fn unverified_message(service: ServiceName) -> Seq<char> {
    "Failed to verify "@ + service.spec_label() + " is running"@
}

/// The message of a stop of a service that does not run.
pub open spec fn not_running_message(service: ServiceName) -> Seq<char> {
    service.spec_label() + " is not running"@
}

/// The message of a stop whose process could not be terminated.
pub open spec fn termination_message(service: ServiceName, detail: Seq<char>) -> Seq<char> {
    "Failed to stop "@ + service.spec_label() + ": "@ + detail
}

/// The command that sets up the database's data directory, without a
/// password for the administrator.
pub open spec fn initialization_command(root: Seq<char>) -> Invocation {
    Invocation {
        program: binary(root, ServiceName::Database),
        arguments: seq![
            "--initialize-insecure"@,
            "--basedir="@ + home(root, ServiceName::Database),
            "--datadir="@ + data_directory(root),
        ],
    }
}

/// The command that makes the web server test its configuration.
pub open spec fn config_test_command(root: Seq<char>) -> Invocation {
    Invocation {
        program: binary(root, ServiceName::WebServer),
        arguments: seq!["-f"@, config_file(root, ServiceName::WebServer), "-t"@],
    }
}

/// The command that runs `service` in the foreground on its configuration
/// file.
pub open spec fn launch_command(root: Seq<char>, service: ServiceName) -> Invocation {
    match service {
        ServiceName::Database => Invocation {
            program: binary(root, service),
            arguments: seq!["--defaults-file="@ + config_file(root, service), "--console"@],
        },
        ServiceName::WebServer => Invocation {
            program: binary(root, service),
            arguments: seq!["-f"@, config_file(root, service), "-D"@, "FOREGROUND"@],
        },
    }
}

/// The command that terminates the process `pid` by force.
pub open spec fn termination_command(pid: u32) -> Invocation {
    Invocation { program: "taskkill"@, arguments: seq!["/F"@, "/PID"@, decimal(pid as nat)] }
}

/// The command that prints the table of sockets.
pub open spec fn socket_table_command() -> Invocation {
    Invocation { program: "netstat"@, arguments: seq!["-ano"@] }
}

/// The command that makes the binary of `service` print its banner.
pub open spec fn version_command(root: Seq<char>, service: ServiceName) -> Invocation {
    Invocation { program: binary(root, service), arguments: seq![service.spec_version_flag()] }
}

/// The command by which the version of `service` is asked for, if there
/// is one: a binary that is not there is not run, and reports no version.
pub open spec fn version_query(root: Seq<char>, service: ServiceName, binary_present: bool)
    -> Option<Invocation> {
    if binary_present {
        Some(version_command(root, service))
    } else {
        None
    }
}

/// Where a start stands: what it has asked for and waits to hear of.
#[derive(Clone, Copy, Debug, PartialEq, Eq, Structural)]
pub enum StartPhase {
    /// Whether the binary exists.
    ProbingBinary,
    /// Whether a configuration file exists.
    ProbingConfig,
    /// The default configuration is being written.
    WritingConfig,
    /// Whether the database's system tables exist.
    ProbingData,
    /// The database's data directory is being set up.
    InitializingData,
    /// The working directory is being changed to the installation root,
    /// from which the web server is run.
    EnteringRoot,
    /// The web server tests its configuration.
    TestingConfig,
    /// The process is being spawned.
    Launching,
    /// The process `pid` is given time to bind its port.
    Settling { pid: u32 },
    /// The socket table is being read, to see the port of process `pid`.
    Probing { pid: u32 },
}

impl StartPhase {
    /// The place of the phase in the order of a start.
    pub open spec fn rank(self) -> nat {
        match self {
            StartPhase::ProbingBinary => 0,
            StartPhase::ProbingConfig => 1,
            StartPhase::WritingConfig => 2,
            StartPhase::ProbingData => 3,
            StartPhase::InitializingData => 4,
            StartPhase::EnteringRoot => 5,
            StartPhase::TestingConfig => 6,
            StartPhase::Launching => 7,
            StartPhase::Settling { .. } => 8,
            StartPhase::Probing { .. } => 9,
        }
    }
}

/// The states of a service. The registry tells the two that last apart;
/// the other two last only while an operation is under way.
#[derive(Clone, Copy, Debug, PartialEq, Eq, Structural)]
pub enum ServiceState {
    /// The service does not run. Every service begins here.
    Stopped,
    /// A start is under way.
    Starting,
    /// The service runs.
    Running,
    /// A stop is under way.
    Stopping,
}

/// The state that a record of the registry stands for.
pub open spec fn recorded_state(record: ServiceRecord) -> ServiceState {
    if record.running {
        ServiceState::Running
    } else {
        ServiceState::Stopped
    }
}

/// The state that a record of the registry stands for.
pub fn state_of_record(record: ServiceRecord) -> (state: ServiceState)
    ensures
        state == recorded_state(record),
{
    if record.running {
        ServiceState::Running
    } else {
        ServiceState::Stopped
    }
}

/// An operation under way, as contracts speak of it.
pub enum Task {
    /// A start of `service`, installed at `root`.
    Start { service: ServiceName, root: Seq<char>, phase: StartPhase },
    /// A stop of `service`, waiting to hear of the termination. On success
    /// it reports `report`.
    Stop { service: ServiceName, report: bool },
}

impl Task {
    /// The service that the operation is about.
    pub open spec fn service(self) -> ServiceName {
        match self {
            Task::Start { service, .. } => service,
            Task::Stop { service, .. } => service,
        }
    }

    /// The state in which the service is while the operation is under
    /// way.
    pub open spec fn state(self) -> ServiceState {
        match self {
            Task::Start { .. } => ServiceState::Starting,
            Task::Stop { .. } => ServiceState::Stopping,
        }
    }
}

/// What a step of an operation comes to, as contracts speak of it.
pub enum Step {
    /// The operation goes on and asks for `request`.
    Pending { task: Task, request: Request },
    /// The operation is over.
    Finished { outcome: Outcome },
}

/// A step of an operation and the registry after it.
pub struct Transition {
    pub step: Step,
    pub registry: RegistryState,
}

/// The start goes on in `phase` and asks for `request`.
pub open spec fn start_goes_on(
    registry: RegistryState,
    service: ServiceName,
    root: Seq<char>,
    phase: StartPhase,
    request: Request,
) -> Transition {
    Transition { step: Step::Pending { task: Task::Start { service, root, phase }, request }, registry }
}

/// The operation fails and leaves the registry as it is.
pub open spec fn fails(registry: RegistryState, kind: ErrorKind, message: Seq<char>) -> Transition {
    Transition { step: Step::Finished { outcome: Err(Failure { kind, message }) }, registry }
}

/// The step of a start that has its configuration file: the database
/// looks for its system tables, the web server is run from the
/// installation root and enters it first.
pub open spec fn start_configured(registry: RegistryState, service: ServiceName, root: Seq<char>)
    -> Transition {
    match service {
        ServiceName::Database => start_goes_on(
            registry,
            service,
            root,
            StartPhase::ProbingData,
            Request::ProbePath { path: system_tables(root) },
        ),
        ServiceName::WebServer => start_goes_on(
            registry,
            service,
            root,
            StartPhase::EnteringRoot,
            Request::EnterDirectory { path: root },
        ),
    }
}

/// The step of a start that is ready to spawn the process.
pub open spec fn start_launches(registry: RegistryState, service: ServiceName, root: Seq<char>)
    -> Transition {
    start_goes_on(
        registry,
        service,
        root,
        StartPhase::Launching,
        Request::Spawn { command: launch_command(root, service) },
    )
}

/// The step that a start in `phase` takes on `answer`.
pub open spec fn next_start(
    service: ServiceName,
    root: Seq<char>,
    phase: StartPhase,
    registry: RegistryState,
    answer: Answer,
) -> Transition {
    match phase {
        StartPhase::ProbingBinary => if answer == Answer::Present(true) {
            start_goes_on(
                registry,
                service,
                root,
                StartPhase::ProbingConfig,
                Request::ProbePath { path: config_file(root, service) },
            )
        } else {
            fails(registry, ErrorKind::NotFound, not_found_message(service, binary(root, service)))
        },
        StartPhase::ProbingConfig => if answer == Answer::Present(true) {
            start_configured(registry, service, root)
        } else if answer == Answer::Present(false) {
            start_goes_on(
                registry,
                service,
                root,
                StartPhase::WritingConfig,
                Request::WriteFile {
                    directory: config_directory(root),
                    path: config_file(root, service),
                    content: default_config(root, service),
                },
            )
        } else {
            fails(
                registry,
                ErrorKind::FilesystemError,
                config_write_message(service, answer.detail()),
            )
        },
        StartPhase::WritingConfig => if answer == Answer::Done {
            start_configured(registry, service, root)
        } else {
            fails(
                registry,
                ErrorKind::FilesystemError,
                config_write_message(service, answer.detail()),
            )
        },
        StartPhase::ProbingData => if answer == Answer::Present(true) {
            start_launches(registry, service, root)
        } else if answer == Answer::Present(false) {
            start_goes_on(
                registry,
                service,
                root,
                StartPhase::InitializingData,
                Request::Run { command: initialization_command(root) },
            )
        } else {
            fails(
                registry,
                ErrorKind::InitializationError,
                initialization_message(service, answer.detail()),
            )
        },
        StartPhase::InitializingData => if answer == Answer::Done {
            start_launches(registry, service, root)
        } else {
            fails(
                registry,
                ErrorKind::InitializationError,
                initialization_message(service, answer.detail()),
            )
        },
        StartPhase::EnteringRoot => if answer == Answer::Done {
            start_goes_on(
                registry,
                service,
                root,
                StartPhase::TestingConfig,
                Request::Run { command: config_test_command(root) },
            )
        } else {
            fails(registry, ErrorKind::EnvironmentError, enter_message(root, answer.detail()))
        },
        StartPhase::TestingConfig => if answer == Answer::Done {
            start_launches(registry, service, root)
        } else {
            fails(registry, ErrorKind::ConfigError, config_test_message(service, answer.detail()))
        },
        StartPhase::Launching => match answer {
            Answer::Spawned(pid) => start_goes_on(
                registry,
                service,
                root,
                StartPhase::Settling { pid },
                Request::Settle { seconds: service.spec_settle_seconds() },
            ),
            _ => fails(registry, ErrorKind::LaunchError, launch_message(service, answer.detail())),
        },
        StartPhase::Settling { pid } => if answer == Answer::Done {
            start_goes_on(
                registry,
                service,
                root,
                StartPhase::Probing { pid },
                Request::Capture { command: socket_table_command() },
            )
        } else {
            fails(registry, ErrorKind::NotReady, unverified_message(service))
        },
        StartPhase::Probing { pid } => match answer {
            Answer::Text(table) => if port_listening(table, service.spec_port()) {
                Transition {
                    step: Step::Finished { outcome: Ok(true) },
                    registry: registry.insert(service, ServiceRecord::spec_started(pid)),
                }
            } else {
                fails(registry, ErrorKind::NotReady, not_listening_message(service))
            },
            _ => fails(registry, ErrorKind::NotReady, unverified_message(service)),
        },
    }
}

/// The step that a stop takes on `answer`, the observation of the
/// termination.
pub open spec fn next_stop(
    service: ServiceName,
    report: bool,
    registry: RegistryState,
    answer: Answer,
) -> Transition {
    if answer == Answer::Done {
        Transition {
            step: Step::Finished { outcome: Ok(report) },
            registry: registry.insert(service, ServiceRecord::spec_stopped()),
        }
    } else {
        fails(registry, ErrorKind::TerminationError, termination_message(service, answer.detail()))
    }
}

/// The step that `task` takes on `answer`, and the registry after it.
pub open spec fn next(task: Task, registry: RegistryState, answer: Answer) -> Transition {
    match task {
        Task::Start { service, root, phase } => next_start(service, root, phase, registry, answer),
        Task::Stop { service, report } => next_stop(service, report, registry, answer),
    }
}

/// The first step of a start of `service`, installed at `root`.
pub open spec fn start_task(service: ServiceName, root: Seq<char>) -> Step {
    Step::Pending {
        task: Task::Start { service, root, phase: StartPhase::ProbingBinary },
        request: Request::ProbePath { path: binary(root, service) },
    }
}

/// The first step of a stop of `service`, which reports `report` if it
/// succeeds.
pub open spec fn stop_task(registry: RegistryState, service: ServiceName, report: bool) -> Step {
    match registry[service].process_handle {
        Some(pid) => Step::Pending {
            task: Task::Stop { service, report },
            request: Request::Run { command: termination_command(pid) },
        },
        None => Step::Finished {
            outcome: Err(
                Failure { kind: ErrorKind::NotRunning, message: not_running_message(service) },
            ),
        },
    }
}

/// The first step of a toggle of `service`: of a stop if it runs, of a
/// start if it does not. The outcome of a toggle that succeeds says whether
/// the service runs afterwards.
pub open spec fn toggle_task(registry: RegistryState, service: ServiceName, root: Seq<char>)
    -> Step {
    if registry[service].running {
        stop_task(registry, service, false)
    } else {
        start_task(service, root)
    }
}

/// The message of a start whose binary is missing.
pub fn not_found_text(service: ServiceName, path: &str) -> (message: String)
    ensures
        message@ == not_found_message(service, path@),
{
    let label = service.label();
    let head = concat3(label, " binary not found at ", path);
    concat4(head.as_str(), ". Please ensure ", label, " is installed.")
}

/// The message of a start whose configuration could not be written.
pub fn config_write_text(service: ServiceName, detail: &str) -> (message: String)
    ensures
        message@ == config_write_message(service, detail@),
{
    concat4("Failed to write the ", service.label(), " configuration: ", detail)
}

/// The message of a start that could not make the installation root its
/// working directory.
pub fn enter_text(root: &str, detail: &str) -> (message: String)
    ensures
        message@ == enter_message(root@, detail@),
{
    concat4("Failed to enter ", root, ": ", detail)
}

/// The message of a start whose data directory could not be set up.
pub fn initialization_text(service: ServiceName, detail: &str) -> (message: String)
    ensures
        message@ == initialization_message(service, detail@),
{
    concat4("Failed to initialize ", service.label(), " data directory: ", detail)
}

/// The message of a start whose configuration the service refused.
pub fn config_test_text(service: ServiceName, detail: &str) -> (message: String)
    ensures
        message@ == config_test_message(service, detail@),
{
    concat3(service.label(), " configuration test failed: ", detail)
}

/// The message of a start whose process could not be spawned.
pub fn launch_text(service: ServiceName, detail: &str) -> (message: String)
    ensures
        message@ == launch_message(service, detail@),
{
    concat4("Failed to start ", service.label(), ": ", detail)
}

/// The message of a start whose port does not show in the socket table.
pub fn not_listening_text(service: ServiceName) -> (message: String)
    ensures
        message@ == not_listening_message(service),
{
    let port = decimal_text(service.port() as u64);
    concat4(service.label(), " started but port ", port.as_str(), " is not listening")
}

/// The message of a start after which the port could not be looked for.
pub fn unverified_text(service: ServiceName) -> (message: String)
    ensures
        message@ == unverified_message(service),
{
    concat3("Failed to verify ", service.label(), " is running")
}

/// The message of a stop of a service that does not run.
pub fn not_running_text(service: ServiceName) -> (message: String)
    ensures
        message@ == not_running_message(service),
{
    concat2(service.label(), " is not running")
}

/// The message of a stop whose process could not be terminated.
pub fn termination_text(service: ServiceName, detail: &str) -> (message: String)
    ensures
        message@ == termination_message(service, detail@),
{
    concat4("Failed to stop ", service.label(), ": ", detail)
}

/// The command that sets up the database's data directory.
pub fn initialization_command_line(root: &str) -> (command: CommandLine)
    ensures
        command@ == initialization_command(root@),
{
    let mut arguments: Vec<String> = Vec::new();
    arguments.push(String::from_str("--initialize-insecure"));
    arguments.push(concat2("--basedir=", home_path(root, ServiceName::Database).as_str()));
    arguments.push(concat2("--datadir=", data_directory_path(root).as_str()));
    let command = CommandLine { program: binary_path(root, ServiceName::Database), arguments };
    assert(command@.arguments =~= initialization_command(root@).arguments);
    command
}

/// The command that makes the web server test its configuration.
pub fn config_test_command_line(root: &str) -> (command: CommandLine)
    ensures
        command@ == config_test_command(root@),
{
    let mut arguments: Vec<String> = Vec::new();
    arguments.push(String::from_str("-f"));
    arguments.push(config_file_path(root, ServiceName::WebServer));
    arguments.push(String::from_str("-t"));
    let command = CommandLine { program: binary_path(root, ServiceName::WebServer), arguments };
    assert(command@.arguments =~= config_test_command(root@).arguments);
    command
}

/// The command that runs `service` in the foreground on its configuration
/// file.
pub fn launch_command_line(root: &str, service: ServiceName) -> (command: CommandLine)
    ensures
        command@ == launch_command(root@, service),
{
    let mut arguments: Vec<String> = Vec::new();
    match service {
        ServiceName::Database => {
            arguments.push(concat2("--defaults-file=", config_file_path(root, service).as_str()));
            arguments.push(String::from_str("--console"));
        },
        ServiceName::WebServer => {
            arguments.push(String::from_str("-f"));
            arguments.push(config_file_path(root, service));
            arguments.push(String::from_str("-D"));
            arguments.push(String::from_str("FOREGROUND"));
        },
    }
    let command = CommandLine { program: binary_path(root, service), arguments };
    assert(command@.arguments =~= launch_command(root@, service).arguments);
    command
}

/// The command that terminates the process `pid` by force.
pub fn termination_command_line(pid: u32) -> (command: CommandLine)
    ensures
        command@ == termination_command(pid),
{
    let mut arguments: Vec<String> = Vec::new();
    arguments.push(String::from_str("/F"));
    arguments.push(String::from_str("/PID"));
    arguments.push(decimal_text(pid as u64));
    let command = CommandLine { program: String::from_str("taskkill"), arguments };
    assert(command@.arguments =~= termination_command(pid).arguments);
    command
}

/// The command that prints the table of sockets.
pub fn socket_table_command_line() -> (command: CommandLine)
    ensures
        command@ == socket_table_command(),
{
    let mut arguments: Vec<String> = Vec::new();
    arguments.push(String::from_str("-ano"));
    let command = CommandLine { program: String::from_str("netstat"), arguments };
    assert(command@.arguments =~= socket_table_command().arguments);
    command
}

/// The command that makes the binary of `service` print its banner.
pub fn version_command_line(root: &str, service: ServiceName) -> (command: CommandLine)
    ensures
        command@ == version_command(root@, service),
{
    let mut arguments: Vec<String> = Vec::new();
    arguments.push(String::from_str(service.version_flag()));
    let command = CommandLine { program: binary_path(root, service), arguments };
    assert(command@.arguments =~= version_command(root@, service).arguments);
    command
}

/// The command by which the version of `service` is asked for, if its
/// binary is there.
pub fn version_query_line(root: &str, service: ServiceName, binary_present: bool) -> (command:
    Option<CommandLine>)
    ensures
        command is Some <==> binary_present,
        command matches Some(line) ==> line@ == version_command(root@, service),
        match command {
            Some(line) => version_query(root@, service, binary_present) == Some(line@),
            None => version_query(root@, service, binary_present) is None,
        },
{
    if binary_present {
        Some(version_command_line(root, service))
    } else {
        None
    }
}

/// Where an operation stands.
#[derive(Debug, PartialEq, Eq)]
enum Stage {
    Start { service: ServiceName, root: String, phase: StartPhase },
    Stop { service: ServiceName, report: bool },
}

/// A start or a stop under way. It is made by `start`, `stop` or `toggle`
/// and goes on by `advance`, which uses it up. It cannot be copied: no
/// step of an operation is taken twice.
#[derive(Debug, PartialEq, Eq)]
pub struct Operation {
    stage: Stage,
}

impl View for Operation {
    type V = Task;

    closed spec fn view(&self) -> Task {
        match self.stage {
            Stage::Start { service, root, phase } => Task::Start { service, root: root@, phase },
            Stage::Stop { service, report } => Task::Stop { service, report },
        }
    }
}

/// What a step of an operation comes to.
#[derive(Debug, PartialEq, Eq)]
pub enum Progress {
    /// The operation goes on: carry out `effect` and hand what was
    /// observed to `operation`.
    Pending { operation: Operation, effect: Effect },
    /// The operation is over. A start and a stop that succeeded say
    /// `true`; a toggle that succeeded says whether the service runs now.
    Finished { outcome: Result<bool, SupervisorError> },
}

impl View for Progress {
    type V = Step;

    open spec fn view(&self) -> Step {
        match self {
            Progress::Pending { operation, effect } => Step::Pending {
                task: operation@,
                request: effect@,
            },
            Progress::Finished { outcome } => Step::Finished { outcome: outcome_of(*outcome) },
        }
    }
}

/// The start goes on in `phase` and asks for `effect`.
fn start_pending(service: ServiceName, root: String, phase: StartPhase, effect: Effect) -> (progress:
    Progress)
    ensures
        progress@ == (Step::Pending {
            task: Task::Start { service, root: root@, phase },
            request: effect@,
        }),
{
    Progress::Pending { operation: Operation { stage: Stage::Start { service, root, phase } }, effect }
}

/// The operation is over with a failure.
fn failed(kind: ErrorKind, message: String) -> (progress: Progress)
    ensures
        progress@ == (Step::Finished { outcome: Err(Failure { kind, message: message@ }) }),
{
    Progress::Finished { outcome: Err(SupervisorError::new(kind, message)) }
}

/// The step of a start that has its configuration file.
fn configured(service: ServiceName, root: String) -> (progress: Progress)
    ensures
        forall|registry: RegistryState|
            progress@ == (#[trigger] start_configured(registry, service, root@)).step,
{
    match service {
        ServiceName::Database => {
            let path = system_tables_path(root.as_str());
            start_pending(service, root, StartPhase::ProbingData, Effect::ProbePath { path })
        },
        ServiceName::WebServer => {
            let path = root.clone();
            start_pending(service, root, StartPhase::EnteringRoot, Effect::EnterDirectory { path })
        },
    }
}

/// The step of a start that is ready to spawn the process.
fn launches(service: ServiceName, root: String) -> (progress: Progress)
    ensures
        forall|registry: RegistryState|
            progress@ == (#[trigger] start_launches(registry, service, root@)).step,
{
    let command = launch_command_line(root.as_str(), service);
    start_pending(service, root, StartPhase::Launching, Effect::Spawn { command })
}

/// The step that a start takes before its process is spawned.
fn advance_preparation(
    service: ServiceName,
    root: String,
    phase: StartPhase,
    observation: Observation,
) -> (progress: Progress)
    requires
        phase.rank() <= 6,
    ensures
        forall|registry: RegistryState|
            progress@ == (#[trigger] next_start(
                service,
                root@,
                phase,
                registry,
                observation@,
            )).step,
{
    match phase {
        StartPhase::ProbingBinary => {
            if observation.affirms() {
                let path = config_file_path(root.as_str(), service);
                start_pending(service, root, StartPhase::ProbingConfig, Effect::ProbePath { path })
            } else {
                let path = binary_path(root.as_str(), service);
                failed(ErrorKind::NotFound, not_found_text(service, path.as_str()))
            }
        },
        StartPhase::ProbingConfig => {
            if observation.affirms() {
                configured(service, root)
            } else if observation.denies() {
                let directory = config_directory_path(root.as_str());
                let path = config_file_path(root.as_str(), service);
                let content = default_config_text(root.as_str(), service);
                start_pending(
                    service,
                    root,
                    StartPhase::WritingConfig,
                    Effect::WriteFile { directory, path, content },
                )
            } else {
                let detail = observation.detail();
                failed(ErrorKind::FilesystemError, config_write_text(service, detail.as_str()))
            }
        },
        StartPhase::WritingConfig => {
            if observation.is_done() {
                configured(service, root)
            } else {
                let detail = observation.detail();
                failed(ErrorKind::FilesystemError, config_write_text(service, detail.as_str()))
            }
        },
        StartPhase::ProbingData => {
            if observation.affirms() {
                launches(service, root)
            } else if observation.denies() {
                let command = initialization_command_line(root.as_str());
                start_pending(
                    service,
                    root,
                    StartPhase::InitializingData,
                    Effect::Run { command },
                )
            } else {
                let detail = observation.detail();
                failed(
                    ErrorKind::InitializationError,
                    initialization_text(service, detail.as_str()),
                )
            }
        },
        StartPhase::InitializingData => {
            if observation.is_done() {
                launches(service, root)
            } else {
                let detail = observation.detail();
                failed(
                    ErrorKind::InitializationError,
                    initialization_text(service, detail.as_str()),
                )
            }
        },
        StartPhase::EnteringRoot => {
            if observation.is_done() {
                let command = config_test_command_line(root.as_str());
                start_pending(service, root, StartPhase::TestingConfig, Effect::Run { command })
            } else {
                let detail = observation.detail();
                failed(ErrorKind::EnvironmentError, enter_text(root.as_str(), detail.as_str()))
            }
        },
        _ => {
            if observation.is_done() {
                launches(service, root)
            } else {
                let detail = observation.detail();
                failed(ErrorKind::ConfigError, config_test_text(service, detail.as_str()))
            }
        },
    }
}

/// The step that a start takes once its process is to be spawned.
fn advance_launch(
    service: ServiceName,
    root: String,
    phase: StartPhase,
    registry: &mut ServiceStateRegistry,
    observation: Observation,
) -> (progress: Progress)
    requires
        phase.rank() > 6,
    ensures
        progress@ == next_start(service, root@, phase, old(registry)@, observation@).step,
        final(registry)@ == next_start(service, root@, phase, old(registry)@, observation@).registry,
{
    match phase {
        StartPhase::Launching => {
            match observation {
                Observation::Spawned(pid) => {
                    let seconds = service.settle_seconds();
                    start_pending(
                        service,
                        root,
                        StartPhase::Settling { pid },
                        Effect::Settle { seconds },
                    )
                },
                _ => {
                    let detail = observation.detail();
                    failed(ErrorKind::LaunchError, launch_text(service, detail.as_str()))
                },
            }
        },
        StartPhase::Settling { pid } => {
            if observation.is_done() {
                let command = socket_table_command_line();
                start_pending(
                    service,
                    root,
                    StartPhase::Probing { pid },
                    Effect::Capture { command },
                )
            } else {
                failed(ErrorKind::NotReady, unverified_text(service))
            }
        },
        StartPhase::Probing { pid } => {
            match observation {
                Observation::Text(table) => {
                    if is_listening(table.as_str(), service.port()) {
                        let accepted = registry.set(service, true, Some(pid));
                        assert(accepted);
                        Progress::Finished { outcome: Ok(true) }
                    } else {
                        failed(ErrorKind::NotReady, not_listening_text(service))
                    }
                },
                _ => failed(ErrorKind::NotReady, unverified_text(service)),
            }
        },
        _ => {
            assert(false);
            failed(ErrorKind::NotReady, unverified_text(service))
        },
    }
}

impl Operation {
    /// Begins a start of `service`, installed at `root`: the binary is
    /// looked for first.
    pub fn start(service: ServiceName, root: &str) -> (progress: Progress)
        ensures
            progress@ == start_task(service, root@),
    {
        let path = binary_path(root, service);
        start_pending(
            service,
            String::from_str(root),
            StartPhase::ProbingBinary,
            Effect::ProbePath { path },
        )
    }

    /// Begins a stop of `service`: the process that the registry names is
    /// to be terminated. A service without one does not run, and the stop
    /// fails at once.
    pub fn stop(registry: &ServiceStateRegistry, service: ServiceName) -> (progress: Progress)
        ensures
            progress@ == stop_task(registry@, service, true),
    {
        Self::stop_reporting(registry, service, true)
    }

    /// Begins a toggle of `service`: a stop if the registry says that it
    /// runs, else a start.
    pub fn toggle(registry: &ServiceStateRegistry, service: ServiceName, root: &str) -> (progress:
        Progress)
        ensures
            progress@ == toggle_task(registry@, service, root@),
    {
        if registry.get(service).running {
            Self::stop_reporting(registry, service, false)
        } else {
            Self::start(service, root)
        }
    }

    /// Begins a stop of `service` that says `report` if it succeeds.
    fn stop_reporting(registry: &ServiceStateRegistry, service: ServiceName, report: bool) -> (progress:
        Progress)
        ensures
            progress@ == stop_task(registry@, service, report),
    {
        match registry.get(service).process_handle {
            Some(pid) => {
                let command = termination_command_line(pid);
                Progress::Pending {
                    operation: Operation { stage: Stage::Stop { service, report } },
                    effect: Effect::Run { command },
                }
            },
            None => failed(ErrorKind::NotRunning, not_running_text(service)),
        }
    }

    /// Takes the observation of the effect that the operation asked for
    /// last, and says how the operation goes on. The registry is written
    /// where a start has seen its port listening and where a stop has
    /// terminated its process, and nowhere else.
    pub fn advance(self, registry: &mut ServiceStateRegistry, observation: Observation) -> (progress:
        Progress)
        ensures
            progress@ == next(self@, old(registry)@, observation@).step,
            final(registry)@ == next(self@, old(registry)@, observation@).registry,
    {
        match self.stage {
            Stage::Start { service, root, phase } => {
                if Self::before_launch(phase) {
                    advance_preparation(service, root, phase, observation)
                } else {
                    advance_launch(service, root, phase, registry, observation)
                }
            },
            Stage::Stop { service, report } => {
                if observation.is_done() {
                    registry.clear(service);
                    Progress::Finished { outcome: Ok(report) }
                } else {
                    let detail = observation.detail();
                    failed(ErrorKind::TerminationError, termination_text(service, detail.as_str()))
                }
            },
        }
    }

    /// The service that the operation is about.
    pub fn service(&self) -> (service: ServiceName)
        ensures
            service == self@.service(),
    {
        match &self.stage {
            Stage::Start { service, .. } => *service,
            Stage::Stop { service, .. } => *service,
        }
    }

    /// The state in which the service is while the operation is under
    /// way.
    pub fn state(&self) -> (state: ServiceState)
        ensures
            state == self@.state(),
    {
        match &self.stage {
            Stage::Start { .. } => ServiceState::Starting,
            Stage::Stop { .. } => ServiceState::Stopping,
        }
    }

    /// Whether a start in `phase` has yet to ask for its process.
    fn before_launch(phase: StartPhase) -> (before: bool)
        ensures
            before == (phase.rank() <= 6),
    {
        match phase {
            StartPhase::Launching => false,
            StartPhase::Settling { .. } => false,
            StartPhase::Probing { .. } => false,
            _ => true,
        }
    }
}

/// The status of a service, as contracts speak of it.
pub struct Status {
    pub running: bool,
    pub pid: Option<u32>,
    pub port: Option<u16>,
    pub version: Option<Seq<char>>,
}

/// The status of a service.
#[derive(Debug, PartialEq, Eq)]
pub struct ServiceInfo {
    /// Whether the registry says that the service runs.
    pub running: bool,
    /// The identifier of the service's process, if it runs.
    pub pid: Option<u32>,
    /// The port on which the service listens when it runs.
    pub port: Option<u16>,
    /// The version that the installed binary reports, if it reports one.
    pub version: Option<String>,
}

impl View for ServiceInfo {
    type V = Status;

    open spec fn view(&self) -> Status {
        Status {
            running: self.running,
            pid: self.pid,
            port: self.port,
            version: text_of(self.version),
        }
    }
}

/// The status of `service`, given the registry and the banner that the
/// installed binary printed, if it is there and could be made to print
/// one. The version does not depend on whether the service runs.
pub open spec fn status(registry: RegistryState, service: ServiceName, banner: Option<Seq<char>>)
    -> Status {
    Status {
        running: registry[service].running,
        pid: if registry[service].running {
            registry[service].process_handle
        } else {
            None
        },
        port: Some(service.spec_port()),
        version: reported_version(service, banner),
    }
}

/// The status of `service`. It is an answer also where the service is not
/// installed: then nothing runs and no version is known.
pub fn service_status(registry: &ServiceStateRegistry, service: ServiceName, banner: Option<&str>)
    -> (info: ServiceInfo)
    ensures
        info@ == status(registry@, service, slice_text_of(banner)),
{
    let record = registry.get(service);
    ServiceInfo {
        running: record.running,
        pid: if record.running {
            record.process_handle
        } else {
            None
        },
        port: Some(service.port()),
        version: service_version(service, banner),
    }
}

/// A start that has seen its port listening, followed at once by a stop
/// whose termination succeeds, leaves the service recorded as not running
/// and without a process handle.
pub proof fn law_stop_after_start(
    service: ServiceName,
    root: Seq<char>,
    pid: u32,
    registry: RegistryState,
    table: Seq<char>,
)
    requires
        valid_state(registry),
        port_listening(table, service.spec_port()),
    ensures
        ({
            let started = next(
                Task::Start { service, root, phase: StartPhase::Probing { pid } },
                registry,
                Answer::Text(table),
            );
            let stopping = stop_task(started.registry, service, true);
            &&& started.step == Step::Finished { outcome: Ok(true) }
            &&& started.registry[service] == ServiceRecord::spec_started(pid)
            &&& stopping == Step::Pending {
                task: Task::Stop { service, report: true },
                request: Request::Run { command: termination_command(pid) },
            }
            &&& next(stopping->task, started.registry, Answer::Done).step == Step::Finished {
                outcome: Ok(true),
            }
            &&& next(stopping->task, started.registry, Answer::Done).registry[service]
                == ServiceRecord::spec_stopped()
            &&& valid_state(next(stopping->task, started.registry, Answer::Done).registry)
        }),
{
}

/// A start writes to the registry only where it has read a socket table
/// in which the port of the service shows, and only there does it
/// succeed. On every other answer, in every phase, the registry stays as
/// it was.
pub proof fn law_start_needs_listening_port(
    service: ServiceName,
    root: Seq<char>,
    phase: StartPhase,
    registry: RegistryState,
    answer: Answer,
)
    ensures
        ({
            let after = next(Task::Start { service, root, phase }, registry, answer);
            let listening = phase is Probing && answer is Text && port_listening(
                answer->Text_0,
                service.spec_port(),
            );
            &&& !listening ==> after.registry == registry
            &&& listening <==> after.step == Step::Finished { outcome: Ok(true) }
            &&& listening ==> after.registry == registry.insert(
                service,
                ServiceRecord::spec_started(phase->Probing_pid),
            )
            &&& after.step matches Step::Finished { outcome: Ok(flag) } ==> flag && listening
        }),
{
}

/// A step keeps a valid registry valid, and writes no record but that of
/// the operation's own service.
pub proof fn law_steps_keep_registry_valid(task: Task, registry: RegistryState, answer: Answer)
    requires
        valid_state(registry),
    ensures
        valid_state(next(task, registry, answer).registry),
        forall|other: ServiceName|
            other != task.service() ==> next(task, registry, answer).registry[other]
                == registry[other],
        next(task, registry, answer).step matches Step::Pending { task: later, .. }
            ==> later.service() == task.service() && later.state() == task.state(),
        next(task, registry, answer).step == (Step::Finished { outcome: Ok(true) })
            ==> recorded_state(next(task, registry, answer).registry[task.service()]) == (
        match task {
            Task::Start { .. } => ServiceState::Running,
            Task::Stop { .. } => ServiceState::Stopped,
        }),
{
    let after = next(task, registry, answer).registry;
    assert forall|name: ServiceName|
        #![trigger after[name]]
        #![trigger after.dom().contains(name)]
        after.dom().contains(name) && after[name].consistent() by {
        assert(registry.dom().contains(name) && registry[name].consistent());
    }
}

/// A toggle of a service that does not run is one start; a toggle of a
/// service that runs is one stop, of the process that the registry names.
pub proof fn law_toggle_is_one_operation(
    registry: RegistryState,
    service: ServiceName,
    root: Seq<char>,
)
    requires
        valid_state(registry),
    ensures
        !registry[service].running ==> toggle_task(registry, service, root) == start_task(
            service,
            root,
        ),
        registry[service].running ==> toggle_task(registry, service, root) == (Step::Pending {
            task: Task::Stop { service, report: false },
            request: Request::Run {
                command: termination_command(registry[service].process_handle->Some_0),
            },
        }),
{
    assert(registry.dom().contains(service) && registry[service].consistent());
}

/// An operation goes forward only. A start that goes on stays a start of
/// the same service at the same root, in a later phase; it asks for its
/// process exactly where it enters the launching phase, which it
/// therefore does at most once. A stop takes one step and is over.
pub proof fn law_steps_go_forward(task: Task, registry: RegistryState, answer: Answer)
    ensures
        match task {
            Task::Start { service, root, phase } => match next(task, registry, answer).step {
                Step::Pending { task: Task::Start { service: s, root: r, phase: later }, request } => {
                    &&& s == service
                    &&& r == root
                    &&& later.rank() > phase.rank()
                    &&& request is Spawn <==> later is Launching
                },
                Step::Pending { task: Task::Stop { .. }, .. } => false,
                Step::Finished { .. } => true,
            },
            Task::Stop { .. } => next(task, registry, answer).step is Finished,
        },
{
}

/// The default configuration is written only where the start has been
/// told that no configuration file exists. A start that is told that one
/// exists goes on without asking to write anything.
pub proof fn law_config_written_only_when_absent(
    service: ServiceName,
    root: Seq<char>,
    phase: StartPhase,
    registry: RegistryState,
    answer: Answer,
)
    ensures
        ({
            let after = next(Task::Start { service, root, phase }, registry, answer);
            &&& (after.step matches Step::Pending { request, .. } && request.changes_disk()) ==> {
                &&& phase == StartPhase::ProbingConfig
                &&& answer == Answer::Present(false)
                &&& after.step->request == Request::WriteFile {
                    directory: config_directory(root),
                    path: config_file(root, service),
                    content: default_config(root, service),
                }
            }
            &&& (phase == StartPhase::ProbingConfig && answer == Answer::Present(true))
                ==> after.step is Pending && !after.step->request.changes_disk()
        }),
{
}

} // verus!
