//! The runtime version manager: which versions of the interpreter are
//! installed side by side, which of them is active, and the switch from
//! one to another.
//!
//! The active version is the one that the indirection `php/current` stands
//! for. A switch removes the indirection, sets it anew and then brings the
//! web server's configuration up to date: it reads the configuration,
//! replaces every reference to the interpreter's module by the reference
//! to the module of the new version, and writes it back. A switch
//! succeeds only where the configuration was written. Nothing is kept of
//! the indirection that was removed: a switch that fails after the
//! removal leaves none in place, and a switch that fails over the
//! configuration leaves the new one in place. The web server takes up
//! the new module when it is started again, which is for the caller to
//! do.

use crate::effect::{Answer, CommandLine, Effect, Invocation, Observation, Request};
use crate::error::{outcome_of, ErrorKind, Failure, Outcome, SupervisorError};
use crate::inspect::{extract_version, runtime_version_marker, version_in};
use crate::layout::{
    config_directory, config_directory_path, config_file, config_file_path, current_runtime,
    current_runtime_binary, current_runtime_binary_path, current_runtime_path, runtime_binary,
    runtime_binary_path, runtime_directory, runtime_directory_path,
};
use crate::lifecycle::{ServiceInfo, Status};
use crate::service::ServiceName;
use crate::reference::{
    contains_no_other_reference, is_tag, law_patched_config_names_no_other_version,
    law_patched_config_names_version, law_references_are_named, module_reference, module_tag,
    names_module, patch_module_reference, patched_config,
};
use crate::text::{concat2, concat3, contains, contains_text, slice_text_of, without_char};
use vstd::prelude::*;
use vstd::string::*;

verus! {

/// The versions that can be installed, in the order in which they are
/// listed.
pub open spec fn candidate_versions() -> Seq<Seq<char>> {
    seq!["8.1"@, "8.2"@, "8.3"@, "8.4"@]
}

/// The version that counts as active where no indirection is set.
pub open spec fn default_version() -> Seq<char> {
    "8.2"@
}

/// The version that counts as active where no indirection is set.
pub fn default_version_text() -> (version: &'static str)
    ensures
        version@ == default_version(),
{
    "8.2"
}

/// The versions that can be installed.
pub fn candidates() -> (versions: Vec<&'static str>)
    ensures
        versions@.len() == candidate_versions().len(),
        forall|i: int| 0 <= i < versions@.len() ==> versions@[i]@ == candidate_versions()[i],
{
    let mut versions: Vec<&'static str> = Vec::new();
    versions.push("8.1");
    versions.push("8.2");
    versions.push("8.3");
    versions.push("8.4");
    versions
}

/// The versions that can be installed are written with digits and dots:
/// the tag of each is made of digits, and no two have one tag.
pub proof fn law_candidates_have_tags()
    ensures
        forall|i: int|
            0 <= i < candidate_versions().len() ==> is_tag(
                module_tag(#[trigger] candidate_versions()[i]),
            ),
        forall|i: int, j: int|
            0 <= i < j < candidate_versions().len() ==> module_tag(
                #[trigger] candidate_versions()[i],
            ) != module_tag(#[trigger] candidate_versions()[j]),
{
    reveal_strlit("8.1");
    reveal_strlit("8.2");
    reveal_strlit("8.3");
    reveal_strlit("8.4");
    reveal_with_fuel(without_char, 4);
    assert(module_tag("8.1"@) =~= seq!['8', '1']);
    assert(module_tag("8.2"@) =~= seq!['8', '2']);
    assert(module_tag("8.3"@) =~= seq!['8', '3']);
    assert(module_tag("8.4"@) =~= seq!['8', '4']);
    assert(module_tag("8.1"@)[1] == '1');
    assert(module_tag("8.2"@)[1] == '2');
    assert(module_tag("8.3"@)[1] == '3');
    assert(module_tag("8.4"@)[1] == '4');
}

/// Where the archive of `version` can be had.
pub open spec fn download_url(version: Seq<char>) -> Seq<char> {
    "https://windows.php.net/downloads/releases/php-"@ + version + "-Win32-vs16-x64.zip"@
}

/// Where the archive of `version` can be had.
pub fn download_url_text(version: &str) -> (url: String)
    ensures
        url@ == download_url(version@),
{
    concat3("https://windows.php.net/downloads/releases/php-", version, "-Win32-vs16-x64.zip")
}

/// One version of the interpreter, as contracts speak of it.
pub struct Installation {
    pub version: Seq<char>,
    pub installed: bool,
    pub is_active: bool,
    pub install_path: Seq<char>,
    pub source_url: Seq<char>,
}

/// One version of the interpreter, installed or to be had.
#[derive(Debug, PartialEq, Eq)]
pub struct RuntimeVersionDescriptor {
    /// The version, such as `8.2`.
    pub version: String,
    /// Whether the version's binary is on disk.
    pub installed: bool,
    /// Whether the indirection stands for this version.
    pub is_active: bool,
    /// The version's binary, if it is installed; else empty.
    pub install_path: String,
    /// Where the version's archive can be had.
    pub source_url: String,
}

impl View for RuntimeVersionDescriptor {
    type V = Installation;

    open spec fn view(&self) -> Installation {
        Installation {
            version: self.version@,
            installed: self.installed,
            is_active: self.is_active,
            install_path: self.install_path@,
            source_url: self.source_url@,
        }
    }
}

/// The descriptor of `version` for the installation at `root`, given
/// whether its binary is there and what the indirection stands for, if it
/// is set. A version is active if it is installed and its name stands in
/// the target of the indirection.
pub open spec fn describe(
    root: Seq<char>,
    version: Seq<char>,
    installed: bool,
    current_target: Option<Seq<char>>,
) -> Installation {
    Installation {
        version,
        installed,
        is_active: installed && current_target is Some && contains(
            current_target->Some_0,
            version,
        ),
        install_path: if installed {
            runtime_binary(root, version)
        } else {
            Seq::empty()
        },
        source_url: download_url(version),
    }
}

/// The descriptor of `version` for the installation at `root`.
pub fn describe_version(
    root: &str,
    version: &str,
    installed: bool,
    current_target: Option<&str>,
) -> (descriptor: RuntimeVersionDescriptor)
    ensures
        descriptor@ == describe(root@, version@, installed, slice_text_of(current_target)),
{
    let is_active = installed && match current_target {
        Some(target) => contains_text(target, version),
        None => false,
    };
    RuntimeVersionDescriptor {
        version: String::from_str(version),
        installed,
        is_active,
        install_path: if installed {
            runtime_binary_path(root, version)
        } else {
            String::new()
        },
        source_url: download_url_text(version),
    }
}

/// Whether the candidate at `index` is installed, going by the flags
/// that were found: a candidate without a flag is not.
pub open spec fn flag_at(installed: Seq<bool>, index: int) -> bool {
    0 <= index < installed.len() && installed[index]
}

/// The descriptors of all candidates, in their order, for the
/// installation at `root`. `installed` says of each candidate, in the same
/// order, whether its binary is there.
pub fn enumerate_versions(root: &str, installed: &Vec<bool>, current_target: Option<&str>) -> (
    descriptors: Vec<RuntimeVersionDescriptor>)
    ensures
        descriptors@.len() == candidate_versions().len(),
        forall|i: int|
            0 <= i < descriptors@.len() ==> (#[trigger] descriptors@[i])@ == describe(
                root@,
                candidate_versions()[i],
                flag_at(installed@, i),
                slice_text_of(current_target),
            ),
{
    let versions = candidates();
    let mut descriptors: Vec<RuntimeVersionDescriptor> = Vec::new();
    let mut i: usize = 0;
    while i < versions.len()
        invariant
            i <= versions@.len(),
            versions@.len() == candidate_versions().len(),
            forall|k: int| 0 <= k < versions@.len() ==> versions@[k]@ == candidate_versions()[k],
            descriptors@.len() == i,
            forall|k: int|
                0 <= k < i ==> (#[trigger] descriptors@[k])@ == describe(
                    root@,
                    candidate_versions()[k],
                    flag_at(installed@, k),
                    slice_text_of(current_target),
                ),
        decreases versions@.len() - i,
    {
        let found = i < installed.len() && installed[i];
        let descriptor = describe_version(root, versions[i], found, current_target);
        descriptors.push(descriptor);
        i += 1;
    }
    descriptors
}

/// The status of the interpreter runtime, which is no service and owns no
/// process or port: it counts as running where a version of it is known.
/// Where the indirection leads to no binary, the default version counts
/// if its binary is there. Where it leads to one, the version is what
/// that binary's banner reports.
pub open spec fn runtime_status(
    current_present: bool,
    default_present: bool,
    banner: Option<Seq<char>>,
) -> Status {
    let version = if !current_present {
        if default_present {
            Some(default_version())
        } else {
            None
        }
    } else {
        match banner {
            Some(text) => version_in(text, runtime_version_marker()),
            None => None,
        }
    };
    Status { running: version is Some, pid: None, port: None, version }
}

/// The status of the interpreter runtime.
pub fn runtime_status_info(current_present: bool, default_present: bool, banner: Option<&str>)
    -> (info: ServiceInfo)
    ensures
        info@ == runtime_status(current_present, default_present, slice_text_of(banner)),
{
    let version = if !current_present {
        if default_present {
            Some(String::from_str(default_version_text()))
        } else {
            None
        }
    } else {
        match banner {
            Some(text) => extract_version(text, "PHP "),
            None => None,
        }
    };
    ServiceInfo { running: version.is_some(), pid: None, port: None, version }
}

/// The command that makes the interpreter behind the indirection print
/// its banner.
pub open spec fn runtime_version_command(root: Seq<char>) -> Invocation {
    Invocation { program: current_runtime_binary(root), arguments: seq!["--version"@] }
}

/// The command that makes the interpreter behind the indirection print
/// its banner.
pub fn runtime_version_command_line(root: &str) -> (command: CommandLine)
    ensures
        command@ == runtime_version_command(root@),
{
    let mut arguments: Vec<String> = Vec::new();
    arguments.push(String::from_str("--version"));
    let command = CommandLine { program: current_runtime_binary_path(root), arguments };
    assert(command@.arguments =~= runtime_version_command(root@).arguments);
    command
}

/// The command by which the version of the interpreter behind the
/// indirection is asked for, if there is one: where the indirection leads
/// to no binary, nothing is run.
pub open spec fn runtime_version_query(root: Seq<char>, current_present: bool) -> Option<
    Invocation,
> {
    if current_present {
        Some(runtime_version_command(root))
    } else {
        None
    }
}

/// The command by which the version of the interpreter behind the
/// indirection is asked for, if the indirection leads to a binary.
pub fn runtime_version_query_line(root: &str, current_present: bool) -> (command: Option<
    CommandLine,
>)
    ensures
        command is Some <==> current_present,
        command matches Some(line) ==> line@ == runtime_version_command(root@),
        match command {
            Some(line) => runtime_version_query(root@, current_present) == Some(line@),
            None => runtime_version_query(root@, current_present) is None,
        },
{
    if current_present {
        Some(runtime_version_command_line(root))
    } else {
        None
    }
}

/// The message of a switch to a version that is not installed.
pub open spec fn not_installed_message(version: Seq<char>) -> Seq<char> {
    "PHP "@ + version + " is not installed"@
}

/// The message of a switch that could not set the indirection.
pub open spec fn switch_message(detail: Seq<char>) -> Seq<char> {
    "Failed to switch PHP version: "@ + detail
}

/// The message of a switch that could not bring the web server's
/// configuration up to date.
pub open spec fn config_update_message(detail: Seq<char>) -> Seq<char> {
    "Failed to update the Apache configuration: "@ + detail
}

/// Where a switch stands: what it has asked for and waits to hear of.
#[derive(Clone, Copy, Debug, PartialEq, Eq, Structural)]
pub enum SwitchPhase {
    /// Whether the binary of the version exists.
    ProbingBinary,
    /// Whether an indirection is set.
    ProbingCurrent,
    /// The indirection is being removed.
    RemovingCurrent,
    /// The indirection is being set to the version.
    Linking,
    /// The web server's configuration is being read.
    ReadingConfig,
    /// The web server's configuration is being written.
    WritingConfig,
}

impl SwitchPhase {
    /// The place of the phase in the order of a switch.
    pub open spec fn rank(self) -> nat {
        match self {
            SwitchPhase::ProbingBinary => 0,
            SwitchPhase::ProbingCurrent => 1,
            SwitchPhase::RemovingCurrent => 2,
            SwitchPhase::Linking => 3,
            SwitchPhase::ReadingConfig => 4,
            SwitchPhase::WritingConfig => 5,
        }
    }
}

/// A switch under way, as contracts speak of it.
pub struct SwitchTask {
    pub root: Seq<char>,
    pub version: Seq<char>,
    pub phase: SwitchPhase,
}

/// What a step of a switch comes to, as contracts speak of it.
pub enum SwitchStep {
    /// The switch goes on and asks for `request`.
    Pending { task: SwitchTask, request: Request },
    /// The switch is over.
    Finished { outcome: Outcome },
}

/// The switch goes on in `phase` and asks for `request`.
pub open spec fn switch_goes_on(task: SwitchTask, phase: SwitchPhase, request: Request)
    -> SwitchStep {
    SwitchStep::Pending {
        task: SwitchTask { root: task.root, version: task.version, phase },
        request,
    }
}

/// The switch fails.
pub open spec fn switch_fails(kind: ErrorKind, message: Seq<char>) -> SwitchStep {
    SwitchStep::Finished { outcome: Err(Failure { kind, message }) }
}

/// The step of a switch that is ready to set the indirection.
pub open spec fn switch_links(task: SwitchTask) -> SwitchStep {
    switch_goes_on(
        task,
        SwitchPhase::Linking,
        Request::LinkDirectory {
            link: current_runtime(task.root),
            target: runtime_directory(task.root, task.version),
        },
    )
}

/// The first step of a switch to `version` of the installation at `root`.
pub open spec fn switch_task(root: Seq<char>, version: Seq<char>) -> SwitchStep {
    SwitchStep::Pending {
        task: SwitchTask { root, version, phase: SwitchPhase::ProbingBinary },
        request: Request::ProbePath { path: runtime_binary(root, version) },
    }
}

/// The step that the switch `task` takes on `answer`.
pub open spec fn next_switch(task: SwitchTask, answer: Answer) -> SwitchStep {
    let web_config = config_file(task.root, ServiceName::WebServer);
    match task.phase {
        SwitchPhase::ProbingBinary => if answer == Answer::Present(true) {
            switch_goes_on(
                task,
                SwitchPhase::ProbingCurrent,
                Request::ProbePath { path: current_runtime(task.root) },
            )
        } else {
            switch_fails(ErrorKind::NotInstalled, not_installed_message(task.version))
        },
        SwitchPhase::ProbingCurrent => if answer == Answer::Present(true) {
            switch_goes_on(
                task,
                SwitchPhase::RemovingCurrent,
                Request::RemoveDirectory { path: current_runtime(task.root) },
            )
        } else if answer == Answer::Present(false) {
            switch_links(task)
        } else {
            switch_fails(ErrorKind::SwitchError, switch_message(answer.detail()))
        },
        SwitchPhase::RemovingCurrent => if answer == Answer::Done {
            switch_links(task)
        } else {
            switch_fails(ErrorKind::SwitchError, switch_message(answer.detail()))
        },
        SwitchPhase::Linking => if answer == Answer::Done {
            switch_goes_on(task, SwitchPhase::ReadingConfig, Request::ReadFile { path: web_config })
        } else {
            switch_fails(ErrorKind::SwitchError, switch_message(answer.detail()))
        },
        SwitchPhase::ReadingConfig => match answer {
            Answer::Text(config) => switch_goes_on(
                task,
                SwitchPhase::WritingConfig,
                Request::WriteFile {
                    directory: config_directory(task.root),
                    path: web_config,
                    content: patched_config(config, task.version),
                },
            ),
            _ => switch_fails(
                ErrorKind::ConfigUpdateError,
                config_update_message(answer.detail()),
            ),
        },
        SwitchPhase::WritingConfig => if answer == Answer::Done {
            SwitchStep::Finished { outcome: Ok(true) }
        } else {
            switch_fails(ErrorKind::ConfigUpdateError, config_update_message(answer.detail()))
        },
    }
}

/// A switch of the active runtime version under way. It is made by
/// `begin` and goes on by `advance`, which uses it up. It cannot be
/// copied: no step of a switch is taken twice.
#[derive(Debug, PartialEq, Eq)]
pub struct Switch {
    root: String,
    version: String,
    phase: SwitchPhase,
}

impl View for Switch {
    type V = SwitchTask;

    closed spec fn view(&self) -> SwitchTask {
        SwitchTask { root: self.root@, version: self.version@, phase: self.phase }
    }
}

/// What a step of a switch comes to.
#[derive(Debug, PartialEq, Eq)]
pub enum SwitchProgress {
    /// The switch goes on: carry out `effect` and hand what was observed
    /// to `switch`.
    Pending { switch: Switch, effect: Effect },
    /// The switch is over.
    Finished { outcome: Result<bool, SupervisorError> },
}

impl View for SwitchProgress {
    type V = SwitchStep;

    open spec fn view(&self) -> SwitchStep {
        match self {
            SwitchProgress::Pending { switch, effect } => SwitchStep::Pending {
                task: switch@,
                request: effect@,
            },
            SwitchProgress::Finished { outcome } => SwitchStep::Finished {
                outcome: outcome_of(*outcome),
            },
        }
    }
}

/// The switch is over with a failure.
fn switch_failed(kind: ErrorKind, message: String) -> (progress: SwitchProgress)
    ensures
        progress@ == switch_fails(kind, message@),
{
    SwitchProgress::Finished { outcome: Err(SupervisorError::new(kind, message)) }
}

impl Switch {
    /// Begins a switch to `version` of the installation at `root`: the
    /// binary of the version is looked for first.
    pub fn begin(root: &str, version: &str) -> (progress: SwitchProgress)
        ensures
            progress@ == switch_task(root@, version@),
    {
        let path = runtime_binary_path(root, version);
        SwitchProgress::Pending {
            switch: Switch {
                root: String::from_str(root),
                version: String::from_str(version),
                phase: SwitchPhase::ProbingBinary,
            },
            effect: Effect::ProbePath { path },
        }
    }

    /// The switch goes on in `phase` and asks for `effect`.
    fn goes_on(self, phase: SwitchPhase, effect: Effect) -> (progress: SwitchProgress)
        ensures
            progress@ == switch_goes_on(self@, phase, effect@),
    {
        SwitchProgress::Pending {
            switch: Switch { root: self.root, version: self.version, phase },
            effect,
        }
    }

    /// The step of a switch that is ready to set the indirection.
    fn links(self) -> (progress: SwitchProgress)
        ensures
            progress@ == switch_links(self@),
    {
        let link = current_runtime_path(self.root.as_str());
        let target = runtime_directory_path(self.root.as_str(), self.version.as_str());
        self.goes_on(SwitchPhase::Linking, Effect::LinkDirectory { link, target })
    }

    /// Takes the observation of the effect that the switch asked for last,
    /// and says how the switch goes on.
    pub fn advance(self, observation: Observation) -> (progress: SwitchProgress)
        ensures
            progress@ == next_switch(self@, observation@),
    {
        match self.phase {
            SwitchPhase::ProbingBinary => {
                if observation.affirms() {
                    let path = current_runtime_path(self.root.as_str());
                    self.goes_on(SwitchPhase::ProbingCurrent, Effect::ProbePath { path })
                } else {
                    switch_failed(
                        ErrorKind::NotInstalled,
                        concat3("PHP ", self.version.as_str(), " is not installed"),
                    )
                }
            },
            SwitchPhase::ProbingCurrent => {
                if observation.affirms() {
                    let path = current_runtime_path(self.root.as_str());
                    self.goes_on(SwitchPhase::RemovingCurrent, Effect::RemoveDirectory { path })
                } else if observation.denies() {
                    self.links()
                } else {
                    Self::not_switched(&observation)
                }
            },
            SwitchPhase::RemovingCurrent => {
                if observation.is_done() {
                    self.links()
                } else {
                    Self::not_switched(&observation)
                }
            },
            SwitchPhase::Linking => {
                if observation.is_done() {
                    let path = config_file_path(self.root.as_str(), ServiceName::WebServer);
                    self.goes_on(SwitchPhase::ReadingConfig, Effect::ReadFile { path })
                } else {
                    Self::not_switched(&observation)
                }
            },
            SwitchPhase::ReadingConfig => {
                match observation {
                    Observation::Text(config) => {
                        let directory = config_directory_path(self.root.as_str());
                        let path = config_file_path(self.root.as_str(), ServiceName::WebServer);
                        let content = patch_module_reference(
                            config.as_str(),
                            self.version.as_str(),
                        );
                        self.goes_on(
                            SwitchPhase::WritingConfig,
                            Effect::WriteFile { directory, path, content },
                        )
                    },
                    _ => Self::not_updated(&observation),
                }
            },
            SwitchPhase::WritingConfig => {
                if observation.is_done() {
                    SwitchProgress::Finished { outcome: Ok(true) }
                } else {
                    Self::not_updated(&observation)
                }
            },
        }
    }

    /// The switch is over: the indirection could not be set.
    fn not_switched(observation: &Observation) -> (progress: SwitchProgress)
        ensures
            progress@ == switch_fails(ErrorKind::SwitchError, switch_message(observation@.detail())),
    {
        let detail = observation.detail();
        switch_failed(
            ErrorKind::SwitchError,
            concat2("Failed to switch PHP version: ", detail.as_str()),
        )
    }

    /// The switch is over: the web server's configuration could not be
    /// brought up to date.
    fn not_updated(observation: &Observation) -> (progress: SwitchProgress)
        ensures
            progress@ == switch_fails(
                ErrorKind::ConfigUpdateError,
                config_update_message(observation@.detail()),
            ),
    {
        let detail = observation.detail();
        switch_failed(
            ErrorKind::ConfigUpdateError,
            concat2("Failed to update the Apache configuration: ", detail.as_str()),
        )
    }
}

/// A switch to a version whose binary is not found fails as not
/// installed, and has asked for nothing that changes what is on disk: its
/// one request was to look for the binary.
pub proof fn law_uninstalled_switch_changes_nothing(
    root: Seq<char>,
    version: Seq<char>,
    answer: Answer,
)
    requires
        answer != Answer::Present(true),
    ensures
        switch_task(root, version) is Pending,
        !switch_task(root, version)->request.changes_disk(),
        next_switch(switch_task(root, version)->task, answer) == switch_fails(
            ErrorKind::NotInstalled,
            not_installed_message(version),
        ),
{
}

/// A switch goes forward only: a switch that goes on stays a switch to
/// the same version at the same root, in a later phase. It asks to set
/// the indirection exactly where it enters the linking phase, and then it
/// asks for the indirection of this root to stand for the directory of
/// this version. It asks to remove nothing but that indirection, and to
/// write nothing but the web server's configuration.
pub proof fn law_switch_goes_forward(task: SwitchTask, answer: Answer)
    ensures
        match next_switch(task, answer) {
            SwitchStep::Pending { task: later, request } => {
                &&& later.root == task.root
                &&& later.version == task.version
                &&& later.phase.rank() > task.phase.rank()
                &&& request is LinkDirectory <==> later.phase is Linking
                &&& request is LinkDirectory ==> request == Request::LinkDirectory {
                    link: current_runtime(task.root),
                    target: runtime_directory(task.root, task.version),
                }
                &&& request is RemoveDirectory ==> request == Request::RemoveDirectory {
                    path: current_runtime(task.root),
                }
                &&& request is WriteFile ==> request->WriteFile_path == config_file(
                    task.root,
                    ServiceName::WebServer,
                )
            },
            SwitchStep::Finished { .. } => true,
        },
{
}

/// A switch succeeds only where the web server's configuration was
/// written: the one step that ends a switch with success is the answer
/// that the write was done. A configuration that is not there, or that
/// cannot be read or written, fails the switch; the indirection, which was
/// set before, stays.
pub proof fn law_switch_succeeds_after_writing(task: SwitchTask, answer: Answer)
    ensures
        next_switch(task, answer) == (SwitchStep::Finished { outcome: Ok(true) }) <==> (task.phase
            is WritingConfig && answer == Answer::Done),
        next_switch(task, answer) matches SwitchStep::Finished { outcome: Ok(flag) } ==> flag,
        (task.phase is Linking && answer == Answer::Done) ==> next_switch(task, answer) == (
        SwitchStep::Pending {
            task: SwitchTask {
                root: task.root,
                version: task.version,
                phase: SwitchPhase::ReadingConfig,
            },
            request: Request::ReadFile { path: config_file(task.root, ServiceName::WebServer) },
        }),
        (task.phase is ReadingConfig && !(answer is Text)) ==> next_switch(task, answer)
            == switch_fails(ErrorKind::ConfigUpdateError, config_update_message(answer.detail())),
        (task.phase is WritingConfig && answer != Answer::Done) ==> next_switch(task, answer)
            == switch_fails(ErrorKind::ConfigUpdateError, config_update_message(answer.detail())),
{
}

/// A switch after a switch: where the configuration names the module of
/// one version, as a switch to it left it, a switch to another version
/// asks to write a configuration that names the module of the new version
/// and no longer that of the old one. Both versions are written with
/// digits and dots.
pub proof fn law_switch_after_switch(task: SwitchTask, earlier: Seq<char>, config: Seq<char>)
    requires
        task.phase is ReadingConfig,
        is_tag(module_tag(task.version)),
        is_tag(module_tag(earlier)),
        module_tag(earlier) != module_tag(task.version),
        contains(config, module_reference(earlier)),
    ensures
        next_switch(task, Answer::Text(config)) matches SwitchStep::Pending { request, .. }
            && request matches Request::WriteFile { content, .. } && {
            &&& content == patched_config(config, task.version)
            &&& contains(content, module_reference(task.version))
            &&& contains(content, module_tag(task.version))
            &&& !contains(content, module_reference(earlier))
        },
{
    law_references_are_named(config, earlier);
    law_switch_writes_patched_config(task, config);
}

/// What a switch asks to write is the configuration that it read, with
/// its module references rewritten. Where that configuration names the
/// interpreter's module, as shipped or as an earlier switch left it, what
/// is written names the module of the new version and holds the version
/// without its dots. Where the new version is written with digits and
/// dots, what is written names the module of no other such version.
pub proof fn law_switch_writes_patched_config(task: SwitchTask, config: Seq<char>)
    requires
        task.phase is ReadingConfig,
    ensures
        next_switch(task, Answer::Text(config)) == (SwitchStep::Pending {
            task: SwitchTask {
                root: task.root,
                version: task.version,
                phase: SwitchPhase::WritingConfig,
            },
            request: Request::WriteFile {
                directory: config_directory(task.root),
                path: config_file(task.root, ServiceName::WebServer),
                content: patched_config(config, task.version),
            },
        }),
        names_module(config) ==> contains(
            patched_config(config, task.version),
            module_reference(task.version),
        ) && contains(patched_config(config, task.version), module_tag(task.version)),
        is_tag(module_tag(task.version)) ==> contains_no_other_reference(
            patched_config(config, task.version),
            task.version,
        ),
{
    if names_module(config) {
        law_patched_config_names_version(config, task.version);
    }
    if is_tag(module_tag(task.version)) {
        law_patched_config_names_no_other_version(config, task.version);
    }
}

} // verus!
