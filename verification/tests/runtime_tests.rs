use devstackbox::effect::{CommandLine, Effect, Observation};
use devstackbox::error::{ErrorKind, SupervisorError};
use devstackbox::lifecycle::ServiceInfo;
use devstackbox::reference::{module_reference_text, module_tag_text, patch_module_reference};
use devstackbox::runtime::{
    candidates, describe_version, download_url_text, enumerate_versions, runtime_status_info,
    runtime_version_query_line, RuntimeVersionDescriptor, Switch, SwitchProgress,
};

const ROOT: &str = "C:/DevStackBox";

fn probe(path: &str) -> Effect {
    Effect::ProbePath { path: path.to_string() }
}

fn failure(kind: ErrorKind, message: &str) -> Result<bool, SupervisorError> {
    Err(SupervisorError { kind, message: message.to_string() })
}

fn run(
    first: SwitchProgress,
    observations: Vec<Observation>,
) -> (Vec<Effect>, Result<bool, SupervisorError>) {
    let mut effects = Vec::new();
    let mut progress = first;
    let mut observations = observations.into_iter();
    loop {
        match progress {
            SwitchProgress::Finished { outcome } => {
                assert!(observations.next().is_none());
                return (effects, outcome);
            }
            SwitchProgress::Pending { switch, effect } => {
                effects.push(effect);
                let observation = match observations.next() {
                    Some(observation) => observation,
                    None => panic!("the switch asks for more than was expected"),
                };
                progress = switch.advance(observation);
            }
        }
    }
}

fn changes_disk(effect: &Effect) -> bool {
    matches!(
        effect,
        Effect::WriteFile { .. } | Effect::RemoveDirectory { .. } | Effect::LinkDirectory { .. }
    )
}

#[test]
fn candidates_are_fixed() {
    assert_eq!(candidates(), vec!["8.1", "8.2", "8.3", "8.4"]);
}

#[test]
fn download_url() {
    assert_eq!(
        download_url_text("8.3"),
        "https://windows.php.net/downloads/releases/php-8.3-Win32-vs16-x64.zip"
    );
}

#[test]
fn module_tag_strips_separators() {
    assert_eq!(module_tag_text("8.2"), "82");
    assert_eq!(module_tag_text("8.3"), "83");
    assert_eq!(module_tag_text("8.3.1"), "831");
    assert_eq!(module_tag_text("83"), "83");
    assert_eq!(module_tag_text(""), "");
}

#[test]
fn module_reference() {
    assert_eq!(module_reference_text("8.2"), "php/current/php82apache2_4.dll");
}

#[test]
fn patch_rewrites_the_shipped_reference() {
    let config = "Listen 80\nLoadModule php_module \"php/php8apache2_4.dll\"\nPHPIniDir \"php\"\n";
    let patched = patch_module_reference(config, "8.3");
    assert_eq!(
        patched,
        "Listen 80\nLoadModule php_module \"php/current/php83apache2_4.dll\"\nPHPIniDir \"php\"\n"
    );
    assert!(patched.contains("83"));
}

#[test]
fn patch_rewrites_the_reference_of_an_earlier_switch() {
    let config = "Listen 80\nLoadModule php_module \"php/current/php82apache2_4.dll\"\n";
    let patched = patch_module_reference(config, "8.3");
    assert_eq!(patched, "Listen 80\nLoadModule php_module \"php/current/php83apache2_4.dll\"\n");
    assert!(patched.contains("83"));
    assert!(!patched.contains("php82"));
    assert!(!patched.contains("php/current/php82apache2_4.dll"));
}

#[test]
fn patch_after_patch_names_the_last_version_only() {
    let shipped = "LoadModule php_module \"php/php8apache2_4.dll\"\n";
    let first = patch_module_reference(shipped, "8.2");
    assert_eq!(first, "LoadModule php_module \"php/current/php82apache2_4.dll\"\n");
    let second = patch_module_reference(&first, "8.3");
    assert_eq!(second, "LoadModule php_module \"php/current/php83apache2_4.dll\"\n");
    let third = patch_module_reference(&second, "8.10");
    assert_eq!(third, "LoadModule php_module \"php/current/php810apache2_4.dll\"\n");
    let back = patch_module_reference(&third, "8.1");
    assert_eq!(back, "LoadModule php_module \"php/current/php81apache2_4.dll\"\n");
    assert_eq!(patch_module_reference(&back, "8.1"), back);
}

#[test]
fn patch_rewrites_every_reference() {
    let config = "a php/php8apache2_4.dll b php/current/php81apache2_4.dll c php/current/phpapache2_4.dll d";
    assert_eq!(
        patch_module_reference(config, "8.4"),
        "a php/current/php84apache2_4.dll b php/current/php84apache2_4.dll c php/current/php84apache2_4.dll d"
    );
}

#[test]
fn patch_keeps_the_text_around_a_reference() {
    assert_eq!(
        patch_module_reference("php/current/php/php8apache2_4.dllphp", "8.3"),
        "php/current/php/current/php83apache2_4.dllphp"
    );
    assert_eq!(
        patch_module_reference("xphp/current/php82apache2_4.dll", "8.3"),
        "xphp/current/php83apache2_4.dll"
    );
}

#[test]
fn patch_leaves_other_configuration_alone() {
    for config in [
        "",
        "Listen 80\nServerName localhost:80\n",
        "php/current/php82apache2_4.dl",
        "php/current/php8.2apache2_4.dll",
        "php/current/php82 apache2_4.dll",
        "php/php7apache2_4.dll",
        "php/current/php",
        "apache2_4.dll",
    ] {
        assert_eq!(patch_module_reference(config, "8.3"), config);
    }
}

#[test]
fn describe_installed_and_active() {
    assert_eq!(
        describe_version(ROOT, "8.2", true, Some("C:/DevStackBox/php/8.2")),
        RuntimeVersionDescriptor {
            version: "8.2".to_string(),
            installed: true,
            is_active: true,
            install_path: "C:/DevStackBox/php/8.2/php.exe".to_string(),
            source_url: "https://windows.php.net/downloads/releases/php-8.2-Win32-vs16-x64.zip".to_string(),
        }
    );
}

#[test]
fn describe_installed_and_inactive() {
    let other = describe_version(ROOT, "8.3", true, Some("C:/DevStackBox/php/8.2"));
    assert!(other.installed);
    assert!(!other.is_active);
    assert_eq!(other.install_path, "C:/DevStackBox/php/8.3/php.exe");
    let unset = describe_version(ROOT, "8.3", true, None);
    assert!(unset.installed);
    assert!(!unset.is_active);
}

#[test]
fn describe_not_installed() {
    assert_eq!(
        describe_version(ROOT, "8.4", false, Some("C:/DevStackBox/php/8.4")),
        RuntimeVersionDescriptor {
            version: "8.4".to_string(),
            installed: false,
            is_active: false,
            install_path: String::new(),
            source_url: "https://windows.php.net/downloads/releases/php-8.4-Win32-vs16-x64.zip".to_string(),
        }
    );
}

#[test]
fn enumerate_gives_one_descriptor_per_candidate() {
    let installed = vec![false, true, true, false];
    let descriptors = enumerate_versions(ROOT, &installed, Some("php\\8.3"));
    assert_eq!(descriptors.len(), 4);
    let versions: Vec<&str> = descriptors.iter().map(|d| d.version.as_str()).collect();
    assert_eq!(versions, vec!["8.1", "8.2", "8.3", "8.4"]);
    let found: Vec<bool> = descriptors.iter().map(|d| d.installed).collect();
    assert_eq!(found, installed);
    let active: Vec<bool> = descriptors.iter().map(|d| d.is_active).collect();
    assert_eq!(active, vec![false, false, true, false]);
    for descriptor in &descriptors {
        assert_eq!(
            *descriptor,
            describe_version(ROOT, &descriptor.version, descriptor.installed, Some("php\\8.3"))
        );
    }
}

#[test]
fn enumerate_takes_missing_flags_as_not_installed() {
    let descriptors = enumerate_versions(ROOT, &vec![true], None);
    assert_eq!(descriptors.len(), 4);
    assert!(descriptors[0].installed);
    assert!(!descriptors[1].installed);
    assert!(!descriptors[2].installed);
    assert!(!descriptors[3].installed);
    let more = enumerate_versions(ROOT, &vec![true, true, true, true, true, true], None);
    assert_eq!(more.len(), 4);
}

#[test]
fn runtime_status() {
    assert_eq!(
        runtime_status_info(false, false, None),
        ServiceInfo { running: false, pid: None, port: None, version: None }
    );
    assert_eq!(
        runtime_status_info(false, true, None),
        ServiceInfo { running: true, pid: None, port: None, version: Some("8.2".to_string()) }
    );
    assert_eq!(
        runtime_status_info(true, true, Some("PHP 8.3.1 (cli) (built: Dec 2023)")),
        ServiceInfo { running: true, pid: None, port: None, version: Some("8.3.1".to_string()) }
    );
    assert_eq!(
        runtime_status_info(true, true, Some("unexpected output")),
        ServiceInfo { running: false, pid: None, port: None, version: None }
    );
    assert_eq!(
        runtime_status_info(true, false, None),
        ServiceInfo { running: false, pid: None, port: None, version: None }
    );
}

#[test]
fn switch_to_uninstalled_version_changes_nothing() {
    let (effects, outcome) = run(Switch::begin(ROOT, "8.4"), vec![Observation::Present(false)]);
    assert_eq!(outcome, failure(ErrorKind::NotInstalled, "PHP 8.4 is not installed"));
    assert_eq!(effects, vec![probe("C:/DevStackBox/php/8.4/php.exe")]);
    for effect in &effects {
        assert!(!changes_disk(effect));
    }
}

#[test]
fn switch_to_installed_version() {
    let config = "LoadModule php_module \"php/php8apache2_4.dll\"\n".to_string();
    let (effects, outcome) = run(
        Switch::begin(ROOT, "8.3"),
        vec![
            Observation::Present(true),
            Observation::Present(true),
            Observation::Done,
            Observation::Done,
            Observation::Text(config),
            Observation::Done,
        ],
    );
    assert_eq!(outcome, Ok(true));
    assert_eq!(
        effects,
        vec![
            probe("C:/DevStackBox/php/8.3/php.exe"),
            probe("C:/DevStackBox/php/current"),
            Effect::RemoveDirectory { path: "C:/DevStackBox/php/current".to_string() },
            Effect::LinkDirectory {
                link: "C:/DevStackBox/php/current".to_string(),
                target: "C:/DevStackBox/php/8.3".to_string(),
            },
            Effect::ReadFile { path: "C:/DevStackBox/config/httpd.conf".to_string() },
            Effect::WriteFile {
                directory: "C:/DevStackBox/config".to_string(),
                path: "C:/DevStackBox/config/httpd.conf".to_string(),
                content: "LoadModule php_module \"php/current/php83apache2_4.dll\"\n".to_string(),
            },
        ]
    );
}

#[test]
fn switch_after_an_earlier_switch_names_the_new_version() {
    let config = "LoadModule php_module \"php/current/php82apache2_4.dll\"\n".to_string();
    let (effects, outcome) = run(
        Switch::begin(ROOT, "8.3"),
        vec![
            Observation::Present(true),
            Observation::Present(true),
            Observation::Done,
            Observation::Done,
            Observation::Text(config),
            Observation::Done,
        ],
    );
    assert_eq!(outcome, Ok(true));
    match effects.last() {
        Some(Effect::WriteFile { content, .. }) => {
            assert_eq!(content, "LoadModule php_module \"php/current/php83apache2_4.dll\"\n");
            assert!(content.contains("83"));
            assert!(!content.contains("php82"));
        }
        _ => panic!("the switch ends with the write of the configuration"),
    }
}

#[test]
fn switch_without_indirection() {
    let (effects, outcome) = run(
        Switch::begin(ROOT, "8.1"),
        vec![
            Observation::Present(true),
            Observation::Present(false),
            Observation::Done,
            Observation::Text("LoadModule php_module \"php/php8apache2_4.dll\"\n".to_string()),
            Observation::Done,
        ],
    );
    assert_eq!(outcome, Ok(true));
    assert_eq!(effects.len(), 5);
    assert_eq!(
        effects[2],
        Effect::LinkDirectory {
            link: "C:/DevStackBox/php/current".to_string(),
            target: "C:/DevStackBox/php/8.1".to_string(),
        }
    );
    for effect in &effects {
        assert!(!matches!(effect, Effect::RemoveDirectory { .. }));
    }
}

#[test]
fn switch_fails_when_config_is_absent() {
    let (effects, outcome) = run(
        Switch::begin(ROOT, "8.1"),
        vec![
            Observation::Present(true),
            Observation::Present(false),
            Observation::Done,
            Observation::Failed("The system cannot find the file specified.".to_string()),
        ],
    );
    assert_eq!(
        outcome,
        failure(
            ErrorKind::ConfigUpdateError,
            "Failed to update the Apache configuration: The system cannot find the file specified."
        )
    );
    assert_eq!(
        effects,
        vec![
            probe("C:/DevStackBox/php/8.1/php.exe"),
            probe("C:/DevStackBox/php/current"),
            Effect::LinkDirectory {
                link: "C:/DevStackBox/php/current".to_string(),
                target: "C:/DevStackBox/php/8.1".to_string(),
            },
            Effect::ReadFile { path: "C:/DevStackBox/config/httpd.conf".to_string() },
        ]
    );
}

#[test]
fn switch_does_not_take_a_probe_for_the_config() {
    for observation in [Observation::Present(false), Observation::Present(true), Observation::Done] {
        let (_, outcome) = run(
            Switch::begin(ROOT, "8.1"),
            vec![
                Observation::Present(true),
                Observation::Present(false),
                Observation::Done,
                observation,
            ],
        );
        assert_eq!(
            outcome,
            failure(ErrorKind::ConfigUpdateError, "Failed to update the Apache configuration: ")
        );
    }
}

#[test]
fn switch_fails_when_indirection_cannot_be_removed() {
    let (effects, outcome) = run(
        Switch::begin(ROOT, "8.3"),
        vec![
            Observation::Present(true),
            Observation::Present(true),
            Observation::Failed("in use".to_string()),
        ],
    );
    assert_eq!(outcome, failure(ErrorKind::SwitchError, "Failed to switch PHP version: in use"));
    for effect in &effects {
        assert!(!matches!(effect, Effect::LinkDirectory { .. }));
    }
}

#[test]
fn switch_fails_when_indirection_cannot_be_set() {
    let (effects, outcome) = run(
        Switch::begin(ROOT, "8.3"),
        vec![
            Observation::Present(true),
            Observation::Present(true),
            Observation::Done,
            Observation::Failed("privilege not held".to_string()),
        ],
    );
    assert_eq!(
        outcome,
        failure(ErrorKind::SwitchError, "Failed to switch PHP version: privilege not held")
    );
    assert_eq!(effects.len(), 4);
    for effect in &effects {
        assert!(!matches!(effect, Effect::WriteFile { .. }));
        assert!(!matches!(effect, Effect::ReadFile { .. }));
    }
}

#[test]
fn switch_fails_when_config_cannot_be_read() {
    let (_, outcome) = run(
        Switch::begin(ROOT, "8.3"),
        vec![
            Observation::Present(true),
            Observation::Present(false),
            Observation::Done,
            Observation::Failed("not valid text".to_string()),
        ],
    );
    assert_eq!(
        outcome,
        failure(
            ErrorKind::ConfigUpdateError,
            "Failed to update the Apache configuration: not valid text"
        )
    );
}

#[test]
fn switch_fails_when_config_cannot_be_written() {
    let (_, outcome) = run(
        Switch::begin(ROOT, "8.3"),
        vec![
            Observation::Present(true),
            Observation::Present(false),
            Observation::Done,
            Observation::Text("LoadModule php_module \"php/php8apache2_4.dll\"\n".to_string()),
            Observation::Failed("read-only".to_string()),
        ],
    );
    assert_eq!(
        outcome,
        failure(ErrorKind::ConfigUpdateError, "Failed to update the Apache configuration: read-only")
    );
}

#[test]
fn runtime_version_is_asked_behind_the_indirection_only() {
    assert_eq!(runtime_version_query_line(ROOT, false), None);
    assert_eq!(
        runtime_version_query_line(ROOT, true),
        Some(CommandLine {
            program: "C:/DevStackBox/php/current/php.exe".to_string(),
            arguments: vec!["--version".to_string()],
        })
    );
}
