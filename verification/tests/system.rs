use onyx_desktop::config::SaveFailure;
use onyx_desktop::get_config_path;
use onyx_desktop::injection::{injection_schedule, InjectionRun};
use onyx_desktop::opener::{
    docs_url, open_config_directory, open_config_file, open_docs, plan_open, OpenCommand,
    OpenError, OpenTarget,
};
use onyx_desktop::paths::{
    config_file_in, get_config_dir, get_config_path_cmd, project_identifiers, show_config_path,
};
use onyx_desktop::platform::Platform;
use std::path::PathBuf;

fn parts(command: &Option<OpenCommand>) -> Option<(String, Vec<String>, bool)> {
    command.as_ref().map(|c| (c.program.clone(), c.options.clone(), c.wait))
}

fn expect(program: &str, options: &[&str], wait: bool) -> Option<(String, Vec<String>, bool)> {
    Some((program.to_string(), options.iter().map(|o| o.to_string()).collect(), wait))
}

#[test]
fn injection_offsets_on_overlay_platforms() {
    assert_eq!(
        injection_schedule(Platform::MacOs),
        vec![0, 200, 600, 1200, 2000, 4000, 6000, 8000, 10000]
    );
}

#[test]
fn injection_is_inert_elsewhere() {
    for platform in [Platform::Linux, Platform::Windows, Platform::Other] {
        assert!(injection_schedule(platform).is_empty());
        let mut run = InjectionRun::schedule(platform);
        assert!(run.is_done());
        assert_eq!(run.next_wait(), None);
        assert_eq!(run.next_wait(), None);
    }
}

#[test]
fn injection_waits_add_up_to_the_offsets() {
    let offsets = injection_schedule(Platform::MacOs);
    let mut run = InjectionRun::schedule(Platform::MacOs);
    let mut waits = Vec::new();
    let mut elapsed = 0;
    let mut step = 0;
    while !run.is_done() {
        let wait = run.next_wait().unwrap();
        elapsed += wait;
        assert_eq!(elapsed, offsets[step]);
        waits.push(wait);
        step += 1;
    }
    assert_eq!(waits, vec![0, 200, 400, 600, 800, 2000, 2000, 2000, 2000]);
    assert_eq!(elapsed, 10000);
    assert_eq!(run.next_wait(), None);
    assert!(run.is_done());
}

#[test]
fn documentation_commands() {
    assert_eq!(docs_url(), "https://docs.onyx.app");
    assert_eq!(parts(&open_docs(Platform::MacOs)), expect("open", &[], true));
    assert_eq!(parts(&open_docs(Platform::Linux)), expect("xdg-open", &[], true));
    assert_eq!(
        parts(&open_docs(Platform::Windows)),
        expect("rundll32", &["url.dll,FileProtocolHandler"], true)
    );
    assert_eq!(parts(&open_docs(Platform::Other)), None);
}

#[test]
fn config_file_commands() {
    assert_eq!(parts(&open_config_file(true, Platform::MacOs).command), expect("open", &["-t"], false));
    assert_eq!(parts(&open_config_file(true, Platform::Linux).command), expect("xdg-open", &[], false));
    assert_eq!(parts(&open_config_file(true, Platform::Windows).command), expect("notepad", &[], false));
    assert_eq!(parts(&open_config_file(true, Platform::Other).command), None);
    assert!(!open_config_file(true, Platform::Linux).write_default);
    assert!(open_config_file(false, Platform::Linux).write_default);
    assert!(open_config_file(false, Platform::Other).write_default);
}

#[test]
fn config_directory_commands() {
    assert_eq!(parts(&open_config_directory(Platform::MacOs)), expect("open", &[], false));
    assert_eq!(parts(&open_config_directory(Platform::Linux)), expect("xdg-open", &[], false));
    assert_eq!(parts(&open_config_directory(Platform::Windows)), expect("explorer", &[], false));
    assert_eq!(parts(&open_config_directory(Platform::Other)), None);
    assert_eq!(
        parts(&plan_open(OpenTarget::ConfigDirectory, Platform::Windows)),
        parts(&open_config_directory(Platform::Windows))
    );
}

#[test]
fn open_error_messages() {
    assert_eq!(OpenError::NoConfigPath.message(), "Could not determine config path");
    assert_eq!(OpenError::NoConfigDir.message(), "Could not determine config directory");
    assert_eq!(
        OpenError::CreateDir("denied".to_string()).message(),
        "Failed to create config dir: denied"
    );
    assert_eq!(
        OpenError::Save(SaveFailure::Write("full".to_string())).message(),
        "Failed to write config: full"
    );
    assert_eq!(
        OpenError::OpenFile("no editor".to_string()).message(),
        "Failed to open config: no editor"
    );
    assert_eq!(
        OpenError::OpenDirectory("no manager".to_string()).message(),
        "Failed to open directory: no manager"
    );
}

#[test]
fn project_is_filed_under_its_names() {
    assert_eq!(project_identifiers(), ("app", "onyx", "onyx-desktop"));
}

#[test]
fn config_file_lies_in_the_directory() {
    let dir = PathBuf::from("some").join("place");
    assert_eq!(config_file_in(Some(dir.clone())), Some(dir.join("config.json")));
    assert_eq!(config_file_in(None), None);
}

#[test]
fn config_path_follows_the_config_dir() {
    let dir = get_config_dir();
    let path = get_config_path();
    assert_eq!(path, config_file_in(dir.clone()));
    if let (Some(dir), Some(path)) = (dir, path) {
        assert_eq!(path.parent(), Some(dir.as_path()));
        assert_eq!(path.file_name().and_then(|n| n.to_str()), Some("config.json"));
        assert!(dir.ends_with("onyx-desktop") || dir.to_string_lossy().contains("onyx"));
    }
}

#[test]
fn config_path_as_text() {
    let path = PathBuf::from("dir").join("config.json");
    assert_eq!(show_config_path(Some(path.clone())), Ok(path.to_string_lossy().to_string()));
    assert_eq!(show_config_path(None), Err("Could not determine config path".to_string()));
    match (get_config_path(), get_config_path_cmd()) {
        (Some(path), Ok(text)) => assert_eq!(text, path.to_string_lossy()),
        (None, Err(message)) => assert_eq!(message, "Could not determine config path"),
        _ => panic!("the two must agree"),
    }
}
