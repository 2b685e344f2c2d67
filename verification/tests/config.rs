use onyx_desktop::config::{
    is_stored_server_url_text, is_valid_server_url, load_config, normalize_server_url,
    ConfigError, ConfigRead, ConfigState, SaveFailure, CONFIG_FILE_NAME, DEFAULT_SERVER_URL,
};
use onyx_desktop::{default_window_title, AppConfig};
use url::Url;

fn fresh_state() -> ConfigState {
    ConfigState::new(load_config(ConfigRead::Absent))
}

fn config(server_url: &str, window_title: &str) -> AppConfig {
    AppConfig { server_url: server_url.to_string(), window_title: window_title.to_string() }
}

#[test]
fn default_title_is_onyx() {
    assert_eq!(default_window_title(), "Onyx");
}

#[test]
fn default_config_points_at_the_cloud() {
    let config = AppConfig::default();
    assert_eq!(config.server_url, "https://cloud.onyx.app");
    assert_eq!(config.window_title, "Onyx");
    assert_eq!(DEFAULT_SERVER_URL, "https://cloud.onyx.app");
    assert_eq!(CONFIG_FILE_NAME, "config.json");
    assert!(config.is_well_formed());
}

#[test]
fn duplicate_copies_both_fields() {
    let copy = config("https://a.example", "Mine").duplicate();
    assert_eq!(copy.server_url, "https://a.example");
    assert_eq!(copy.window_title, "Mine");
}

#[test]
fn accepts_only_http_and_https() {
    assert!(is_valid_server_url("http://localhost:3000"));
    assert!(is_valid_server_url("https://example.com"));
    assert!(is_valid_server_url("https://"));
    assert!(!is_valid_server_url(""));
    assert!(!is_valid_server_url("http:/"));
    assert!(!is_valid_server_url("ftp://example.com"));
    assert!(!is_valid_server_url("example.com"));
    assert!(!is_valid_server_url(" https://example.com"));
    assert!(!is_valid_server_url("HTTPS://example.com"));
    assert!(!is_valid_server_url("httpß://example.com"));
}

#[test]
fn normalizing_trims_every_trailing_slash() {
    assert_eq!(normalize_server_url("https://example.com///"), "https://example.com");
    assert_eq!(normalize_server_url("https://example.com/"), "https://example.com");
    assert_eq!(normalize_server_url("https://example.com"), "https://example.com");
    assert_eq!(normalize_server_url("https://example.com/a/b/"), "https://example.com/a/b");
    assert_eq!(normalize_server_url("https://exämple.com//"), "https://exämple.com");
    assert_eq!(normalize_server_url("https://"), "https:");
    assert_eq!(normalize_server_url("http:///"), "http:");
    assert_eq!(normalize_server_url("///"), "");
    assert_eq!(normalize_server_url(""), "");
}

#[test]
fn stored_addresses_are_the_normal_forms() {
    assert!(is_stored_server_url_text("https://example.com"));
    assert!(is_stored_server_url_text("http://example.com/a"));
    assert!(is_stored_server_url_text("http:"));
    assert!(is_stored_server_url_text("https:"));
    assert!(!is_stored_server_url_text("https://example.com/"));
    assert!(!is_stored_server_url_text("https:/"));
    assert!(!is_stored_server_url_text("ftp://example.com"));
    assert!(!is_stored_server_url_text(""));
}

#[test]
fn fresh_process_reports_the_default_and_no_config() {
    let state = fresh_state();
    let bootstrap = state.get_bootstrap_state();
    assert_eq!(bootstrap.server_url, "https://cloud.onyx.app");
    assert!(!bootstrap.config_exists);
    assert_eq!(state.get_server_url(), "https://cloud.onyx.app");
}

#[test]
fn setting_the_server_url_stores_the_normal_form() {
    let mut state = fresh_state();
    let stored = state.set_server_url("https://example.org/");
    assert!(matches!(stored, Ok(ref url) if url == "https://example.org"));
    assert!(matches!(state.finish_save(Ok(())), Ok(())));
    let bootstrap = state.get_bootstrap_state();
    assert_eq!(bootstrap.server_url, "https://example.org");
    assert!(bootstrap.config_exists);
    assert_eq!(state.snapshot().server_url, "https://example.org");
    assert_eq!(state.snapshot().window_title, "Onyx");
}

#[test]
fn many_trailing_slashes_leave_none() {
    let mut state = fresh_state();
    let stored = state.set_server_url("https://example.com///");
    assert!(matches!(stored, Ok(ref url) if url == "https://example.com"));
    assert_eq!(state.get_server_url(), "https://example.com");
    assert!(!state.get_server_url().ends_with('/'));
}

#[test]
fn refused_address_changes_nothing() {
    let mut state = fresh_state();
    assert!(matches!(state.set_server_url("https://example.org"), Ok(_)));
    assert!(matches!(state.finish_save(Ok(())), Ok(())));
    for raw in ["", "example.org", "ftp://example.org", "http:/example.org", "htp://x"] {
        let refused = state.set_server_url(raw);
        assert!(matches!(refused, Err(ConfigError::Validation)));
        let bootstrap = state.get_bootstrap_state();
        assert_eq!(bootstrap.server_url, "https://example.org");
        assert!(bootstrap.config_exists);
    }
}

#[test]
fn failed_write_keeps_the_change_and_reports() {
    let mut state = fresh_state();
    assert!(matches!(state.set_server_url("http://localhost:8080/"), Ok(_)));
    let result = state.finish_save(Err(SaveFailure::Write("disk full".to_string())));
    match result {
        Err(ConfigError::Persistence(reason)) => {
            assert_eq!(reason, "Failed to write config: disk full")
        }
        _ => panic!("a failed write must be reported"),
    }
    let bootstrap = state.get_bootstrap_state();
    assert_eq!(bootstrap.server_url, "http://localhost:8080");
    assert!(!bootstrap.config_exists);
    assert!(matches!(state.finish_save(Ok(())), Ok(())));
    assert!(state.get_bootstrap_state().config_exists);
}

#[test]
fn reset_restores_the_default() {
    let mut state = fresh_state();
    assert!(matches!(state.set_server_url("https://example.org/"), Ok(_)));
    assert!(matches!(state.finish_save(Ok(())), Ok(())));
    state.reset();
    assert!(matches!(state.finish_save(Ok(())), Ok(())));
    let bootstrap = state.get_bootstrap_state();
    assert_eq!(bootstrap.server_url, "https://cloud.onyx.app");
    assert!(bootstrap.config_exists);
    assert_eq!(state.snapshot().window_title, "Onyx");
}

#[test]
fn reset_before_any_write_marks_nothing() {
    let mut state = fresh_state();
    state.reset();
    assert!(!state.get_bootstrap_state().config_exists);
}

#[test]
fn error_messages() {
    assert_eq!(ConfigError::Validation.message(), "URL must start with http:// or https://");
    assert_eq!(ConfigError::Persistence("no space".to_string()).message(), "no space");
    assert_eq!(SaveFailure::NoConfigDir.message(), "Could not determine config directory");
    assert_eq!(
        SaveFailure::CreateDir("denied".to_string()).message(),
        "Failed to create config dir: denied"
    );
    assert_eq!(
        SaveFailure::Serialize("bad".to_string()).message(),
        "Failed to serialize config: bad"
    );
    assert_eq!(SaveFailure::Write("full".to_string()).message(), "Failed to write config: full");
}

#[test]
fn loading_a_good_file_yields_it() {
    let loaded = load_config(ConfigRead::Parsed(config("http://localhost:3000", "Local")));
    assert_eq!(loaded.config.server_url, "http://localhost:3000");
    assert_eq!(loaded.config.window_title, "Local");
    assert!(loaded.existed);
    assert!(!loaded.write_default);
    let state = ConfigState::new(loaded);
    assert_eq!(state.get_server_url(), "http://localhost:3000");
    assert!(state.get_bootstrap_state().config_exists);
}

#[test]
fn loading_without_a_file_yields_defaults_to_write() {
    let loaded = load_config(ConfigRead::Absent);
    assert_eq!(loaded.config.server_url, "https://cloud.onyx.app");
    assert_eq!(loaded.config.window_title, "Onyx");
    assert!(!loaded.existed);
    assert!(loaded.write_default);
}

#[test]
fn loading_a_broken_file_yields_defaults() {
    for read in [ConfigRead::NoConfigDir, ConfigRead::Unreadable, ConfigRead::Malformed] {
        let loaded = load_config(read);
        assert_eq!(loaded.config.server_url, "https://cloud.onyx.app");
        assert_eq!(loaded.config.window_title, "Onyx");
        assert!(!loaded.existed);
        assert!(!loaded.write_default);
    }
}

#[test]
fn loading_trims_the_address_of_the_file() {
    let loaded = load_config(ConfigRead::Parsed(config("https://example.com//", "Mine")));
    assert_eq!(loaded.config.server_url, "https://example.com");
    assert_eq!(loaded.config.window_title, "Mine");
    assert!(loaded.existed);
    assert!(!loaded.write_default);
}

#[test]
fn loading_a_bare_scheme_yields_defaults() {
    for url in ["https:", "http:", "https://", "http:///", "https:/"] {
        let loaded = load_config(ConfigRead::Parsed(config(url, "Mine")));
        assert_eq!(loaded.config.server_url, "https://cloud.onyx.app");
        assert_eq!(loaded.config.window_title, "Onyx");
        assert!(!loaded.existed);
        assert!(!loaded.write_default);
    }
}

#[test]
fn loaded_address_always_fits_the_data_model() {
    let reads = [
        ConfigRead::NoConfigDir,
        ConfigRead::Absent,
        ConfigRead::Unreadable,
        ConfigRead::Malformed,
        ConfigRead::Parsed(config("ftp://x/", "A")),
        ConfigRead::Parsed(config("https:", "A")),
        ConfigRead::Parsed(config("http://", "A")),
        ConfigRead::Parsed(config("http://a//", "A")),
        ConfigRead::Parsed(config("https://example.com", "A")),
    ];
    for read in reads {
        let url = load_config(read).config.server_url;
        assert!(!url.is_empty());
        assert!(url.starts_with("http://") || url.starts_with("https://"));
        assert!(!url.ends_with('/'));
    }
}

#[test]
fn stored_form_of_a_configuration() {
    let stored = config("http://localhost:3000/", "Local").into_stored_form().unwrap();
    assert_eq!(stored.server_url, "http://localhost:3000");
    assert_eq!(stored.window_title, "Local");
    let same = stored.duplicate().into_stored_form().unwrap();
    assert_eq!(same.server_url, stored.server_url);
    assert_eq!(same.window_title, stored.window_title);
    assert!(config("mailto:someone", "X").into_stored_form().is_none());
    assert!(config("https://", "X").into_stored_form().is_none());
    assert!(config("http:", "X").into_stored_form().is_none());
    assert!(config("http:", "X").is_well_formed());
    assert!(config("/", "X").into_stored_form().is_none());
    assert!(!config("https://example.com/", "X").is_well_formed());
    assert!(config("https://example.com", "X").is_well_formed());
}

#[test]
fn loading_an_address_that_cannot_stand_yields_defaults() {
    for url in ["ftp://example.com", "", "//", "example.com", "https//example.com"] {
        let loaded = load_config(ConfigRead::Parsed(config(url, "Mine")));
        assert_eq!(loaded.config.server_url, "https://cloud.onyx.app");
        assert_eq!(loaded.config.window_title, "Onyx");
        assert!(!loaded.existed);
        assert!(!loaded.write_default);
    }
}

#[test]
fn loading_what_was_loaded_yields_it_again() {
    for read in [
        ConfigRead::Absent,
        ConfigRead::Malformed,
        ConfigRead::Parsed(config("https://example.com", "A")),
        ConfigRead::Parsed(config("https://example.com///", "A")),
        ConfigRead::Parsed(config("http:///", "A")),
        ConfigRead::Parsed(config("nonsense", "B")),
    ] {
        let first = load_config(read);
        let again = load_config(ConfigRead::Parsed(first.config.duplicate()));
        assert_eq!(again.config.server_url, first.config.server_url);
        assert_eq!(again.config.window_title, first.config.window_title);
        assert!(again.existed);
        assert!(!again.write_default);
    }
}

#[test]
fn state_keeps_the_stored_form() {
    let loaded = onyx_desktop::config::LoadedConfig {
        config: config("https://example.com/", "Mine"),
        existed: true,
        write_default: false,
    };
    let state = ConfigState::new(loaded);
    assert_eq!(state.get_server_url(), "https://example.com");
    assert_eq!(state.snapshot().window_title, "Mine");
    assert!(state.get_bootstrap_state().config_exists);
}

#[test]
fn state_refuses_a_config_that_cannot_stand() {
    let loaded = onyx_desktop::config::LoadedConfig {
        config: config("gopher://old", "Old"),
        existed: true,
        write_default: false,
    };
    let state = ConfigState::new(loaded);
    assert_eq!(state.get_server_url(), "https://cloud.onyx.app");
    assert!(!state.get_bootstrap_state().config_exists);
}

#[test]
fn base_url_is_captured_once() {
    let mut state = fresh_state();
    assert!(!state.has_base_url());
    assert!(state.base_url().is_none());
    state.capture_base_url(Url::parse("https://app.example.com/chat/1?x=2#top").unwrap());
    assert!(state.has_base_url());
    assert_eq!(state.base_url().as_ref().unwrap().as_str(), "https://app.example.com/");
    state.capture_base_url(Url::parse("https://other.example.org/a").unwrap());
    assert_eq!(state.base_url().as_ref().unwrap().as_str(), "https://app.example.com/");
    assert_eq!(state.server_url(), "https://cloud.onyx.app");
}
