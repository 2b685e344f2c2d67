//! The configuration: which server the shell shows and how its windows are
//! titled; how a server address is validated and normalised; what a loaded
//! configuration file yields; and the state that the running shell keeps.
//!
//! Reading and writing the file is the host's work. It hands in what it read
//! and how a write ended, and carries out what the functions here return.

use crate::text::{join2, lemma_trim_end_slashes, same_text, starts_with};
use crate::text::{trim_end_slashes, trim_trailing_slashes};
use crate::weburl::{captured_base, checked_base_url};
use url::Url;
use vstd::prelude::*;
use vstd::string::*;

verus! {

/// The server that the shell shows unless it is told otherwise.
pub const DEFAULT_SERVER_URL: &'static str = "https://cloud.onyx.app";

/// The name of the configuration file inside the configuration directory.
pub const CONFIG_FILE_NAME: &'static str = "config.json";

/// The configuration of the shell.
#[derive(Clone, Debug)]
pub struct AppConfig {
    /// The address of the server, without a slash at its end.
    pub server_url: String,
    /// The title of the windows.
    pub window_title: String,
}

/// What an `AppConfig` holds.
pub struct AppConfigView {
    pub server_url: Seq<char>,
    pub window_title: Seq<char>,
}

impl View for AppConfig {
    type V = AppConfigView;

    open spec fn view(&self) -> AppConfigView {
        AppConfigView { server_url: self.server_url@, window_title: self.window_title@ }
    }
}

/// Whether `raw` is accepted as a server address: it begins with `http://` or
/// with `https://`.
pub open spec fn accepts_server_url(raw: Seq<char>) -> bool {
    "http://"@.is_prefix_of(raw) || "https://"@.is_prefix_of(raw)
}

/// The form in which an accepted server address is stored: without the
/// slashes at its end.
pub open spec fn normalized_server_url(raw: Seq<char>) -> Seq<char> {
    trim_end_slashes(raw)
}

/// Whether `url` can stand in a configuration: it does not end in a slash,
/// and it begins with `http://` or `https://` or is what is left of these two
/// when their slashes are trimmed.
pub open spec fn is_stored_server_url(url: Seq<char>) -> bool {
    &&& url.len() > 0 ==> url.last() != '/'
    &&& accepts_server_url(url) || url == "http:"@ || url == "https:"@
}

/// Whether `url` is a server address as a configuration file holds it: it
/// begins with `http://` or `https://` and does not end in a slash.
pub open spec fn is_proper_server_url(url: Seq<char>) -> bool {
    &&& accepts_server_url(url)
    &&& url.len() > 0 ==> url.last() != '/'
}

/// The configuration that the shell starts from.
pub open spec fn default_config() -> AppConfigView {
    AppConfigView { server_url: DEFAULT_SERVER_URL@, window_title: "Onyx"@ }
}

impl AppConfigView {
    /// Whether the server address can stand in a configuration.
    pub open spec fn wf(self) -> bool {
        is_stored_server_url(self.server_url)
    }

    /// Whether the server address is one that a configuration file holds:
    /// it begins with `http://` or `https://` and does not end in a slash.
    pub open spec fn proper(self) -> bool {
        is_proper_server_url(self.server_url)
    }

    /// The configuration in the form in which it is kept: with the slashes at
    /// the end of the server address trimmed. `None` where the trimmed address
    /// does not begin with `http://` or `https://`.
    pub open spec fn stored_form(self) -> Option<AppConfigView> {
        let url = normalized_server_url(self.server_url);
        if accepts_server_url(url) {
            Some(AppConfigView { server_url: url, ..self })
        } else {
            None
        }
    }
}

/// What an optional configuration holds.
pub open spec fn optional_config_view(config: Option<AppConfig>) -> Option<AppConfigView> {
    match config {
        Some(c) => Some(c@),
        None => None,
    }
}

proof fn lemma_prefix_texts()
    ensures
        "http://"@ == seq!['h', 't', 't', 'p', ':', '/', '/'],
        "https://"@ == seq!['h', 't', 't', 'p', 's', ':', '/', '/'],
        "http:"@ == seq!['h', 't', 't', 'p', ':'],
        "https:"@ == seq!['h', 't', 't', 'p', 's', ':'],
{
    reveal_strlit("http://");
    reveal_strlit("https://");
    reveal_strlit("http:");
    reveal_strlit("https:");
    assert("http://"@ =~= seq!['h', 't', 't', 'p', ':', '/', '/']);
    assert("https://"@ =~= seq!['h', 't', 't', 'p', 's', ':', '/', '/']);
    assert("http:"@ =~= seq!['h', 't', 't', 'p', ':']);
    assert("https:"@ =~= seq!['h', 't', 't', 'p', 's', ':']);
}

/// The addresses that can stand in a configuration are exactly the normal
/// forms of the accepted ones; and a stored address is its own normal form.
pub proof fn lemma_stored_server_urls(url: Seq<char>)
    ensures
        is_stored_server_url(url) <==> exists|raw: Seq<char>|
            accepts_server_url(raw) && url == #[trigger] normalized_server_url(raw),
        is_stored_server_url(url) ==> normalized_server_url(url) == url,
{
    lemma_prefix_texts();
    if is_stored_server_url(url) {
        if accepts_server_url(url) {
            assert(url == normalized_server_url(url));
        } else if url == "http:"@ {
            let raw = "http://"@;
            assert(raw.subrange(0, 7) =~= raw);
            assert(raw.drop_last() =~= seq!['h', 't', 't', 'p', ':', '/']);
            assert(raw.drop_last().drop_last() =~= url);
            assert(trim_end_slashes(url) == url);
            assert(trim_end_slashes(raw.drop_last()) == url);
            assert(url == normalized_server_url(raw));
        } else {
            let raw = "https://"@;
            assert(raw.subrange(0, 8) =~= raw);
            assert(raw.drop_last() =~= seq!['h', 't', 't', 'p', 's', ':', '/']);
            assert(raw.drop_last().drop_last() =~= url);
            assert(trim_end_slashes(url) == url);
            assert(trim_end_slashes(raw.drop_last()) == url);
            assert(url == normalized_server_url(raw));
        }
    }
    assert forall|raw: Seq<char>|
        accepts_server_url(raw) && url == #[trigger] normalized_server_url(
            raw,
        ) implies is_stored_server_url(url) by {
        lemma_accepted_normalizes_to_stored(raw);
    }
}

/// The normal form of an accepted address can stand in a configuration.
pub proof fn lemma_accepted_normalizes_to_stored(raw: Seq<char>)
    requires
        accepts_server_url(raw),
    ensures
        is_stored_server_url(normalized_server_url(raw)),
{
    lemma_prefix_texts();
    lemma_trim_end_slashes(raw);
    let url = trim_end_slashes(raw);
    let n = url.len() as int;
    assert(url == raw.take(n));
    if "http://"@.is_prefix_of(raw) {
        let p = "http://"@;
        assert(raw.subrange(0, 7) == p);
        assert forall|i: int| 0 <= i < 7 implies raw[i] == p[i] by {
            assert(raw.subrange(0, 7)[i] == raw[i]);
        }
        if n >= 7 {
            assert(url.subrange(0, 7) =~= p);
        } else {
            // Only slashes were trimmed, so the colon was kept.
            assert(raw[4] == ':');
            assert(n >= 5);
            if n == 6 {
                assert(url.last() == raw[5]);
            }
            assert(url =~= "http:"@);
        }
    } else {
        let p = "https://"@;
        assert(raw.subrange(0, 8) == p);
        assert forall|i: int| 0 <= i < 8 implies raw[i] == p[i] by {
            assert(raw.subrange(0, 8)[i] == raw[i]);
        }
        if n >= 8 {
            assert(url.subrange(0, 8) =~= p);
        } else {
            assert(raw[5] == ':');
            assert(n >= 6);
            if n == 7 {
                assert(url.last() == raw[6]);
            }
            assert(url =~= "https:"@);
        }
    }
}

/// The default configuration can stand: its address begins with `https://`
/// and does not end in a slash.
pub proof fn lemma_default_config_wf()
    ensures
        default_config().wf(),
        default_config().proper(),
{
    reveal_strlit("https://cloud.onyx.app");
    reveal_strlit("https://");
    assert(DEFAULT_SERVER_URL@.subrange(0, 8) =~= "https://"@);
}

/// The title a window carries when the configuration names none.
pub fn default_window_title() -> (title: String)
    ensures
        title@ == "Onyx"@,
{
    "Onyx".to_owned()
}

impl Default for AppConfig {
    /// The configuration that the shell starts from.
    fn default() -> (config: AppConfig)
        ensures
            config@ == default_config(),
            config@.wf(),
            config@.proper(),
    {
        proof {
            lemma_default_config_wf();
        }
        AppConfig {
            server_url: DEFAULT_SERVER_URL.to_owned(),
            window_title: default_window_title(),
        }
    }
}

impl AppConfig {
    /// A copy of the configuration.
    pub fn duplicate(&self) -> (copy: AppConfig)
        ensures
            copy@ == self@,
    {
        AppConfig { server_url: self.server_url.clone(), window_title: self.window_title.clone() }
    }

    /// Whether the server address can stand in a configuration.
    pub fn is_well_formed(&self) -> (wf: bool)
        ensures
            wf == self@.wf(),
    {
        is_stored_server_url_text(self.server_url.as_str())
    }

    /// The configuration in the form in which it is kept: with the slashes at
    /// the end of the server address trimmed. `None` where the trimmed address
    /// does not begin with `http://` or `https://`.
    pub fn into_stored_form(self) -> (stored: Option<AppConfig>)
        ensures
            optional_config_view(stored) == self@.stored_form(),
            stored matches Some(config) ==> config@.proper() && config@.wf(),
    {
        let url = normalize_server_url(self.server_url.as_str());
        proof {
            lemma_trim_end_slashes(self.server_url@);
        }
        if is_valid_server_url(url.as_str()) {
            Some(AppConfig { server_url: url, window_title: self.window_title })
        } else {
            None
        }
    }
}

/// Whether `raw` is accepted as a server address.
pub fn is_valid_server_url(raw: &str) -> (valid: bool)
    ensures
        valid == accepts_server_url(raw@),
{
    starts_with(raw, "http://") || starts_with(raw, "https://")
}

/// The form in which the server address `raw` is stored.
pub fn normalize_server_url(raw: &str) -> (url: String)
    ensures
        url@ == normalized_server_url(raw@),
        accepts_server_url(raw@) ==> is_stored_server_url(url@),
{
    proof {
        if accepts_server_url(raw@) {
            lemma_accepted_normalizes_to_stored(raw@);
        }
    }
    trim_trailing_slashes(raw)
}

fn ends_with_slash(s: &str) -> (ends: bool)
    ensures
        ends == (s@.len() > 0 && s@.last() == '/'),
{
    let n = s.unicode_len();
    n > 0 && s.get_char(n - 1) == '/'
}

/// Whether `url` can stand in a configuration.
pub fn is_stored_server_url_text(url: &str) -> (stored: bool)
    ensures
        stored == is_stored_server_url(url@),
{
    !ends_with_slash(url) && (is_valid_server_url(url) || same_text(url, "http:") || same_text(
        url,
        "https:",
    ))
}

/// Why the configuration could not be written.
#[derive(Clone, Debug)]
pub enum SaveFailure {
    /// No configuration directory could be determined.
    NoConfigDir,
    /// The configuration directory could not be created; the text says why.
    CreateDir(String),
    /// The configuration could not be put into text; the text says why.
    Serialize(String),
    /// The file could not be written; the text says why.
    Write(String),
}

impl SaveFailure {
    /// The words of the failure for the user.
    pub open spec fn message_text(self) -> Seq<char> {
        match self {
            SaveFailure::NoConfigDir => "Could not determine config directory"@,
            SaveFailure::CreateDir(reason) => "Failed to create config dir: "@ + reason@,
            SaveFailure::Serialize(reason) => "Failed to serialize config: "@ + reason@,
            SaveFailure::Write(reason) => "Failed to write config: "@ + reason@,
        }
    }

    /// The words of the failure for the user.
    pub fn message(&self) -> (message: String)
        ensures
            message@ == self.message_text(),
    {
        match self {
            SaveFailure::NoConfigDir => "Could not determine config directory".to_owned(),
            SaveFailure::CreateDir(reason) => join2(
                "Failed to create config dir: ",
                reason.as_str(),
            ),
            SaveFailure::Serialize(reason) => join2(
                "Failed to serialize config: ",
                reason.as_str(),
            ),
            SaveFailure::Write(reason) => join2("Failed to write config: ", reason.as_str()),
        }
    }
}

/// Why a change of the configuration failed.
#[derive(Clone, Debug)]
pub enum ConfigError {
    /// The server address was refused. Nothing was changed.
    Validation,
    /// The configuration could not be written; the text says why. The change
    /// stands in memory, so that writing can be tried again.
    Persistence(String),
}

/// What a `ConfigError` holds.
pub enum ConfigErrorView {
    Validation,
    Persistence(Seq<char>),
}

impl View for ConfigError {
    type V = ConfigErrorView;

    open spec fn view(&self) -> ConfigErrorView {
        match self {
            ConfigError::Validation => ConfigErrorView::Validation,
            ConfigError::Persistence(reason) => ConfigErrorView::Persistence(reason@),
        }
    }
}

impl ConfigError {
    /// The words of the error for the user.
    pub open spec fn message_text(self) -> Seq<char> {
        match self {
            ConfigError::Validation => "URL must start with http:// or https://"@,
            ConfigError::Persistence(reason) => reason@,
        }
    }

    /// The words of the error for the user.
    pub fn message(&self) -> (message: String)
        ensures
            message@ == self.message_text(),
    {
        match self {
            ConfigError::Validation => "URL must start with http:// or https://".to_owned(),
            ConfigError::Persistence(reason) => reason.clone(),
        }
    }
}

/// What the host found when it looked for the configuration file.
#[derive(Clone, Debug)]
pub enum ConfigRead {
    /// No configuration directory could be determined.
    NoConfigDir,
    /// There is no configuration file.
    Absent,
    /// The file is there and could not be read.
    Unreadable,
    /// The file was read and its content is no configuration.
    Malformed,
    /// The file was read and holds this configuration.
    Parsed(AppConfig),
}

/// What a `ConfigRead` holds.
pub enum ConfigReadView {
    NoConfigDir,
    Absent,
    Unreadable,
    Malformed,
    Parsed(AppConfigView),
}

impl View for ConfigRead {
    type V = ConfigReadView;

    open spec fn view(&self) -> ConfigReadView {
        match self {
            ConfigRead::NoConfigDir => ConfigReadView::NoConfigDir,
            ConfigRead::Absent => ConfigReadView::Absent,
            ConfigRead::Unreadable => ConfigReadView::Unreadable,
            ConfigRead::Malformed => ConfigReadView::Malformed,
            ConfigRead::Parsed(config) => ConfigReadView::Parsed(config@),
        }
    }
}

/// What loading yields.
#[derive(Clone, Debug)]
pub struct LoadedConfig {
    /// The configuration to start with.
    pub config: AppConfig,
    /// Whether `config` was found in the file.
    pub existed: bool,
    /// Whether the host should now write the default configuration to the
    /// file, as there was none.
    pub write_default: bool,
}

/// What a `LoadedConfig` holds.
pub struct LoadedConfigView {
    pub config: AppConfigView,
    pub existed: bool,
    pub write_default: bool,
}

impl View for LoadedConfig {
    type V = LoadedConfigView;

    open spec fn view(&self) -> LoadedConfigView {
        LoadedConfigView {
            config: self.config@,
            existed: self.existed,
            write_default: self.write_default,
        }
    }
}

/// What loading yields for what the host found: the configuration of the
/// file, in the form in which it is kept, where the file holds one whose
/// server address, once trimmed, begins with `http://` or `https://`; in
/// every other case the default configuration, not counted as found. A
/// missing file is to be written with the defaults.
pub open spec fn load_outcome(read: ConfigReadView) -> LoadedConfigView {
    match read {
        ConfigReadView::Parsed(config) if config.stored_form() is Some => LoadedConfigView {
            config: config.stored_form()->0,
            existed: true,
            write_default: false,
        },
        ConfigReadView::Absent => LoadedConfigView {
            config: default_config(),
            existed: false,
            write_default: true,
        },
        _ => LoadedConfigView { config: default_config(), existed: false, write_default: false },
    }
}

/// The configuration to start with, given what the host found when it looked
/// for the configuration file. It never fails: whatever is wrong with the
/// file, the shell starts with the defaults.
pub fn load_config(read: ConfigRead) -> (loaded: LoadedConfig)
    ensures
        loaded@ == load_outcome(read@),
        loaded@.config.proper(),
        loaded@.config.wf(),
{
    match read {
        ConfigRead::Parsed(config) => match config.into_stored_form() {
            Some(config) => LoadedConfig { config, existed: true, write_default: false },
            None => LoadedConfig {
                config: AppConfig::default(),
                existed: false,
                write_default: false,
            },
        },
        ConfigRead::Absent => LoadedConfig {
            config: AppConfig::default(),
            existed: false,
            write_default: true,
        },
        _ => LoadedConfig { config: AppConfig::default(), existed: false, write_default: false },
    }
}

/// Loading what was loaded yields it again: a file that holds the
/// configuration that loading yielded is accepted, and yields that
/// configuration unchanged.
pub proof fn lemma_load_round_trip(read: ConfigReadView)
    ensures
        load_outcome(ConfigReadView::Parsed(load_outcome(read).config)).config == load_outcome(
            read,
        ).config,
        load_outcome(ConfigReadView::Parsed(load_outcome(read).config)).existed,
{
    lemma_loaded_is_proper(read);
    lemma_stored_form_stays(load_outcome(read).config);
}

/// Whatever the host found, the configuration that loading yields has a
/// server address that begins with `http://` or `https://` and does not end
/// in a slash.
pub proof fn lemma_loaded_is_proper(read: ConfigReadView)
    ensures
        load_outcome(read).config.proper(),
        load_outcome(read).config.wf(),
{
    lemma_default_config_wf();
    if let ConfigReadView::Parsed(config) = read {
        lemma_trim_end_slashes(config.server_url);
    }
}

/// A configuration whose server address begins with `http://` or `https://`
/// and does not end in a slash is its own stored form.
pub proof fn lemma_stored_form_stays(config: AppConfigView)
    requires
        config.proper(),
    ensures
        config.stored_form() == Some(config),
{
}

/// What the page is told when it starts.
#[derive(Clone, Debug)]
pub struct BootstrapState {
    pub server_url: String,
    pub config_exists: bool,
}

/// What a `BootstrapState` holds.
pub struct BootstrapStateView {
    pub server_url: Seq<char>,
    pub config_exists: bool,
}

impl View for BootstrapState {
    type V = BootstrapStateView;

    open spec fn view(&self) -> BootstrapStateView {
        BootstrapStateView { server_url: self.server_url@, config_exists: self.config_exists }
    }
}

/// The state that the running shell keeps: the configuration, whether a
/// configuration file has been seen or written, and the base address of the
/// page that the main window loaded first.
///
/// The host keeps one such value behind a lock. A change is made in one
/// piece under the write lock: the setter, then the write to the file, then
/// `finish_save` with the outcome of the write.
#[derive(Debug)]
pub struct ConfigState {
    config: AppConfig,
    config_initialized: bool,
    app_base_url: Option<Url>,
}

/// What a `ConfigState` holds.
pub struct ConfigStateView {
    pub config: AppConfigView,
    pub config_initialized: bool,
    pub app_base_url: Option<Url>,
}

impl View for ConfigState {
    type V = ConfigStateView;

    closed spec fn view(&self) -> ConfigStateView {
        ConfigStateView {
            config: self.config@,
            config_initialized: self.config_initialized,
            app_base_url: self.app_base_url,
        }
    }
}

/// What setting the server address to `raw` returns.
pub open spec fn set_outcome(raw: Seq<char>) -> Result<Seq<char>, ConfigErrorView> {
    if accepts_server_url(raw) {
        Ok(normalized_server_url(raw))
    } else {
        Err(ConfigErrorView::Validation)
    }
}

/// The state after the server address was set to `raw`: with the normal form
/// of `raw` where `raw` is accepted, unchanged where it is not.
pub open spec fn state_after_set(state: ConfigStateView, raw: Seq<char>) -> ConfigStateView {
    if accepts_server_url(raw) {
        ConfigStateView {
            config: AppConfigView { server_url: normalized_server_url(raw), ..state.config },
            ..state
        }
    } else {
        state
    }
}

/// The state after a write to the file ended: counted as initialised where
/// the write succeeded, unchanged where it failed.
pub open spec fn state_after_save(state: ConfigStateView, saved: bool) -> ConfigStateView {
    if saved {
        ConfigStateView { config_initialized: true, ..state }
    } else {
        state
    }
}

/// What the result of a setter holds.
pub open spec fn set_result_view(result: Result<String, ConfigError>) -> Result<
    Seq<char>,
    ConfigErrorView,
> {
    match result {
        Ok(url) => Ok(url@),
        Err(error) => Err(error@),
    }
}

impl ConfigState {
    #[verifier::type_invariant]
    spec fn stored_address_stands(self) -> bool {
        self.config@.wf()
    }

    /// The state at startup, from what loading yielded: the configuration in
    /// the form in which it is kept, which for a configuration that
    /// `load_config` yielded is the configuration itself. One whose server
    /// address, once trimmed, does not begin with `http://` or `https://` is
    /// replaced by the defaults and not counted as found.
    pub fn new(loaded: LoadedConfig) -> (state: ConfigState)
        ensures
            state@ == (ConfigStateView {
                config: match loaded@.config.stored_form() {
                    Some(config) => config,
                    None => default_config(),
                },
                config_initialized: loaded@.config.stored_form() is Some && loaded.existed,
                app_base_url: None,
            }),
            loaded@.config.proper() ==> state@.config == loaded@.config,
            state@.config.proper(),
            state@.config.wf(),
    {
        proof {
            if loaded@.config.proper() {
                lemma_stored_form_stays(loaded@.config);
            }
        }
        let existed = loaded.existed;
        match loaded.config.into_stored_form() {
            Some(config) => ConfigState { config, config_initialized: existed, app_base_url: None },
            None => ConfigState {
                config: AppConfig::default(),
                config_initialized: false,
                app_base_url: None,
            },
        }
    }

    /// The address of the server.
    pub fn get_server_url(&self) -> (url: String)
        ensures
            url@ == self@.config.server_url,
            is_stored_server_url(url@),
    {
        proof {
            use_type_invariant(self);
        }
        self.config.server_url.clone()
    }

    /// What the page is told when it starts: the address of the server, and
    /// whether a configuration file has been seen or written.
    pub fn get_bootstrap_state(&self) -> (bootstrap: BootstrapState)
        ensures
            bootstrap@ == (BootstrapStateView {
                server_url: self@.config.server_url,
                config_exists: self@.config_initialized,
            }),
    {
        BootstrapState {
            server_url: self.config.server_url.clone(),
            config_exists: self.config_initialized,
        }
    }

    /// A copy of the configuration, to be written to the file.
    pub fn snapshot(&self) -> (config: AppConfig)
        ensures
            config@ == self@.config,
            config@.wf(),
    {
        proof {
            use_type_invariant(self);
        }
        self.config.duplicate()
    }

    /// Sets the address of the server.
    ///
    /// An address that does not begin with `http://` or `https://` is refused
    /// and nothing changes. An accepted address is stored without the slashes
    /// at its end, and returned in that form. The host then writes the
    /// configuration and reports with `finish_save`.
    pub fn set_server_url(&mut self, raw: &str) -> (result: Result<String, ConfigError>)
        ensures
            set_result_view(result) == set_outcome(raw@),
            final(self)@ == state_after_set(old(self)@, raw@),
            !accepts_server_url(raw@) ==> final(self)@ == old(self)@,
            accepts_server_url(raw@) ==> {
                let stored = final(self)@.config.server_url;
                stored.len() == 0 || stored.last() != '/'
            },
            final(self)@.config.wf(),
    {
        proof {
            use_type_invariant(&*self);
        }
        if !is_valid_server_url(raw) {
            return Err(ConfigError::Validation);
        }
        let url = normalize_server_url(raw);
        let stored = url.clone();
        self.config.server_url = stored;
        Ok(url)
    }

    /// Puts the default configuration in place of the current one. The host
    /// then writes the configuration and reports with `finish_save`.
    pub fn reset(&mut self)
        ensures
            final(self)@ == (ConfigStateView { config: default_config(), ..old(self)@ }),
            final(self)@.config.proper(),
            final(self)@.config.wf(),
    {
        self.config = AppConfig::default();
    }

    /// Takes the outcome of writing the configuration to the file. After a
    /// successful write the configuration counts as initialised. A failure
    /// changes nothing and is returned as an error with the words of the
    /// failure.
    pub fn finish_save(&mut self, outcome: Result<(), SaveFailure>) -> (result: Result<
        (),
        ConfigError,
    >)
        ensures
            final(self)@ == state_after_save(old(self)@, outcome is Ok),
            match outcome {
                Ok(_) => result is Ok,
                Err(failure) => result matches Err(ConfigError::Persistence(reason)) && reason@
                    == failure.message_text(),
            },
            final(self)@.config.wf(),
    {
        proof {
            use_type_invariant(&*self);
        }
        match outcome {
            Ok(_) => {
                self.config_initialized = true;
                Ok(())
            },
            Err(failure) => Err(ConfigError::Persistence(failure.message())),
        }
    }

    /// The address of the server, as it is kept.
    pub fn server_url(&self) -> (url: &str)
        ensures
            url@ == self@.config.server_url,
    {
        self.config.server_url.as_str()
    }

    /// The base address, if one has been captured.
    pub fn base_url(&self) -> (base: &Option<Url>)
        ensures
            *base == self@.app_base_url,
    {
        &self.app_base_url
    }

    /// Whether the base address has been captured.
    pub fn has_base_url(&self) -> (captured: bool)
        ensures
            captured == self@.app_base_url is Some,
    {
        self.app_base_url.is_some()
    }

    /// Captures the base address from the page that the main window loaded
    /// first. Only the first capture counts: once a base address is kept it
    /// stays. An address too long to rewrite is not captured.
    pub fn capture_base_url(&mut self, loaded: Url)
        ensures
            final(self)@ == (ConfigStateView {
                app_base_url: if old(self)@.app_base_url is Some {
                    old(self)@.app_base_url
                } else {
                    captured_base(loaded)
                },
                ..old(self)@
            }),
            final(self)@.config.wf(),
    {
        proof {
            use_type_invariant(&*self);
        }
        if self.app_base_url.is_none() {
            self.app_base_url = checked_base_url(loaded);
        }
    }
}

} // verus!
