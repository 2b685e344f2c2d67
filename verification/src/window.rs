//! Windows: what a new window looks like, how it is labelled, and where it
//! points.

use crate::platform::Platform;
use crate::text::join2;
use crate::weburl::{describe_parse_error, parse_error_text, parse_outcome, parse_url};
use crate::weburl::{optional_url_text, parsed_text, same_url, url_text};
use url::ParseError;
use url::Url;
use vstd::prelude::*;

verus! {

/// The label of the main window, which the host creates at startup.
pub fn main_window_label() -> (label: &'static str)
    ensures
        label@ == "main"@,
{
    "main"
}

/// The title of every window.
pub fn window_title() -> (title: &'static str)
    ensures
        title@ == "Onyx"@,
{
    "Onyx"
}

/// A size in logical pixels.
#[derive(Clone, Copy, Debug, PartialEq, Eq, Structural)]
pub struct WindowSize {
    pub width: u32,
    pub height: u32,
}

/// A colour with its opacity.
#[derive(Clone, Copy, Debug, PartialEq, Eq, Structural)]
pub struct Color {
    pub red: u8,
    pub green: u8,
    pub blue: u8,
    pub alpha: u8,
}

/// How a window is dressed.
#[derive(Clone, Copy, Debug, PartialEq, Eq, Structural)]
pub enum Chrome {
    /// An overlay title bar with the title hidden, over a vibrant
    /// background. The page needs the title-bar script.
    Overlay,
    /// The system's decorations over a background of one colour.
    Tinted(Color),
    /// The system's decorations.
    Plain,
}

/// The size at which a window opens.
pub open spec fn initial_size() -> WindowSize {
    WindowSize { width: 1200, height: 800 }
}

/// The size below which a window cannot shrink.
pub open spec fn minimum_size() -> WindowSize {
    WindowSize { width: 800, height: 600 }
}

/// The background of a tinted window.
pub open spec fn tint() -> Color {
    Color { red: 0x1a, green: 0x1a, blue: 0x2e, alpha: 0xff }
}

/// How windows are dressed on `platform`.
pub open spec fn chrome_on(platform: Platform) -> Chrome {
    match platform {
        Platform::MacOs => Chrome::Overlay,
        Platform::Linux => Chrome::Tinted(tint()),
        _ => Chrome::Plain,
    }
}

/// How windows are dressed on `platform`.
pub fn window_chrome(platform: Platform) -> (chrome: Chrome)
    ensures
        chrome == chrome_on(platform),
        chrome is Overlay <==> platform.overlay_titlebar(),
{
    match platform {
        Platform::MacOs => Chrome::Overlay,
        Platform::Linux => Chrome::Tinted(
            Color { red: 0x1a, green: 0x1a, blue: 0x2e, alpha: 0xff },
        ),
        _ => Chrome::Plain,
    }
}

/// Everything the host needs to build a window. Once the window is built the
/// host focuses it and, under `Chrome::Overlay`, starts injecting the
/// title-bar script.
#[derive(Clone, Debug)]
pub struct WindowPlan {
    pub label: String,
    pub url: Url,
    pub title: String,
    pub size: WindowSize,
    pub min_size: WindowSize,
    pub transparent: bool,
    pub chrome: Chrome,
}

/// What a `WindowPlan` holds.
pub struct WindowPlanView {
    pub label: Seq<char>,
    pub url: Seq<char>,
    pub title: Seq<char>,
    pub size: WindowSize,
    pub min_size: WindowSize,
    pub transparent: bool,
    pub chrome: Chrome,
}

impl View for WindowPlan {
    type V = WindowPlanView;

    open spec fn view(&self) -> WindowPlanView {
        WindowPlanView {
            label: self.label@,
            url: url_text(self.url),
            title: self.title@,
            size: self.size,
            min_size: self.min_size,
            transparent: self.transparent,
            chrome: self.chrome,
        }
    }
}

/// The plan of the window labelled `label` that shows the address `url` on
/// `platform`: titled "Onyx", opening at 1200 by 800, never smaller than 800
/// by 600, transparent, dressed as the platform asks.
pub open spec fn planned_window(label: Seq<char>, url: Seq<char>, platform: Platform)
    -> WindowPlanView {
    WindowPlanView {
        label,
        url,
        title: "Onyx"@,
        size: initial_size(),
        min_size: minimum_size(),
        transparent: true,
        chrome: chrome_on(platform),
    }
}

/// Why a window could not be planned.
#[derive(Clone, Debug)]
pub enum WindowError {
    /// The server address is no address; the text says why.
    InvalidUrl(String),
}

impl WindowError {
    /// The words of the error for the user.
    pub open spec fn message_text(self) -> Seq<char> {
        match self {
            WindowError::InvalidUrl(reason) => "Invalid URL: "@ + reason@,
        }
    }

    /// The words of the error for the user.
    pub fn message(&self) -> (message: String)
        ensures
            message@ == self.message_text(),
    {
        match self {
            WindowError::InvalidUrl(reason) => join2("Invalid URL: ", reason.as_str()),
        }
    }
}

/// What planning a window yields for a server address, given what the `url`
/// crate makes of that address.
pub open spec fn window_outcome(
    label: Seq<char>,
    parsed: Result<Seq<char>, ParseError>,
    platform: Platform,
) -> Result<WindowPlanView, Seq<char>> {
    match parsed {
        Ok(url) => Ok(planned_window(label, url, platform)),
        Err(error) => Err(parse_error_text(error)),
    }
}

/// What a result of planning holds: the plan, or the reason of the error.
pub open spec fn plan_result_view(result: Result<WindowPlan, WindowError>) -> Result<
    WindowPlanView,
    Seq<char>,
> {
    match result {
        Ok(plan) => Ok(plan@),
        Err(WindowError::InvalidUrl(reason)) => Err(reason@),
    }
}

/// The plan of a window for an address that was parsed already, or the error
/// for one that was refused.
pub fn plan_window_at(
    label: String,
    parsed: Result<Url, ParseError>,
    platform: Platform,
) -> (result: Result<WindowPlan, WindowError>)
    ensures
        plan_result_view(result) == window_outcome(
            label@,
            match parsed {
                Ok(url) => Ok(url_text(url)),
                Err(error) => Err(error),
            },
            platform,
        ),
{
    match parsed {
        Ok(url) => Ok(
            WindowPlan {
                label,
                url,
                title: window_title().to_owned(),
                size: WindowSize { width: 1200, height: 800 },
                min_size: WindowSize { width: 800, height: 600 },
                transparent: true,
                chrome: window_chrome(platform),
            },
        ),
        Err(error) => Err(WindowError::InvalidUrl(describe_parse_error(&error))),
    }
}

/// The plan of the window labelled `label` that shows the server at
/// `server_url`. The plan is made exactly if the `url` crate reads
/// `server_url` as an address; otherwise the error carries that crate's
/// reason.
pub fn plan_window(label: String, server_url: &str, platform: Platform) -> (result: Result<
    WindowPlan,
    WindowError,
>)
    ensures
        plan_result_view(result) == window_outcome(label@, parse_outcome(server_url@), platform),
{
    plan_window_at(label, parse_url(server_url), platform)
}

/// Whether `c` is a digit or a letter from `a` to `f`.
pub open spec fn is_lower_hex(c: char) -> bool {
    ('0' <= c && c <= '9') || ('a' <= c && c <= 'f')
}

/// Whether `s` is a random identifier as `uuid` displays it: 36 characters,
/// hyphens after the 8th, 12th, 16th and 20th digit, lower-case hexadecimal
/// digits elsewhere, the 13th digit a `4`.
pub open spec fn is_uuid_text(s: Seq<char>) -> bool {
    &&& s.len() == 36
    &&& s[8] == '-' && s[13] == '-' && s[18] == '-' && s[23] == '-'
    &&& s[14] == '4'
    &&& forall|i: int|
        0 <= i < 36 && i != 8 && i != 13 && i != 18 && i != 23 ==> is_lower_hex(#[trigger] s[i])
}

/// Calls `Uuid::new_v4` and displays the identifier it made. Which identifier
/// comes is left to chance; every one is displayed in the form that
/// `is_uuid_text` describes. Where the system has no random numbers to give,
/// `Uuid::new_v4` stops the program.
#[verifier::external_body]
fn random_uuid_text() -> (text: String)
    ensures
        is_uuid_text(text@),
{
    uuid::Uuid::new_v4().to_string()
}

/// The label of the secondary window with the suffix `suffix`.
pub open spec fn label_for(suffix: Seq<char>) -> Seq<char> {
    "onyx-"@ + suffix
}

/// Whether `label` is the label of a secondary window: the stable prefix
/// before a random identifier.
pub open spec fn is_secondary_label(label: Seq<char>) -> bool {
    exists|suffix: Seq<char>| is_uuid_text(suffix) && label == label_for(suffix)
}

/// The label of the secondary window with the suffix `suffix`.
pub fn window_label(suffix: &str) -> (label: String)
    ensures
        label@ == label_for(suffix@),
{
    join2("onyx-", suffix)
}

/// A label for a new secondary window: the stable prefix before a random
/// identifier drawn for this call.
pub fn fresh_window_label() -> (label: String)
    ensures
        is_secondary_label(label@),
{
    let suffix = random_uuid_text();
    window_label(suffix.as_str())
}

/// Labels differ exactly as their suffixes do, and none is the label of the
/// main window.
pub proof fn lemma_window_labels(a: Seq<char>, b: Seq<char>)
    ensures
        label_for(a) == label_for(b) <==> a == b,
        label_for(a) != "main"@,
        "onyx-"@.is_prefix_of(label_for(a)),
{
    reveal_strlit("onyx-");
    reveal_strlit("main");
    assert(label_for(a)[0] == 'o');
    assert("main"@[0] == 'm');
    assert(label_for(a).subrange(0, 5) =~= "onyx-"@);
    if label_for(a) == label_for(b) {
        assert(a =~= label_for(a).skip(5));
        assert(b =~= label_for(b).skip(5));
    }
}

/// The plan of one more window that shows the server at `server_url`, under
/// a fresh label. The plan is made exactly if the `url` crate reads
/// `server_url` as an address.
pub fn new_window(server_url: &str, platform: Platform) -> (result: Result<
    WindowPlan,
    WindowError,
>)
    ensures
        exists|label: Seq<char>|
            is_secondary_label(label) && plan_result_view(result) == #[trigger] window_outcome(
                label,
                parse_outcome(server_url@),
                platform,
            ),
{
    let label = fresh_window_label();
    let ghost l = label@;
    let result = plan_window(label, server_url, platform);
    assert(plan_result_view(result) == window_outcome(l, parse_outcome(server_url@), platform));
    result
}

/// Where the main window is sent at startup, given the text of the server
/// address as parsed and the text of the address that the window shows: to
/// the server, unless the window shows it already or the server address is no
/// address.
pub open spec fn startup_target(parsed: Option<Seq<char>>, current: Option<Seq<char>>) -> Option<
    Seq<char>,
> {
    match parsed {
        Some(target) if current != Some(target) => Some(target),
        _ => None,
    }
}

/// Where the main window is sent at startup, for a server address that was
/// parsed already. `current` is the address that the window shows, if the
/// host could tell it.
pub fn startup_navigation_to(parsed: Result<Url, ParseError>, current: &Option<Url>) -> (target: Option<
    Url,
>)
    ensures
        optional_url_text(target) == startup_target(
            match parsed {
                Ok(url) => Some(url_text(url)),
                Err(_) => None,
            },
            optional_url_text(*current),
        ),
{
    match parsed {
        Ok(url) => {
            let shown = match current {
                Some(c) => same_url(c, &url),
                None => false,
            };
            if shown {
                None
            } else {
                Some(url)
            }
        },
        Err(_) => None,
    }
}

/// Where the main window is sent at startup: to the server at `server_url`,
/// unless it shows that address already or the `url` crate does not read
/// `server_url` as an address.
pub fn startup_navigation(server_url: &str, current: &Option<Url>) -> (target: Option<Url>)
    ensures
        optional_url_text(target) == startup_target(
            parsed_text(server_url@),
            optional_url_text(*current),
        ),
{
    startup_navigation_to(parse_url(server_url), current)
}

/// One thing the host does to a window that exists.
#[derive(Clone, Copy, Debug, PartialEq, Eq, Structural)]
pub enum WindowStep {
    /// Give the window its vibrant background.
    ApplyVibrancy,
    /// Send the window to the server.
    Navigate,
    /// Start a schedule of injections of the title-bar script.
    InjectTitlebar,
    /// Focus the window.
    Focus,
}

/// What the host does to a new window once it is built: under an overlay
/// title bar the vibrant background and the title-bar script; in every case
/// the focus, last.
pub open spec fn steps_once_built(chrome: Chrome) -> Seq<WindowStep> {
    if chrome is Overlay {
        seq![WindowStep::ApplyVibrancy, WindowStep::InjectTitlebar, WindowStep::Focus]
    } else {
        seq![WindowStep::Focus]
    }
}

/// What the host does to the main window at startup: the same, with the
/// navigation to the server, where one is due, before the script.
pub open spec fn steps_at_startup(chrome: Chrome, navigate: bool) -> Seq<WindowStep> {
    let dress = if chrome is Overlay {
        seq![WindowStep::ApplyVibrancy]
    } else {
        Seq::empty()
    };
    let go = if navigate {
        seq![WindowStep::Navigate]
    } else {
        Seq::empty()
    };
    let script = if chrome is Overlay {
        seq![WindowStep::InjectTitlebar]
    } else {
        Seq::empty()
    };
    dress + go + script + seq![WindowStep::Focus]
}

/// What the host does to a new window once it is built.
pub fn after_build(chrome: Chrome) -> (steps: Vec<WindowStep>)
    ensures
        steps@ == steps_once_built(chrome),
{
    let mut steps: Vec<WindowStep> = Vec::new();
    if let Chrome::Overlay = chrome {
        steps.push(WindowStep::ApplyVibrancy);
        steps.push(WindowStep::InjectTitlebar);
    }
    steps.push(WindowStep::Focus);
    assert(steps@ =~= steps_once_built(chrome));
    steps
}

/// What the host does to the main window at startup. `navigate` says whether
/// the window is to be sent to the server.
pub fn at_startup(chrome: Chrome, navigate: bool) -> (steps: Vec<WindowStep>)
    ensures
        steps@ == steps_at_startup(chrome, navigate),
{
    let mut steps: Vec<WindowStep> = Vec::new();
    if let Chrome::Overlay = chrome {
        steps.push(WindowStep::ApplyVibrancy);
    }
    if navigate {
        steps.push(WindowStep::Navigate);
    }
    if let Chrome::Overlay = chrome {
        steps.push(WindowStep::InjectTitlebar);
    }
    steps.push(WindowStep::Focus);
    assert(steps@ =~= steps_at_startup(chrome, navigate));
    steps
}

/// A window is focused exactly once, as the last thing done to it, both when
/// it was just built and at startup.
pub proof fn lemma_focus_comes_last(chrome: Chrome, navigate: bool)
    ensures
        steps_once_built(chrome).last() == WindowStep::Focus,
        steps_at_startup(chrome, navigate).last() == WindowStep::Focus,
        forall|i: int|
            0 <= i < steps_once_built(chrome).len() - 1 ==> steps_once_built(chrome)[i]
                != WindowStep::Focus,
        forall|i: int|
            0 <= i < steps_at_startup(chrome, navigate).len() - 1 ==> steps_at_startup(
                chrome,
                navigate,
            )[i] != WindowStep::Focus,
{
}

/// Where a window stands in its life. The shell never closes a window and
/// does not follow one that the user closed: that is the host's part.
#[derive(Clone, Copy, Debug, PartialEq, Eq, Structural)]
pub enum Surface {
    /// There is no such window.
    NonExistent,
    /// The host is building the window.
    Creating,
    /// The window is there.
    Live,
}

/// Something that happens to a window.
#[derive(Clone, Copy, Debug, PartialEq, Eq, Structural)]
pub enum SurfaceEvent {
    /// The shell asked the host to build the window.
    Create,
    /// The host built the window.
    Built,
    /// The host could not build the window.
    Failed,
    /// The shell sent the window to an address.
    Navigate,
    /// The shell reloaded the page of the window.
    Reload,
    /// The shell focused the window.
    Focus,
}

/// Where a window stands after `event`. A window that is not there is built
/// on request; building ends with the window there, or with no window at all
/// if it fails. Whatever else happens leaves the window where it stands.
pub open spec fn surface_after(surface: Surface, event: SurfaceEvent) -> Surface {
    match (surface, event) {
        (Surface::NonExistent, SurfaceEvent::Create) => Surface::Creating,
        (Surface::Creating, SurfaceEvent::Built) => Surface::Live,
        (Surface::Creating, SurfaceEvent::Failed) => Surface::NonExistent,
        _ => surface,
    }
}

/// Whether `event` does anything to a window that stands at `surface`:
/// a request to build needs that there is no window yet, the end of building
/// that the window is being built, and everything else that the window is
/// there.
pub open spec fn surface_takes(surface: Surface, event: SurfaceEvent) -> bool {
    match event {
        SurfaceEvent::Create => surface is NonExistent,
        SurfaceEvent::Built | SurfaceEvent::Failed => surface is Creating,
        _ => surface is Live,
    }
}

impl Surface {
    /// Where the window stands after `event`.
    pub fn after(self, event: SurfaceEvent) -> (next: Surface)
        ensures
            next == surface_after(self, event),
    {
        match (self, event) {
            (Surface::NonExistent, SurfaceEvent::Create) => Surface::Creating,
            (Surface::Creating, SurfaceEvent::Built) => Surface::Live,
            (Surface::Creating, SurfaceEvent::Failed) => Surface::NonExistent,
            _ => self,
        }
    }

    /// Whether `event` does anything to the window.
    pub fn takes(self, event: SurfaceEvent) -> (taken: bool)
        ensures
            taken == surface_takes(self, event),
    {
        match event {
            SurfaceEvent::Create => match self {
                Surface::NonExistent => true,
                _ => false,
            },
            SurfaceEvent::Built | SurfaceEvent::Failed => match self {
                Surface::Creating => true,
                _ => false,
            },
            _ => match self {
                Surface::Live => true,
                _ => false,
            },
        }
    }
}

/// A window that is there stays there whatever the shell does to it, and an
/// event that a window does not take leaves it where it stands. Navigating,
/// reloading and focusing can be repeated at will: the second time changes
/// nothing that the first did not.
pub proof fn lemma_surface_life(surface: Surface, event: SurfaceEvent)
    ensures
        surface_after(Surface::Live, event) == Surface::Live,
        !surface_takes(surface, event) ==> surface_after(surface, event) == surface,
        (event is Navigate || event is Reload || event is Focus) ==> surface_after(surface, event)
            == surface,
        surface_after(surface, event) is Live ==> surface is Live || (surface is Creating && event
            is Built),
{
}

} // verus!
