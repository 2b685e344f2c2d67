//! What each shell action does: the effects that the host carries out on its
//! windows, given whether the main window exists.

use crate::action::ShellAction;
use crate::config::ConfigState;
use crate::platform::Platform;
use crate::router::{route, routed_actions, ShellEvent};
use crate::text::{join2, join3};
use crate::weburl::{settings_text, settings_url, url_text};
use url::Url;
use vstd::prelude::*;

verus! {

/// One thing for the host to carry out.
#[derive(Clone, Debug)]
pub enum Effect {
    /// Restore the main window if it is minimised, show it, and focus it.
    RaiseMain,
    /// Run the script in the page of the main window. A failure is ignored.
    RunScript(String),
    /// Point the main window at the address.
    Navigate(Url),
    /// Open one more window on the server at the address in the text, in the
    /// background, and focus it once it is built. A failure is logged and
    /// otherwise ignored.
    OpenWindow(String),
    /// Open the configuration file in an editor.
    OpenConfigFile,
    /// Open the documentation in the browser.
    OpenDocs,
    /// Leave the program with the exit code.
    Exit(i32),
}

/// What an `Effect` holds.
pub enum EffectView {
    RaiseMain,
    RunScript(Seq<char>),
    Navigate(Seq<char>),
    OpenWindow(Seq<char>),
    OpenConfigFile,
    OpenDocs,
    Exit(i32),
}

impl View for Effect {
    type V = EffectView;

    open spec fn view(&self) -> EffectView {
        match self {
            Effect::RaiseMain => EffectView::RaiseMain,
            Effect::RunScript(script) => EffectView::RunScript(script@),
            Effect::Navigate(url) => EffectView::Navigate(url_text(*url)),
            Effect::OpenWindow(server_url) => EffectView::OpenWindow(server_url@),
            Effect::OpenConfigFile => EffectView::OpenConfigFile,
            Effect::OpenDocs => EffectView::OpenDocs,
            Effect::Exit(code) => EffectView::Exit(*code),
        }
    }
}

/// What a list of effects holds.
pub open spec fn effects_view(effects: Seq<Effect>) -> Seq<EffectView> {
    Seq::new(effects.len(), |i: int| effects[i]@)
}

/// The script that sends the page to `path` on the server at `server_url`.
pub open spec fn navigation_script(server_url: Seq<char>, path: Seq<char>) -> Seq<char> {
    "window.location.href = '"@ + (server_url + path) + "'"@
}

/// The path of the chat page.
pub open spec fn chat_path() -> Seq<char> {
    "/chat"@
}

/// The script that reloads the page.
pub fn reload_script() -> (script: &'static str)
    ensures
        script@ == "window.location.reload()"@,
{
    "window.location.reload()"
}

/// The script that goes one step back in the history of the page.
pub fn history_back_script() -> (script: &'static str)
    ensures
        script@ == "window.history.back()"@,
{
    "window.history.back()"
}

/// The script that goes one step forward in the history of the page.
pub fn history_forward_script() -> (script: &'static str)
    ensures
        script@ == "window.history.forward()"@,
{
    "window.history.forward()"
}

/// The effects of a script that needs the main window: the script where the
/// window exists, nothing where it does not.
pub open spec fn script_in_main(main_exists: bool, script: Seq<char>) -> Seq<EffectView> {
    if main_exists {
        seq![EffectView::RunScript(script)]
    } else {
        Seq::empty()
    }
}

/// The effects of `action`, given whether the main window exists, the
/// address of the server and the base address if one was captured.
pub open spec fn planned_effects(
    action: ShellAction,
    main_exists: bool,
    server_url: Seq<char>,
    base_url: Option<Url>,
) -> Seq<EffectView> {
    match action {
        ShellAction::FocusMain => if main_exists {
            seq![EffectView::RaiseMain]
        } else {
            seq![EffectView::OpenWindow(server_url)]
        },
        ShellAction::NewChat => script_in_main(
            main_exists,
            navigation_script(server_url, chat_path()),
        ),
        ShellAction::OpenNewWindow => seq![EffectView::OpenWindow(server_url)],
        ShellAction::NavigateSettings => match settings_text(base_url) {
            Some(url) if main_exists => seq![EffectView::Navigate(url)],
            _ => Seq::empty(),
        },
        ShellAction::ReloadMain => script_in_main(main_exists, "window.location.reload()"@),
        ShellAction::HistoryBack => script_in_main(main_exists, "window.history.back()"@),
        ShellAction::HistoryForward => script_in_main(main_exists, "window.history.forward()"@),
        ShellAction::OpenConfigFile => if main_exists {
            seq![EffectView::OpenConfigFile]
        } else {
            Seq::empty()
        },
        ShellAction::OpenDocs => seq![EffectView::OpenDocs],
        ShellAction::Quit => seq![EffectView::Exit(0)],
    }
}

/// The effects of the actions `actions`, one after the other.
pub open spec fn planned_effects_of_all(
    actions: Seq<ShellAction>,
    main_exists: bool,
    server_url: Seq<char>,
    base_url: Option<Url>,
) -> Seq<EffectView>
    decreases actions.len(),
{
    if actions.len() == 0 {
        Seq::empty()
    } else {
        planned_effects_of_all(actions.drop_last(), main_exists, server_url, base_url)
            + planned_effects(actions.last(), main_exists, server_url, base_url)
    }
}

/// Whether the effect ends with a window of the shell in focus.
pub open spec fn focuses_a_window(effect: EffectView) -> bool {
    effect is RaiseMain || effect is OpenWindow
}

/// The script that sends the page to `path` on the server at `server_url`.
pub fn build_navigation_script(server_url: &str, path: &str) -> (script: String)
    ensures
        script@ == navigation_script(server_url@, path@),
{
    let target = join2(server_url, path);
    join3("window.location.href = '", target.as_str(), "'")
}

fn run_in_main(main_exists: bool, script: String) -> (effects: Vec<Effect>)
    ensures
        effects_view(effects@) == script_in_main(main_exists, script@),
{
    let mut effects: Vec<Effect> = Vec::new();
    if main_exists {
        effects.push(Effect::RunScript(script));
    }
    assert(effects_view(effects@) =~= script_in_main(main_exists, script@));
    effects
}

fn one_effect(effect: Effect) -> (effects: Vec<Effect>)
    ensures
        effects_view(effects@) == seq![effect@],
{
    let mut effects: Vec<Effect> = Vec::new();
    effects.push(effect);
    assert(effects_view(effects@) =~= seq![effect@]);
    effects
}

fn no_effect() -> (effects: Vec<Effect>)
    ensures
        effects_view(effects@) == Seq::<EffectView>::empty(),
{
    let effects: Vec<Effect> = Vec::new();
    assert(effects_view(effects@) =~= Seq::<EffectView>::empty());
    effects
}

/// The effects of sending the main window to `path` on the server: one
/// script where the window exists, nothing where it does not.
pub fn plan_navigation(main_exists: bool, server_url: &str, path: &str) -> (effects: Vec<Effect>)
    ensures
        effects_view(effects@) == script_in_main(
            main_exists,
            navigation_script(server_url@, path@),
        ),
{
    run_in_main(main_exists, build_navigation_script(server_url, path))
}

/// The effects of `action`, given whether the main window exists, the
/// address of the server and the base address if one was captured.
pub fn plan_action(
    action: ShellAction,
    main_exists: bool,
    server_url: &str,
    base_url: &Option<Url>,
) -> (effects: Vec<Effect>)
    ensures
        effects_view(effects@) == planned_effects(
            action,
            main_exists,
            server_url@,
            *base_url,
        ),
{
    match action {
        ShellAction::FocusMain => {
            if main_exists {
                one_effect(Effect::RaiseMain)
            } else {
                one_effect(Effect::OpenWindow(server_url.to_owned()))
            }
        },
        ShellAction::NewChat => plan_navigation(main_exists, server_url, "/chat"),
        ShellAction::OpenNewWindow => one_effect(Effect::OpenWindow(server_url.to_owned())),
        ShellAction::NavigateSettings => {
            if !main_exists {
                return no_effect();
            }
            match settings_url(base_url) {
                Some(url) => one_effect(Effect::Navigate(url)),
                None => no_effect(),
            }
        },
        ShellAction::ReloadMain => run_in_main(main_exists, reload_script().to_owned()),
        ShellAction::HistoryBack => run_in_main(main_exists, history_back_script().to_owned()),
        ShellAction::HistoryForward => run_in_main(
            main_exists,
            history_forward_script().to_owned(),
        ),
        ShellAction::OpenConfigFile => {
            if main_exists {
                one_effect(Effect::OpenConfigFile)
            } else {
                no_effect()
            }
        },
        ShellAction::OpenDocs => one_effect(Effect::OpenDocs),
        ShellAction::Quit => one_effect(Effect::Exit(0)),
    }
}

/// The effects of the actions `actions`, one after the other.
pub fn plan_actions(
    actions: &Vec<ShellAction>,
    main_exists: bool,
    server_url: &str,
    base_url: &Option<Url>,
) -> (effects: Vec<Effect>)
    ensures
        effects_view(effects@) == planned_effects_of_all(
            actions@,
            main_exists,
            server_url@,
            *base_url,
        ),
{
    let mut effects: Vec<Effect> = Vec::new();
    let mut i: usize = 0;
    assert(actions@.take(0) =~= Seq::<ShellAction>::empty());
    assert(effects_view(effects@) =~= Seq::<EffectView>::empty());
    while i < actions.len()
        invariant
            i <= actions.len(),
            effects_view(effects@) == planned_effects_of_all(
                actions@.take(i as int),
                main_exists,
                server_url@,
                *base_url,
            ),
        decreases actions.len() - i,
    {
        let mut more = plan_action(actions[i], main_exists, server_url, base_url);
        let ghost before = effects@;
        let ghost added = more@;
        effects.append(&mut more);
        proof {
            assert(effects@ == before + added);
            assert(effects_view(before + added) =~= effects_view(before) + effects_view(added));
            assert(actions@.take(i + 1).drop_last() =~= actions@.take(i as int));
        }
        i += 1;
    }
    assert(actions@.take(i as int) =~= actions@);
    effects
}

impl ConfigState {
    /// The effects of `action` in this state of the shell.
    pub fn plan(&self, action: ShellAction, main_exists: bool) -> (effects: Vec<Effect>)
        ensures
            effects_view(effects@) == planned_effects(
                action,
                main_exists,
                self@.config.server_url,
                self@.app_base_url,
            ),
    {
        plan_action(action, main_exists, self.server_url(), self.base_url())
    }

    /// The effects of the actions `actions` in this state of the shell, one
    /// after the other.
    pub fn plan_all(&self, actions: &Vec<ShellAction>, main_exists: bool) -> (effects: Vec<Effect>)
        ensures
            effects_view(effects@) == planned_effects_of_all(
                actions@,
                main_exists,
                self@.config.server_url,
                self@.app_base_url,
            ),
    {
        plan_actions(actions, main_exists, self.server_url(), self.base_url())
    }

    /// The effects of `event` in this state of the shell: those of the
    /// actions that the router finds for it, one after the other.
    pub fn handle(&self, event: &ShellEvent, main_exists: bool, platform: Platform) -> (effects:
        Vec<Effect>)
        ensures
            effects_view(effects@) == planned_effects_of_all(
                routed_actions(event@, platform),
                main_exists,
                self@.config.server_url,
                self@.app_base_url,
            ),
    {
        let actions = route(event, platform);
        self.plan_all(&actions, main_exists)
    }
}

/// Asking for the main window always ends with exactly one window in focus:
/// the main window where it exists, and a new window where it does not. In the
/// second case the effects are those of asking for a new window.
pub proof fn lemma_focus_main_lands(
    main_exists: bool,
    server_url: Seq<char>,
    base_url: Option<Url>,
)
    ensures
        planned_effects(ShellAction::FocusMain, main_exists, server_url, base_url).len() == 1,
        focuses_a_window(
            planned_effects(ShellAction::FocusMain, main_exists, server_url, base_url)[0],
        ),
        planned_effects(ShellAction::FocusMain, false, server_url, base_url) == planned_effects(
            ShellAction::OpenNewWindow,
            main_exists,
            server_url,
            base_url,
        ),
{
}

/// An action that only reads or steers the page of the main window does
/// nothing where that window does not exist.
pub proof fn lemma_needs_main(
    action: ShellAction,
    server_url: Seq<char>,
    base_url: Option<Url>,
)
    requires
        action != ShellAction::FocusMain,
        action != ShellAction::OpenNewWindow,
        action != ShellAction::OpenDocs,
        action != ShellAction::Quit,
    ensures
        planned_effects(action, false, server_url, base_url) == Seq::<EffectView>::empty(),
{
}

} // verus!
