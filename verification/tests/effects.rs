use onyx_desktop::action::ShellAction;
use onyx_desktop::config::{load_config, ConfigRead, ConfigState};
use onyx_desktop::effects::{
    build_navigation_script, history_back_script, history_forward_script, plan_action,
    plan_actions, plan_navigation, reload_script, Effect,
};
use onyx_desktop::platform::Platform;
use onyx_desktop::router::ShellEvent;
use onyx_desktop::shortcuts::{Chord, Key};
use url::Url;

const SERVER: &str = "https://cloud.onyx.app";

const ACTIONS: [ShellAction; 10] = [
    ShellAction::FocusMain,
    ShellAction::NewChat,
    ShellAction::OpenNewWindow,
    ShellAction::NavigateSettings,
    ShellAction::ReloadMain,
    ShellAction::HistoryBack,
    ShellAction::HistoryForward,
    ShellAction::OpenConfigFile,
    ShellAction::OpenDocs,
    ShellAction::Quit,
];

/// The effects as text, so that two lists can be compared.
fn shown(effects: &[Effect]) -> Vec<String> {
    effects
        .iter()
        .map(|effect| match effect {
            Effect::RaiseMain => "raise".to_string(),
            Effect::RunScript(script) => format!("run {script}"),
            Effect::Navigate(url) => format!("navigate {url}"),
            Effect::OpenWindow(server) => format!("open {server}"),
            Effect::OpenConfigFile => "config".to_string(),
            Effect::OpenDocs => "docs".to_string(),
            Effect::Exit(code) => format!("exit {code}"),
        })
        .collect()
}

fn plan(action: ShellAction, main_exists: bool, base: &Option<Url>) -> Vec<String> {
    shown(&plan_action(action, main_exists, SERVER, base))
}

#[test]
fn scripts() {
    assert_eq!(reload_script(), "window.location.reload()");
    assert_eq!(history_back_script(), "window.history.back()");
    assert_eq!(history_forward_script(), "window.history.forward()");
    assert_eq!(
        build_navigation_script("https://cloud.onyx.app", "/chat"),
        "window.location.href = 'https://cloud.onyx.app/chat'"
    );
    assert_eq!(build_navigation_script("", ""), "window.location.href = ''");
}

#[test]
fn effects_with_a_main_window() {
    let base = Some(Url::parse("https://app.example.com/").unwrap());
    assert_eq!(plan(ShellAction::FocusMain, true, &base), ["raise"]);
    assert_eq!(
        plan(ShellAction::NewChat, true, &base),
        ["run window.location.href = 'https://cloud.onyx.app/chat'"]
    );
    assert_eq!(plan(ShellAction::OpenNewWindow, true, &base), ["open https://cloud.onyx.app"]);
    assert_eq!(
        plan(ShellAction::NavigateSettings, true, &base),
        ["navigate https://app.example.com/#settings"]
    );
    assert_eq!(plan(ShellAction::ReloadMain, true, &base), ["run window.location.reload()"]);
    assert_eq!(plan(ShellAction::HistoryBack, true, &base), ["run window.history.back()"]);
    assert_eq!(plan(ShellAction::HistoryForward, true, &base), ["run window.history.forward()"]);
    assert_eq!(plan(ShellAction::OpenConfigFile, true, &base), ["config"]);
    assert_eq!(plan(ShellAction::OpenDocs, true, &base), ["docs"]);
    assert_eq!(plan(ShellAction::Quit, true, &base), ["exit 0"]);
}

#[test]
fn effects_without_a_main_window() {
    let base = Some(Url::parse("https://app.example.com/").unwrap());
    let nothing: [&str; 0] = [];
    assert_eq!(plan(ShellAction::FocusMain, false, &base), ["open https://cloud.onyx.app"]);
    assert_eq!(plan(ShellAction::NewChat, false, &base), nothing);
    assert_eq!(plan(ShellAction::OpenNewWindow, false, &base), ["open https://cloud.onyx.app"]);
    assert_eq!(plan(ShellAction::NavigateSettings, false, &base), nothing);
    assert_eq!(plan(ShellAction::ReloadMain, false, &base), nothing);
    assert_eq!(plan(ShellAction::HistoryBack, false, &base), nothing);
    assert_eq!(plan(ShellAction::HistoryForward, false, &base), nothing);
    assert_eq!(plan(ShellAction::OpenConfigFile, false, &base), nothing);
    assert_eq!(plan(ShellAction::OpenDocs, false, &base), ["docs"]);
    assert_eq!(plan(ShellAction::Quit, false, &base), ["exit 0"]);
}

#[test]
fn settings_fall_back_to_the_placeholder() {
    assert_eq!(
        plan(ShellAction::NavigateSettings, true, &None),
        ["navigate tauri://localhost/#settings"]
    );
}

#[test]
fn focus_main_always_focuses_exactly_one_window() {
    for main_exists in [true, false] {
        let effects = plan_action(ShellAction::FocusMain, main_exists, SERVER, &None);
        let focusing = effects
            .iter()
            .filter(|e| matches!(e, Effect::RaiseMain | Effect::OpenWindow(_)))
            .count();
        assert_eq!(effects.len(), 1);
        assert_eq!(focusing, 1);
    }
    assert_eq!(
        plan(ShellAction::FocusMain, false, &None),
        plan(ShellAction::OpenNewWindow, false, &None)
    );
    assert_eq!(
        plan(ShellAction::FocusMain, false, &None),
        plan(ShellAction::OpenNewWindow, true, &None)
    );
}

#[test]
fn navigation_needs_the_main_window() {
    assert_eq!(
        shown(&plan_navigation(true, "http://localhost:3000", "/admin/settings")),
        ["run window.location.href = 'http://localhost:3000/admin/settings'"]
    );
    assert!(plan_navigation(false, "http://localhost:3000", "/admin").is_empty());
}

#[test]
fn effects_of_several_actions_follow_each_other() {
    let actions = vec![ShellAction::FocusMain, ShellAction::NewChat, ShellAction::Quit];
    assert_eq!(
        shown(&plan_actions(&actions, true, SERVER, &None)),
        ["raise", "run window.location.href = 'https://cloud.onyx.app/chat'", "exit 0"]
    );
    assert_eq!(
        shown(&plan_actions(&actions, false, SERVER, &None)),
        ["open https://cloud.onyx.app", "exit 0"]
    );
    assert!(plan_actions(&Vec::new(), true, SERVER, &None).is_empty());
}

#[test]
fn state_plans_with_its_own_address() {
    let mut state = ConfigState::new(load_config(ConfigRead::Absent));
    assert!(matches!(state.set_server_url("http://localhost:3000//"), Ok(_)));
    state.capture_base_url(Url::parse("http://localhost:3000/auth/login?next=%2F").unwrap());
    assert_eq!(
        shown(&state.plan(ShellAction::NewChat, true)),
        ["run window.location.href = 'http://localhost:3000/chat'"]
    );
    assert_eq!(
        shown(&state.plan(ShellAction::NavigateSettings, true)),
        ["navigate http://localhost:3000/#settings"]
    );
    for action in ACTIONS {
        for main_exists in [true, false] {
            assert_eq!(
                shown(&state.plan(action, main_exists)),
                shown(&plan_action(action, main_exists, state.server_url(), state.base_url()))
            );
        }
    }
    assert_eq!(
        shown(&state.plan_all(&vec![ShellAction::FocusMain, ShellAction::ReloadMain], true)),
        ["raise", "run window.location.reload()"]
    );
}

#[test]
fn state_handles_events() {
    let state = ConfigState::new(load_config(ConfigRead::Absent));
    let open_chat = ShellEvent::TrayItemClicked("tray_open_chat".to_string());
    assert_eq!(
        shown(&state.handle(&open_chat, true, Platform::MacOs)),
        ["raise", "run window.location.href = 'https://cloud.onyx.app/chat'"]
    );
    assert_eq!(
        shown(&state.handle(&open_chat, false, Platform::MacOs)),
        ["open https://cloud.onyx.app"]
    );
    let reload = ShellEvent::ShortcutFired(Chord {
        alt: false,
        control: false,
        shift: false,
        command: true,
        key: Key::KeyR,
    });
    assert_eq!(
        shown(&state.handle(&reload, true, Platform::Linux)),
        ["run window.location.reload()"]
    );
    assert!(state.handle(&reload, true, Platform::MacOs).is_empty());
    let pinned = ShellEvent::TrayItemClicked("tray_show_in_menu_bar".to_string());
    assert!(state.handle(&pinned, true, Platform::MacOs).is_empty());
    assert_eq!(shown(&state.handle(&ShellEvent::TrayIconClicked, true, Platform::Other)), ["raise"]);
    let docs = ShellEvent::MenuItemClicked("open_docs".to_string());
    assert_eq!(shown(&state.handle(&docs, false, Platform::Windows)), ["docs"]);
}
