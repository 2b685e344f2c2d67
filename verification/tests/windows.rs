use onyx_desktop::platform::Platform;
use onyx_desktop::weburl::{
    can_rewrite, checked_base_url, derive_base_url, settings_url, MAX_URL_LENGTH,
};
use onyx_desktop::window::{
    after_build, at_startup, fresh_window_label, main_window_label, new_window, plan_window,
    plan_window_at, startup_navigation, startup_navigation_to, window_chrome, window_label,
    window_title, Chrome, Color, Surface, SurfaceEvent, WindowError, WindowSize, WindowStep,
};
use std::collections::HashSet;
use url::Url;

fn parse(text: &str) -> Url {
    Url::parse(text).unwrap()
}

#[test]
fn fixed_window_texts() {
    assert_eq!(main_window_label(), "main");
    assert_eq!(window_title(), "Onyx");
}

#[test]
fn chrome_of_each_platform() {
    assert_eq!(window_chrome(Platform::MacOs), Chrome::Overlay);
    assert_eq!(
        window_chrome(Platform::Linux),
        Chrome::Tinted(Color { red: 0x1a, green: 0x1a, blue: 0x2e, alpha: 0xff })
    );
    assert_eq!(window_chrome(Platform::Windows), Chrome::Plain);
    assert_eq!(window_chrome(Platform::Other), Chrome::Plain);
}

#[test]
fn label_is_prefix_and_suffix() {
    assert_eq!(window_label("abc"), "onyx-abc");
    assert_eq!(window_label(""), "onyx-");
    assert_ne!(window_label("main"), main_window_label());
}

#[test]
fn fresh_labels_are_well_formed_and_differ() {
    let mut seen = HashSet::new();
    for _ in 0..200 {
        let label = fresh_window_label();
        assert_eq!(label.len(), 41);
        assert!(label.starts_with("onyx-"));
        let suffix = &label[5..];
        for (i, c) in suffix.chars().enumerate() {
            if i == 8 || i == 13 || i == 18 || i == 23 {
                assert_eq!(c, '-');
            } else {
                assert!(c.is_ascii_digit() || ('a'..='f').contains(&c));
            }
        }
        assert_eq!(suffix.chars().nth(14), Some('4'));
        assert_ne!(label, "main");
        assert!(seen.insert(label));
    }
}

#[test]
fn plan_of_a_window() {
    let plan = plan_window("onyx-1".to_string(), "https://cloud.onyx.app", Platform::MacOs);
    let plan = match plan {
        Ok(plan) => plan,
        Err(_) => panic!("the address is valid"),
    };
    assert_eq!(plan.label, "onyx-1");
    assert_eq!(plan.url.as_str(), "https://cloud.onyx.app/");
    assert_eq!(plan.title, "Onyx");
    assert_eq!(plan.size, WindowSize { width: 1200, height: 800 });
    assert_eq!(plan.min_size, WindowSize { width: 800, height: 600 });
    assert!(plan.transparent);
    assert_eq!(plan.chrome, Chrome::Overlay);
}

#[test]
fn plan_of_a_window_elsewhere() {
    for (platform, chrome) in [
        (Platform::Linux, window_chrome(Platform::Linux)),
        (Platform::Windows, Chrome::Plain),
        (Platform::Other, Chrome::Plain),
    ] {
        match plan_window("w".to_string(), "http://localhost:3000/app", platform) {
            Ok(plan) => {
                assert_eq!(plan.url.as_str(), "http://localhost:3000/app");
                assert_eq!(plan.chrome, chrome);
                assert!(plan.transparent);
            }
            Err(_) => panic!("the address is valid"),
        }
    }
}

#[test]
fn invalid_address_is_refused_with_the_reason() {
    match plan_window("w".to_string(), "not an address", Platform::Linux) {
        Err(WindowError::InvalidUrl(reason)) => {
            assert_eq!(reason, "relative URL without a base");
        }
        Ok(_) => panic!("the address is invalid"),
    }
    match plan_window("w".to_string(), "https:", Platform::Linux) {
        Err(error) => assert_eq!(error.message(), "Invalid URL: empty host"),
        Ok(_) => panic!("the address has no host"),
    }
    match plan_window_at("w".to_string(), Url::parse("http://[::1"), Platform::Linux) {
        Err(error) => assert_eq!(error.message(), "Invalid URL: invalid IPv6 address"),
        Ok(_) => panic!("the address is invalid"),
    }
}

#[test]
fn new_window_gets_a_fresh_label() {
    let first = new_window("https://example.com", Platform::Windows);
    let second = new_window("https://example.com", Platform::Windows);
    match (first, second) {
        (Ok(a), Ok(b)) => {
            assert!(a.label.starts_with("onyx-"));
            assert_eq!(a.label.len(), 41);
            assert_ne!(a.label, b.label);
            assert_eq!(a.url.as_str(), "https://example.com/");
            assert_eq!(a.size, WindowSize { width: 1200, height: 800 });
            assert_eq!(a.min_size, WindowSize { width: 800, height: 600 });
        }
        _ => panic!("the address is valid"),
    }
    assert!(matches!(new_window("nowhere", Platform::Windows), Err(WindowError::InvalidUrl(_))));
}

#[test]
fn base_url_keeps_the_origin_only() {
    assert_eq!(
        derive_base_url(parse("https://app.example.com/chat/42?tab=a#top")).as_str(),
        "https://app.example.com/"
    );
    assert_eq!(
        derive_base_url(parse("http://user:pw@localhost:3000/a/b/c")).as_str(),
        "http://user:pw@localhost:3000/"
    );
    assert_eq!(derive_base_url(parse("https://example.com")).as_str(), "https://example.com/");
    assert_eq!(derive_base_url(parse("tauri://localhost/index.html#x")).as_str(), "tauri://localhost/");
}

#[test]
fn base_url_of_a_base_url_is_itself() {
    let base = derive_base_url(parse("https://a.example/x?y#z"));
    assert_eq!(derive_base_url(base.clone()), base);
}

#[test]
fn checked_base_url_rewrites_short_addresses() {
    let loaded = parse("https://app.example.com/x?y=1");
    assert!(can_rewrite(&loaded));
    assert_eq!(checked_base_url(loaded).unwrap().as_str(), "https://app.example.com/");
    assert_eq!(MAX_URL_LENGTH, 0x0fff_ffff);
}

#[test]
fn settings_url_on_a_base() {
    let base = Some(parse("https://app.example.com/somewhere?q=1#old"));
    assert_eq!(settings_url(&base).unwrap().as_str(), "https://app.example.com/#settings");
    let plain = Some(parse("http://localhost:3000/"));
    assert_eq!(settings_url(&plain).unwrap().as_str(), "http://localhost:3000/#settings");
    assert_eq!(base.unwrap().as_str(), "https://app.example.com/somewhere?q=1#old");
}

#[test]
fn settings_url_without_a_base() {
    assert_eq!(settings_url(&None).unwrap().as_str(), "tauri://localhost/#settings");
}

#[test]
fn startup_goes_to_the_server_unless_already_there() {
    let target = startup_navigation("https://cloud.onyx.app", &Some(parse("about:blank")));
    assert_eq!(target.unwrap().as_str(), "https://cloud.onyx.app/");
    let target = startup_navigation("https://cloud.onyx.app", &None);
    assert_eq!(target.unwrap().as_str(), "https://cloud.onyx.app/");
    let there = Some(parse("https://cloud.onyx.app/"));
    assert!(startup_navigation("https://cloud.onyx.app", &there).is_none());
    let elsewhere = Some(parse("https://cloud.onyx.app/chat"));
    assert!(startup_navigation("https://cloud.onyx.app", &elsewhere).is_some());
    assert!(startup_navigation("no address", &None).is_none());
    assert!(startup_navigation_to(Url::parse("::"), &elsewhere).is_none());
}

#[test]
fn steps_once_a_window_is_built() {
    assert_eq!(
        after_build(Chrome::Overlay),
        vec![WindowStep::ApplyVibrancy, WindowStep::InjectTitlebar, WindowStep::Focus]
    );
    assert_eq!(after_build(Chrome::Plain), vec![WindowStep::Focus]);
    assert_eq!(after_build(window_chrome(Platform::Linux)), vec![WindowStep::Focus]);
}

#[test]
fn steps_at_startup() {
    assert_eq!(
        at_startup(Chrome::Overlay, true),
        vec![
            WindowStep::ApplyVibrancy,
            WindowStep::Navigate,
            WindowStep::InjectTitlebar,
            WindowStep::Focus,
        ]
    );
    assert_eq!(
        at_startup(Chrome::Overlay, false),
        vec![WindowStep::ApplyVibrancy, WindowStep::InjectTitlebar, WindowStep::Focus]
    );
    assert_eq!(at_startup(Chrome::Plain, true), vec![WindowStep::Navigate, WindowStep::Focus]);
    assert_eq!(at_startup(window_chrome(Platform::Linux), false), vec![WindowStep::Focus]);
}

#[test]
fn life_of_a_window() {
    let creating = Surface::NonExistent.after(SurfaceEvent::Create);
    assert_eq!(creating, Surface::Creating);
    assert_eq!(creating.after(SurfaceEvent::Built), Surface::Live);
    assert_eq!(creating.after(SurfaceEvent::Failed), Surface::NonExistent);
    assert_eq!(creating.after(SurfaceEvent::Create), Surface::Creating);
    assert_eq!(creating.after(SurfaceEvent::Focus), Surface::Creating);
    let events = [
        SurfaceEvent::Create,
        SurfaceEvent::Built,
        SurfaceEvent::Failed,
        SurfaceEvent::Navigate,
        SurfaceEvent::Reload,
        SurfaceEvent::Focus,
    ];
    for event in events {
        assert_eq!(Surface::Live.after(event), Surface::Live);
        if event != SurfaceEvent::Create {
            assert_eq!(Surface::NonExistent.after(event), Surface::NonExistent);
        }
        for surface in [Surface::NonExistent, Surface::Creating, Surface::Live] {
            if !surface.takes(event) {
                assert_eq!(surface.after(event), surface);
            }
        }
    }
    assert!(Surface::NonExistent.takes(SurfaceEvent::Create));
    assert!(!Surface::Live.takes(SurfaceEvent::Create));
    assert!(Surface::Creating.takes(SurfaceEvent::Built));
    assert!(Surface::Creating.takes(SurfaceEvent::Failed));
    assert!(!Surface::NonExistent.takes(SurfaceEvent::Navigate));
    assert!(!Surface::Creating.takes(SurfaceEvent::Reload));
    assert!(Surface::Live.takes(SurfaceEvent::Navigate));
    assert!(Surface::Live.takes(SurfaceEvent::Reload));
    assert!(Surface::Live.takes(SurfaceEvent::Focus));
}
