use gesticle::configuration::{parse_milli, ActionResolution, ConfigDocument, GestureActions};
use gesticle::gestures::{GestureType, SwipeDirection};
use gesticle::paths::config_file_path;

fn sample_actions() -> GestureActions {
    let mut config = ConfigDocument::new();
    config.set("swipe.up.3", "ctrl+t");
    config.set("firefox.swipe.up.3", "ctrl+y");
    config.set("chrome.swipe.up.3", "");
    GestureActions::new_with_config(config)
}

#[test]
fn configuration_it_works() {
    let mut config = ConfigDocument::new();
    config.set("swipe.up.3", "ctrl+t");
    config.set("firefox.swipe.up.3", "ctrl+y");
    config.set("chrome.swipe.up.3", "");

    let actions = GestureActions::new_with_config(config);

    assert_eq!(actions.get_for_app("swipe.up.3", None), Some("ctrl+t".to_owned()));
    assert_eq!(actions.get_for_app("swipe.up.3", Some("firefox")), Some("ctrl+y".to_owned()));
    assert_eq!(actions.get_for_app("swipe.up.3", Some("gedit")), Some("ctrl+t".to_owned()));
    assert_eq!(actions.get_for_app("swipe.up.3", Some("chrome")), None);
}

#[test]
fn disabled_and_specified_are_distinct() {
    let actions = sample_actions();
    // chrome turned the gesture off explicitly: specified, and disabled.
    assert!(actions.is_specified("swipe.up.3", Some("chrome")));
    assert!(actions.is_disabled("swipe.up.3", Some("chrome")));
    // firefox overrode it with an action: specified, not disabled.
    assert!(actions.is_specified("swipe.up.3", Some("firefox")));
    assert!(!actions.is_disabled("swipe.up.3", Some("firefox")));
    // gedit never configured it: neither, although resolution inherits.
    assert!(!actions.is_specified("swipe.up.3", Some("gedit")));
    assert!(!actions.is_disabled("swipe.up.3", Some("gedit")));
    // The global key itself is specified.
    assert!(actions.is_specified("swipe.up.3", None));
    assert!(!actions.is_disabled("swipe.up.3", None));
}

#[test]
fn key_for_app_prefixes_the_namespace() {
    assert_eq!(
        GestureActions::key_for_app("swipe.up.3".to_owned(), Some("firefox")),
        "firefox.swipe.up.3".to_owned()
    );
    assert_eq!(
        GestureActions::key_for_app("swipe.up.3".to_owned(), None),
        "swipe.up.3".to_owned()
    );
}

#[test]
fn apps_excludes_exactly_the_reserved_prefixes() {
    let mut config = ConfigDocument::new();
    config.set("swipe.up.3", "ctrl+t");
    config.set("rotation.left", "a");
    config.set("pinch.in", "b");
    config.set("gesture.trigger.pinch.in.scale", "0.3");
    config.set("firefox.swipe.up.3", "ctrl+y");
    config.set("chrome.swipe.up.3", "");
    config.set("gedit", "odd-but-top-level");
    let actions = GestureActions::new_with_config(config);

    let mut apps = actions.apps().unwrap();
    apps.sort();
    assert_eq!(
        apps,
        vec!["chrome".to_owned(), "firefox".to_owned(), "gedit".to_owned()]
    );
}

#[test]
fn apps_reports_each_namespace_once() {
    let mut config = ConfigDocument::new();
    config.set("firefox.swipe.up.3", "x");
    config.set("firefox.swipe.down.3", "y");
    let actions = GestureActions::new_with_config(config);
    assert_eq!(actions.apps().unwrap(), vec!["firefox".to_owned()]);
}

#[test]
fn reload_replaces_the_document_wholesale() {
    let mut actions = sample_actions();
    let mut next = ConfigDocument::new();
    next.set("swipe.down.4", "alt+F4");
    actions.reload(next);
    // Nothing of the old document survives; everything of the new one is
    // there: no mixed view.
    assert_eq!(actions.get("swipe.up.3"), None);
    assert_eq!(actions.get("firefox.swipe.up.3"), None);
    assert_eq!(actions.get("swipe.down.4"), Some("alt+F4".to_owned()));
}

#[test]
fn later_writes_replace_earlier_values() {
    let mut config = ConfigDocument::new();
    config.set("swipe.up.3", "ctrl+t");
    config.set("swipe.up.3", "ctrl+w");
    assert_eq!(config.get("swipe.up.3"), Some("ctrl+w".to_owned()));
}

#[test]
fn parse_milli_reads_fixed_point_settings() {
    assert_eq!(parse_milli("0.3"), Some(300));
    assert_eq!(parse_milli("-1.25"), Some(-1250));
    assert_eq!(parse_milli("2"), Some(2000));
    assert_eq!(parse_milli("-2"), Some(-2000));
    assert_eq!(parse_milli("0.3333"), Some(333));
    assert_eq!(parse_milli("10.05"), Some(10050));
    assert_eq!(parse_milli("0.000"), Some(0));
}

#[test]
fn parse_milli_rejects_what_is_not_a_decimal() {
    assert_eq!(parse_milli(""), None);
    assert_eq!(parse_milli("abc"), None);
    assert_eq!(parse_milli("-"), None);
    assert_eq!(parse_milli("1."), None);
    assert_eq!(parse_milli(".5"), None);
    assert_eq!(parse_milli("1.2.3"), None);
    assert_eq!(parse_milli("1x.5"), None);
    assert_eq!(parse_milli("1.5x"), None);
    assert_eq!(parse_milli("99999999999999999999"), None);
}

#[test]
fn get_milli_reads_trigger_thresholds() {
    let mut config = ConfigDocument::new();
    config.set("gesture.trigger.pinch.in.scale", "0.3");
    config.set("gesture.trigger.pinch.out.scale", "bogus");
    let actions = GestureActions::new_with_config(config);
    assert_eq!(actions.get_milli("gesture.trigger.pinch.in.scale"), Some(300));
    assert_eq!(actions.get_milli("gesture.trigger.pinch.out.scale"), None);
    assert_eq!(actions.get_milli("gesture.trigger.absent"), None);
}

#[test]
fn resolve_action_distinguishes_skip_from_unconfigured() {
    let actions = sample_actions();
    let gesture = GestureType::Swipe(SwipeDirection::Up, 3);
    assert_eq!(
        actions.resolve_action(&gesture, Some("firefox")),
        ActionResolution::Dispatch("ctrl+y".to_owned())
    );
    assert_eq!(
        actions.resolve_action(&gesture, None),
        ActionResolution::Dispatch("ctrl+t".to_owned())
    );
    // chrome's empty override means: skip, explicitly turned off.
    assert_eq!(
        actions.resolve_action(&gesture, Some("chrome")),
        ActionResolution::NoAction
    );
    // A gesture no layer configures is unconfigured, not skipped.
    let other = GestureType::Swipe(SwipeDirection::Down, 4);
    assert_eq!(
        actions.resolve_action(&other, None),
        ActionResolution::Unconfigured
    );
}

#[test]
fn config_file_path_prefers_the_override() {
    assert_eq!(
        config_file_path(Some("/tmp/own.toml"), Some("/home/u/.gesticle/config.toml"), true, true),
        Ok("/tmp/own.toml".to_owned())
    );
}

#[test]
fn config_file_path_takes_the_home_file_when_it_exists() {
    assert_eq!(
        config_file_path(None, Some("/home/u/.gesticle/config.toml"), true, true),
        Ok("/home/u/.gesticle/config.toml".to_owned())
    );
}

#[test]
fn config_file_path_falls_back_to_the_system_file() {
    assert_eq!(
        config_file_path(None, Some("/home/u/.gesticle/config.toml"), false, true),
        Ok("/etc/gesticle/config.toml".to_owned())
    );
    assert_eq!(
        config_file_path(None, None, false, true),
        Ok("/etc/gesticle/config.toml".to_owned())
    );
}

#[test]
fn config_file_path_reports_when_nothing_exists() {
    assert_eq!(
        config_file_path(None, Some("/home/u/.gesticle/config.toml"), false, false),
        Err("nothing in ~/.gesticle/config.toml or /etc/gesticle/config.toml")
    );
}
