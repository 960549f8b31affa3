use qurop::config::{resolve_instance, ConfigInstance, MatcherKind};
use qurop::errors::Error;
use qurop::session::WindowMatcher;

fn entry(matcher: MatcherKind, class_name: Option<&str>) -> ConfigInstance {
    ConfigInstance {
        command: "alacritty -e tmux".to_owned(),
        matcher,
        class_name: class_name.map(|c| c.to_owned()),
        window_delay_ms: None,
        geometry: None,
    }
}

#[test]
fn unknown_instance_is_rejected() {
    let r = resolve_instance("missing".to_owned(), None);
    assert_eq!(r.unwrap_err(), Error::UnknownInstance);
}

#[test]
fn class_matcher_requires_class_name() {
    let r = resolve_instance("term".to_owned(), Some(entry(MatcherKind::Class, None)));
    assert_eq!(r.unwrap_err(), Error::MissingClassName);
}

#[test]
fn class_matcher_resolves_to_window_class() {
    let r = resolve_instance(
        "term".to_owned(),
        Some(entry(MatcherKind::Class, Some("Alacritty"))),
    );
    let inst = r.unwrap();
    assert!(matches!(&inst.matcher, WindowMatcher::WmClass(c) if c == "Alacritty"));
    assert_eq!(inst.name, "term");
    assert_eq!(inst.command, "alacritty -e tmux");
}

#[test]
fn process_matcher_starts_unresolved() {
    let r = resolve_instance("term".to_owned(), Some(entry(MatcherKind::Process, None)));
    let inst = r.unwrap();
    assert!(matches!(inst.matcher, WindowMatcher::UnresolvedProcess));
}

#[test]
fn defaults_are_applied() {
    let r = resolve_instance("term".to_owned(), Some(entry(MatcherKind::Process, None)));
    let inst = r.unwrap();
    assert_eq!(inst.window_delay, Some(100));
    assert_eq!(inst.geometry.width, "66%");
    assert_eq!(inst.geometry.height, "50%");
}

#[test]
fn configured_values_win_over_defaults() {
    let mut e = entry(MatcherKind::Process, None);
    e.window_delay_ms = Some(250);
    e.geometry = Some(qurop::geometry::WindowGeometry {
        width: "80%".to_owned(),
        height: "480".to_owned(),
    });
    let inst = resolve_instance("term".to_owned(), Some(e)).unwrap();
    assert_eq!(inst.window_delay, Some(250));
    assert_eq!(inst.geometry.width, "80%");
    assert_eq!(inst.geometry.height, "480");
}

#[test]
fn matcher_kind_parses_ignoring_case() {
    assert_eq!(MatcherKind::parse("process"), Some(MatcherKind::Process));
    assert_eq!(MatcherKind::parse("Process"), Some(MatcherKind::Process));
    assert_eq!(MatcherKind::parse("CLASS"), Some(MatcherKind::Class));
    assert_eq!(MatcherKind::parse("class"), Some(MatcherKind::Class));
    assert_eq!(MatcherKind::parse("window"), None);
    assert_eq!(MatcherKind::parse(""), None);
}

#[test]
fn default_matcher_kind_is_process() {
    assert_eq!(MatcherKind::default(), MatcherKind::Process);
}

#[test]
fn error_messages() {
    assert_eq!(Error::WindowNotFound.message(), "The window is not found");
    assert_eq!(Error::UnknownInstance.message(), "No configuration found for the instance");
    assert_eq!(Error::MissingClassName.message(), "'class_name' must be specified");
    assert_eq!(Error::InvalidGeometry.message(), "Invalid geometry dimension");
}
