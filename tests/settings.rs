use audio_idle_inhibit::settings::{default_idle_inhibitor, default_media_minimum_duration, default_verbosity};
use audio_idle_inhibit::settings::{
    Args, ConfigError, FileConfig, IdleInhibitor, LogLevel, NodeFilterSource, ParseIdleInhibitorError, Settings,
};

fn args() -> Args {
    Args {
        media_minimum_duration: None,
        verbosity: None,
        quiet: false,
        idle_inhibitor: None,
        dbus: false,
        wayland: false,
        dry_run: false,
        config: None,
    }
}

fn file() -> FileConfig {
    FileConfig {
        media_minimum_duration: None,
        idle_inhibitor: None,
        verbosity: None,
        sink_whitelist: vec![],
        node_blacklist: vec![],
    }
}

#[test]
fn defaults_apply() {
    let s = Settings::resolve(&args(), &file()).unwrap();
    assert_eq!(s.get_media_minimum_duration(), Some(5));
    assert_eq!(s.get_verbosity(), LogLevel::Warn);
    assert_eq!(s.get_idle_inhibitor(), IdleInhibitor::Wayland);
    assert!(s.get_sink_whitelist().is_empty());
    assert!(s.get_node_blacklist().is_empty());
}

#[test]
fn command_line_overrides_file() {
    let mut a = args();
    a.media_minimum_duration = Some(0);
    a.quiet = true;
    a.dry_run = true;
    let mut f = file();
    f.media_minimum_duration = Some(9);
    f.verbosity = Some("debug".to_string());
    f.idle_inhibitor = Some("d-bus".to_string());
    let s = Settings::resolve(&a, &f).unwrap();
    assert_eq!(s.get_media_minimum_duration(), None);
    assert_eq!(s.get_verbosity(), LogLevel::Off);
    assert_eq!(s.get_idle_inhibitor(), IdleInhibitor::DryRun);
}

#[test]
fn file_values_fill_in() {
    let mut f = file();
    f.media_minimum_duration = Some(9);
    f.verbosity = Some("trace".to_string());
    f.idle_inhibitor = Some("dbus".to_string());
    f.sink_whitelist = vec![Some("^Speakers$".to_string())];
    f.node_blacklist = vec![NodeFilterSource {
        name: None,
        app_name: Some("^browser$".to_string()),
        media_class: None,
        media_role: None,
        media_software: None,
    }];
    let s = Settings::resolve(&args(), &f).unwrap();
    assert_eq!(s.get_media_minimum_duration(), Some(9));
    assert_eq!(s.get_verbosity(), LogLevel::Trace);
    assert_eq!(s.get_idle_inhibitor(), IdleInhibitor::DBus);
    assert_eq!(s.get_sink_whitelist().len(), 1);
    let (w, b) = s.into_filters();
    assert_eq!((w.len(), b.len()), (1, 1));
}

#[test]
fn negative_duration_disables_debounce() {
    let mut a = args();
    a.media_minimum_duration = Some(-3);
    let s = Settings::resolve(&a, &file()).unwrap();
    assert_eq!(s.get_media_minimum_duration(), None);
}

#[test]
fn configuration_errors() {
    let mut f = file();
    f.verbosity = Some("loud".to_string());
    assert_eq!(Settings::resolve(&args(), &f).unwrap_err(), ConfigError::Verbosity("loud".to_string()));
    let mut f = file();
    f.idle_inhibitor = Some("x11".to_string());
    assert_eq!(
        Settings::resolve(&args(), &f).unwrap_err(),
        ConfigError::IdleInhibitor(ParseIdleInhibitorError("x11".to_string()))
    );
    let mut f = file();
    f.sink_whitelist = vec![Some("(".to_string())];
    assert!(matches!(Settings::resolve(&args(), &f), Err(ConfigError::Pattern(p)) if p.pattern == "("));
    // An overridden file value is not read.
    let mut a = args();
    a.verbosity = Some(LogLevel::Info);
    let mut f = file();
    f.verbosity = Some("loud".to_string());
    assert_eq!(Settings::resolve(&a, &f).unwrap().get_verbosity(), LogLevel::Info);
}

#[test]
fn backend_and_level_names() {
    assert_eq!("d-bus".parse::<IdleInhibitor>(), Ok(IdleInhibitor::DBus));
    assert_eq!(IdleInhibitor::from_name("dry-run"), Ok(IdleInhibitor::DryRun));
    assert_eq!(IdleInhibitor::from_name("wayland"), Ok(IdleInhibitor::Wayland));
    assert_eq!(IdleInhibitor::from_name("none"), Err(ParseIdleInhibitorError("none".to_string())));
    assert_eq!(IdleInhibitor::DBus.name(), "d-bus");
    assert_eq!(LogLevel::from_name("warn"), Some(LogLevel::Warn));
    assert_eq!(LogLevel::from_name("WARN"), None);
    let mut a = args();
    a.quiet = true;
    assert_eq!(a.get_log_level(), Some(LogLevel::Off));
    assert_eq!(args().get_idle_inhibitor(), None);
}

#[test]
fn default_values() {
    assert_eq!(default_media_minimum_duration(), 5);
    assert_eq!(default_verbosity(), LogLevel::Warn);
    assert_eq!(default_idle_inhibitor(), IdleInhibitor::Wayland);
}

#[test]
fn backend_names_round_trip() {
    for i in [IdleInhibitor::DBus, IdleInhibitor::DryRun, IdleInhibitor::Wayland] {
        assert_eq!(i.name().parse::<IdleInhibitor>(), Ok(i));
    }
}
