use spyrun::settings::{
    default_loglevel, is_valid_event_kind, Cfg, Log, Pattern, Settings, Spy,
};

fn bare_spy(name: &str) -> Spy {
    Spy {
        name: name.to_string(),
        events: None,
        input: None,
        output: None,
        recursive: false,
        throttle: None,
        debounce: None,
        limitkey: None,
        mutexkey: None,
        patterns: None,
        delay: None,
        poll: None,
        walk: None,
    }
}

fn settings_with(spys: Vec<Spy>) -> Settings {
    Settings {
        log: Log { path: "log/app.log".to_string(), level: "info".to_string(), switch: false },
        cfg: Cfg { stop_flg: "stop.flg".to_string(), stop_force_flg: None, max_threads: None },
        init: None,
        spys,
    }
}

#[test]
fn test_default_spy_fields() {
    let d = Spy::default();
    assert_eq!(d.name, "default");
    assert_eq!(d.events, Some(vec!["Create".to_string(), "Modify".to_string()]));
    assert_eq!(d.input.as_deref(), Some("input"));
    assert_eq!(d.output.as_deref(), Some("output"));
    assert!(d.recursive);
    assert_eq!(d.throttle, Some(0));
    assert_eq!(d.debounce, Some(0));
    assert_eq!(d.limitkey.as_deref(), Some(""));
    assert_eq!(d.mutexkey.as_deref(), Some(""));
    let patterns = d.patterns.unwrap();
    assert_eq!(patterns.len(), 4);
    assert_eq!(patterns[0].pattern, "\\.ps1$");
    assert_eq!(patterns[0].cmd, "powershell");
    assert_eq!(
        patterns[0].arg,
        vec!["-NoProfile", "-ExecutionPolicy", "ByPass", "-File", "{{event_path}}"]
    );
    assert_eq!(patterns[3].pattern, "\\.sh$");
    assert_eq!(patterns[3].cmd, "bash");
    assert!(d.delay.is_none() && d.poll.is_none() && d.walk.is_none());
}

#[test]
fn test_spy_new_takes_name() {
    let s = Spy::new("watcher1".to_string());
    assert_eq!(s.name, "watcher1");
    assert_eq!(s.input.as_deref(), Some("input"));
    assert_eq!(s.events, Some(vec!["Create".to_string(), "Modify".to_string()]));
}

#[test]
fn test_rebuild_fills_from_configured_default() {
    let mut configured_default = bare_spy("default");
    configured_default.input = Some("shared-in".to_string());
    configured_default.throttle = Some(750);

    let mut own = bare_spy("mine");
    own.throttle = Some(10);

    let settings = settings_with(vec![configured_default, own]);
    let rebuilt = settings.rebuild();

    assert_eq!(rebuilt.spys.len(), 2);
    // The default spy itself is untouched.
    assert_eq!(rebuilt.spys[0].name, "default");
    assert_eq!(rebuilt.spys[0].input.as_deref(), Some("shared-in"));
    assert!(rebuilt.spys[0].events.is_none());
    // The other spy keeps its own values and inherits the rest.
    assert_eq!(rebuilt.spys[1].name, "mine");
    assert_eq!(rebuilt.spys[1].throttle, Some(10));
    assert_eq!(rebuilt.spys[1].input.as_deref(), Some("shared-in"));
    assert!(rebuilt.spys[1].events.is_none());
}

#[test]
fn test_rebuild_without_configured_default_uses_builtin() {
    let settings = settings_with(vec![bare_spy("solo")]);
    let rebuilt = settings.rebuild();
    let spy = &rebuilt.spys[0];
    assert_eq!(spy.name, "solo");
    assert_eq!(spy.events, Some(vec!["Create".to_string(), "Modify".to_string()]));
    assert_eq!(spy.input.as_deref(), Some("input"));
    assert_eq!(spy.output.as_deref(), Some("output"));
    assert_eq!(spy.throttle, Some(0));
    assert_eq!(spy.debounce, Some(0));
    assert_eq!(spy.patterns.as_ref().unwrap().len(), 4);
    // The recursive flag is the spy's own, not the default's.
    assert!(!spy.recursive);
}

#[test]
fn test_rebuild_keeps_log_and_cfg() {
    let settings = settings_with(vec![]);
    let rebuilt = settings.rebuild();
    assert_eq!(rebuilt.log.path, "log/app.log");
    assert_eq!(rebuilt.cfg.stop_flg, "stop.flg");
    assert!(rebuilt.init.is_none());
}

#[test]
fn test_backup_path() {
    assert_eq!(Settings::backup_path("dir/spyrun.toml"), "dir/spyrun_backup.toml");
    assert_eq!(Settings::backup_path("spyrun.toml"), "spyrun_backup.toml");
    assert_eq!(Settings::backup_path("/etc/app/conf"), "/etc/app/conf_backup");
}

#[test]
fn test_is_valid_event_kind() {
    let good: Vec<String> =
        ["Access", "Create", "Modify", "Remove", "Any"].iter().map(|s| s.to_string()).collect();
    assert!(is_valid_event_kind(&good));
    let bad: Vec<String> = vec!["Create".to_string(), "Rename".to_string()];
    assert!(!is_valid_event_kind(&bad));
    let empty: Vec<String> = vec![];
    assert!(is_valid_event_kind(&empty));
}

#[test]
fn test_default_loglevel() {
    assert_eq!(default_loglevel(), "info");
}

#[test]
fn test_pattern_fields() {
    let p = Pattern {
        pattern: "\\.sh$".to_string(),
        cmd: "bash".to_string(),
        arg: vec!["-c".to_string()],
    };
    assert_eq!(p.pattern, "\\.sh$");
    assert_eq!(p.cmd, "bash");
    assert_eq!(p.arg, vec!["-c".to_string()]);
}
