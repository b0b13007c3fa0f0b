use spyrun::command::CommandInfo;
use spyrun::context::Context;
use spyrun::event::{EventKind, FsEvent};
use spyrun::matcher::find_pattern;
use spyrun::settings::{Pattern, Spy};

fn spy_with(events: Vec<&str>, patterns: Vec<Pattern>) -> Spy {
    let mut spy = Spy::new("test".to_string());
    spy.events = Some(events.into_iter().map(String::from).collect());
    spy.patterns = Some(patterns);
    spy
}

fn ps1_patterns() -> Vec<Pattern> {
    vec![
        Pattern { pattern: "\\.cmd$".to_string(), cmd: "{{event_path}}".to_string(), arg: vec![] },
        Pattern {
            pattern: "\\.ps1$".to_string(),
            cmd: "powershell".to_string(),
            arg: vec!["-File".to_string(), "{{event_path}}".to_string()],
        },
    ]
}

#[test]
fn test_rule_match_selects_second_pattern() {
    let spy = spy_with(vec!["Create", "Modify"], ps1_patterns());
    let event = FsEvent { kind: EventKind::Create, paths: vec!["a/b.ps1".to_string()] };
    let selected = find_pattern(&event, &spy).unwrap().unwrap();
    assert_eq!(selected.pattern, "\\.ps1$");
    assert_eq!(selected.cmd, "powershell");
    assert_eq!(selected.arg, vec!["-File".to_string(), "{{event_path}}".to_string()]);
}

#[test]
fn test_rule_match_renders_event_path() {
    let spy = spy_with(vec!["Create", "Modify"], ps1_patterns());
    let event = FsEvent { kind: EventKind::Create, paths: vec!["a/b.ps1".to_string()] };
    let selected = find_pattern(&event, &spy).unwrap().unwrap();

    let info = CommandInfo {
        name: "test".to_string(),
        event_path: event.paths.last().unwrap().clone(),
        event_kind: "Create".to_string(),
        cmd: selected.cmd,
        arg: selected.arg,
        input: "input".to_string(),
        output: "output".to_string(),
    };
    let context = Context::new();
    let (rendered, _ctx) = spyrun::command::render_command(&info, &context, "/work").unwrap();
    assert_eq!(rendered.cmd, "powershell");
    assert_eq!(rendered.arg, vec!["-File".to_string(), "/work/a/b.ps1".to_string()]);
}

#[test]
fn test_unlisted_kind_is_unmatched() {
    let spy = spy_with(vec!["Create", "Modify"], ps1_patterns());
    let event = FsEvent { kind: EventKind::Remove, paths: vec!["a/b.ps1".to_string()] };
    assert!(find_pattern(&event, &spy).unwrap().is_none());
}

#[test]
fn test_empty_paths_is_unmatched() {
    let spy = spy_with(vec!["Create", "Modify"], ps1_patterns());
    let event = FsEvent { kind: EventKind::Create, paths: vec![] };
    assert!(find_pattern(&event, &spy).unwrap().is_none());
}

#[test]
fn test_no_pattern_matches() {
    let spy = spy_with(vec!["Create"], ps1_patterns());
    let event = FsEvent { kind: EventKind::Create, paths: vec!["a/b.txt".to_string()] };
    assert!(find_pattern(&event, &spy).unwrap().is_none());
}

#[test]
fn test_first_matching_pattern_wins() {
    let patterns = vec![
        Pattern { pattern: "b".to_string(), cmd: "first".to_string(), arg: vec![] },
        Pattern { pattern: "\\.ps1$".to_string(), cmd: "second".to_string(), arg: vec![] },
    ];
    let spy = spy_with(vec!["Create"], patterns);
    let event = FsEvent { kind: EventKind::Create, paths: vec!["a/b.ps1".to_string()] };
    assert_eq!(find_pattern(&event, &spy).unwrap().unwrap().cmd, "first");
}

#[test]
fn test_invalid_pattern_is_error() {
    let patterns = vec![
        Pattern { pattern: "(unclosed".to_string(), cmd: "broken".to_string(), arg: vec![] },
    ];
    let spy = spy_with(vec!["Create"], patterns);
    let event = FsEvent { kind: EventKind::Create, paths: vec!["a/b.ps1".to_string()] };
    let err = find_pattern(&event, &spy).unwrap_err();
    assert_eq!(err.index, 0);
}

#[test]
fn test_matching_is_deterministic() {
    let spy = spy_with(vec!["Create", "Modify"], ps1_patterns());
    let event = FsEvent { kind: EventKind::Create, paths: vec!["a/b.ps1".to_string()] };
    let once = find_pattern(&event, &spy).unwrap().unwrap();
    let twice = find_pattern(&event, &spy).unwrap().unwrap();
    assert_eq!(once.pattern, twice.pattern);
    assert_eq!(once.cmd, twice.cmd);
    assert_eq!(once.arg, twice.arg);
}

#[test]
fn test_event_kind_tokens() {
    assert_eq!(spyrun::event::event_kind_to_string(EventKind::Create), "Create");
    assert_eq!(spyrun::event::event_kind_to_string(EventKind::Other), "Other");
    assert_eq!(spyrun::event::string_to_event_kind("Remove"), EventKind::Remove);
    assert_eq!(spyrun::event::string_to_event_kind("Any"), EventKind::Modify);
}
