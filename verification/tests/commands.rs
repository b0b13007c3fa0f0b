use spyrun::command::{
    exec_log_paths, prepare_invocation, render_command, CommandInfo, CommandResult, Materializer,
};
use spyrun::context::Context;

fn sample_info() -> CommandInfo {
    CommandInfo {
        name: "demo".to_string(),
        event_path: "/work/in/file.txt".to_string(),
        event_kind: "Create".to_string(),
        cmd: "echo".to_string(),
        arg: vec!["{{event_name}}".to_string()],
        input: "/work/in".to_string(),
        output: "/work/out".to_string(),
    }
}

#[test]
fn test_display_form() {
    let info = sample_info();
    let display = info.display_string();
    assert_eq!(
        display,
        "CommandInfo { name: demo, event_path: /work/in/file.txt, event_kind: Create, \
         cmd: echo, arg: [{{event_name}}], input: /work/in, output: /work/out }"
    );
}

#[test]
fn test_empty_limitkey_defaults_to_display_form() {
    let info = sample_info();
    let context = Context::new();
    let inv = prepare_invocation(&info, &context, "/work", "", "").unwrap();
    assert_eq!(inv.limitkey, inv.info.display_string());
    assert_eq!(inv.mutexkey, inv.info.display_string());
}

#[test]
fn test_nonempty_key_template_is_rendered() {
    let info = sample_info();
    let context = Context::new();
    let inv =
        prepare_invocation(&info, &context, "/work", "{{event_name}}", "lock-{{event_ext}}").unwrap();
    assert_eq!(inv.limitkey, "file.txt");
    assert_eq!(inv.mutexkey, "lock-txt");
    // The rendered limit key entered the context before the mutex key
    // rendered against it.
    assert_eq!(inv.context.get("limitkey").unwrap(), &inv.limitkey);
    let inv2 = prepare_invocation(&info, &context, "/work", "", "{{limitkey}}-lock").unwrap();
    assert_eq!(inv2.mutexkey, format!("{}-lock", inv2.info.display_string()));
}

#[test]
fn test_materializer_step_order() {
    let info = sample_info();
    let context = Context::new();
    let mut m = Materializer::start(&info, &context, "/work", "", "mkey");
    let mut seen: Vec<String> = Vec::new();
    while let Some(t) = m.pending() {
        seen.push(t.clone());
        m.supply(format!("<{}>", t));
    }
    let inv = m.finish();
    // Spy name, command, each argument, input, output, then only the
    // non-empty key template; the empty limit key is never rendered.
    assert_eq!(seen, vec!["demo", "echo", "{{event_name}}", "/work/in", "/work/out", "mkey"]);
    assert_eq!(inv.info.cmd, "<echo>");
    assert_eq!(inv.info.arg, vec!["<{{event_name}}>".to_string()]);
    assert_eq!(inv.info.name, "demo");
    assert_eq!(inv.limitkey, inv.info.display_string());
    assert_eq!(inv.mutexkey, "<mkey>");
    assert_eq!(inv.context.get("limitkey").unwrap(), &inv.limitkey);
    assert_eq!(inv.context.get("mutexkey").unwrap(), "<mkey>");
    assert_eq!(inv.context.get("arg").unwrap(), "<{{event_name}}>");
    assert_eq!(inv.context.get("event_name").unwrap(), "file.txt");
}

#[test]
fn test_render_supports_enc_dec_helpers() {
    let info = CommandInfo {
        cmd: "{{ enc(arg='Alice') }}".to_string(),
        arg: vec!["{{ dec(arg='EzB4qO+2K66gKXPBNRl7owf4EGpo') }}".to_string()],
        ..sample_info()
    };
    let context = Context::new();
    let (rendered, _) = render_command(&info, &context, "/work").unwrap();
    assert_eq!(rendered.cmd, "EzB4qO+2K66gKXPBNRl7owf4EGpo");
    assert_eq!(rendered.arg, vec!["Alice".to_string()]);
}

#[test]
fn test_render_context_binds_rendered_fields() {
    let info = sample_info();
    let context = Context::new();
    let (rendered, ctx) = render_command(&info, &context, "/work").unwrap();
    assert_eq!(ctx.get("cmd").unwrap(), &rendered.cmd);
    assert_eq!(ctx.get("arg").unwrap(), &rendered.arg.join(" "));
    assert_eq!(ctx.get("input").unwrap(), &rendered.input);
    assert_eq!(ctx.get("output").unwrap(), &rendered.output);
}

#[test]
fn test_render_fills_event_decomposition() {
    let info = CommandInfo {
        arg: vec![
            "{{event_path}}".to_string(),
            "{{event_dir}}".to_string(),
            "{{event_dirname}}".to_string(),
            "{{event_name}}".to_string(),
            "{{event_stem}}".to_string(),
            "{{event_ext}}".to_string(),
        ],
        ..sample_info()
    };
    let context = Context::new();
    let (rendered, _) = render_command(&info, &context, "/cwd").unwrap();
    assert_eq!(
        rendered.arg,
        vec!["/work/in/file.txt", "/work/in", "in", "file.txt", "file", "txt"]
    );
}

#[test]
fn test_render_twice_is_identical() {
    let info = sample_info();
    let mut context = Context::new();
    context.insert("extra", "value");
    let (first, _) = render_command(&info, &context, "/work").unwrap();
    let (second, _) = render_command(&info, &context, "/work").unwrap();
    assert_eq!(first.name, second.name);
    assert_eq!(first.event_path, second.event_path);
    assert_eq!(first.event_kind, second.event_kind);
    assert_eq!(first.cmd, second.cmd);
    assert_eq!(first.arg, second.arg);
    assert_eq!(first.input, second.input);
    assert_eq!(first.output, second.output);
}

#[test]
fn test_render_bad_template_is_error() {
    let info = CommandInfo { cmd: "{{ unclosed".to_string(), ..sample_info() };
    let context = Context::new();
    assert!(render_command(&info, &context, "/work").is_err());
}

#[test]
fn test_skipped_result_has_empty_paths() {
    let skipped = CommandResult::skipped_result();
    assert!(skipped.skipped);
    assert_eq!(skipped.status, 0);
    assert!(skipped.stdout.is_empty());
    assert!(skipped.stderr.is_empty());
}

#[test]
fn test_completed_result_keeps_paths() {
    let done = CommandResult::completed_result(3, "/out/a.log".to_string(), "/out/b.log".to_string());
    assert!(!done.skipped);
    assert_eq!(done.status, 3);
    assert_eq!(done.stdout, "/out/a.log");
    assert_eq!(done.stderr, "/out/b.log");
}

#[test]
fn test_exec_log_paths_shape() {
    let info = sample_info();
    let (stdout_path, stderr_path) = exec_log_paths(&info);
    assert!(stdout_path.starts_with("/work/out/demo_stdout_"));
    assert!(stderr_path.starts_with("/work/out/demo_stderr_"));
    assert!(stdout_path.ends_with(".log"));
    assert!(stderr_path.ends_with(".log"));
    // Both carry the same timestamp: YYYYMMDD_HHMMSS plus milliseconds.
    let stamp = &stdout_path["/work/out/demo_stdout_".len()..stdout_path.len() - ".log".len()];
    let stamp2 = &stderr_path["/work/out/demo_stderr_".len()..stderr_path.len() - ".log".len()];
    assert_eq!(stamp, stamp2);
    assert_eq!(stamp.len(), 18);
    assert_eq!(stamp.as_bytes()[8], b'_');
    assert!(stamp.chars().enumerate().all(|(i, c)| i == 8 || c.is_ascii_digit()));
}

#[test]
fn test_duplicate_preserves_fields() {
    let info = sample_info();
    let copy = info.duplicate();
    assert_eq!(copy.name, info.name);
    assert_eq!(copy.arg, info.arg);
    assert_eq!(copy.output, info.output);
}
