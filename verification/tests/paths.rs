use spyrun::context::{build_cmd_map, insert_default_context, insert_file_context, Context};
use spyrun::pathinfo::{
    path_dir, path_dirname, path_ext, path_is_absolute, path_name, path_resolve, path_stem,
};
use spyrun::runtime::delay_duration;
use spyrun::strutil::powershell_wrapped;

#[test]
fn test_decomposition_plain() {
    let p = "/work/in/file.txt";
    assert_eq!(path_dir(p), "/work/in");
    assert_eq!(path_dirname(p), "in");
    assert_eq!(path_name(p), "file.txt");
    assert_eq!(path_stem(p), "file");
    assert_eq!(path_ext(p), "txt");
}

#[test]
fn test_decomposition_edges() {
    assert_eq!(path_dir("name"), "");
    assert_eq!(path_name("name"), "name");
    assert_eq!(path_ext("name"), "");
    assert_eq!(path_stem("name"), "name");

    assert_eq!(path_dir("/x"), "/");
    assert_eq!(path_name("/x"), "x");

    assert_eq!(path_stem("a/.hidden"), ".hidden");
    assert_eq!(path_ext("a/.hidden"), "");

    assert_eq!(path_stem("a/b.tar.gz"), "b.tar");
    assert_eq!(path_ext("a/b.tar.gz"), "gz");
}

#[test]
fn test_resolve() {
    assert!(path_is_absolute("/a/b"));
    assert!(!path_is_absolute("a/b"));
    assert_eq!(path_resolve("/cwd", "a/b"), "/cwd/a/b");
    assert_eq!(path_resolve("/cwd/", "a/b"), "/cwd/a/b");
    assert_eq!(path_resolve("/cwd", "/abs"), "/abs");
    assert_eq!(path_resolve("", "a"), "/a");
}

#[test]
fn test_context_insert_get_overwrite() {
    let mut ctx = Context::new();
    assert!(ctx.get("k").is_none());
    ctx.insert("k", "v1");
    assert_eq!(ctx.get("k").unwrap(), "v1");
    ctx.insert("k", "v2");
    assert_eq!(ctx.get("k").unwrap(), "v2");
    let copy = ctx.duplicate();
    assert_eq!(copy.get("k").unwrap(), "v2");
}

#[test]
fn test_insert_file_context_keys() {
    let mut ctx = Context::new();
    insert_file_context("in/doc.md", "event", &mut ctx, "/base");
    assert_eq!(ctx.get("event_path").unwrap(), "/base/in/doc.md");
    assert_eq!(ctx.get("event_dir").unwrap(), "/base/in");
    assert_eq!(ctx.get("event_dirname").unwrap(), "in");
    assert_eq!(ctx.get("event_name").unwrap(), "doc.md");
    assert_eq!(ctx.get("event_stem").unwrap(), "doc");
    assert_eq!(ctx.get("event_ext").unwrap(), "md");
}

#[test]
fn test_build_cmd_map() {
    let ctx = build_cmd_map("/bin/app", "app --config spyrun.toml", "20240101123456789", "/run");
    assert_eq!(ctx.get("cmd_line").unwrap(), "app --config spyrun.toml");
    assert_eq!(ctx.get("now").unwrap(), "20240101123456789");
    assert_eq!(ctx.get("cwd").unwrap(), "/run");
    assert_eq!(ctx.get("cmd_path").unwrap(), "/bin/app");
    assert_eq!(ctx.get("cmd_dir").unwrap(), "/bin");
    assert_eq!(ctx.get("cmd_name").unwrap(), "app");
}

#[test]
fn test_insert_default_context_self_references() {
    let mut ctx = Context::new();
    insert_default_context(&mut ctx);
    assert_eq!(ctx.get("spy_name").unwrap(), "{{ spy_name }}");
    assert_eq!(ctx.get("log_ext").unwrap(), "{{ log_ext }}");
    assert_eq!(ctx.get("stop_force_path").unwrap(), "{{ stop_force_path }}");
}

#[test]
fn test_delay_duration() {
    assert_eq!(delay_duration(None), None);
    assert_eq!(delay_duration(Some((100, None))), Some(100));
    let drawn = delay_duration(Some((100, Some(300)))).unwrap();
    assert!((100..=300).contains(&drawn));
    assert_eq!(delay_duration(Some((42, Some(42)))), Some(42));
}

#[test]
fn test_powershell_wrapped() {
    let wrapped = powershell_wrapped("Get-Date");
    assert!(wrapped.starts_with("& { chcp 65001 | Out-Null;"));
    assert!(wrapped.ends_with("Get-Date }"));
}
