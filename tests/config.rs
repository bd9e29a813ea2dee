use git_sync::config::{branch_from_remote_head, ResolvedConfig};

fn s(v: &str) -> Option<String> {
    Some(v.to_string())
}

#[test]
fn test_resolved_config_with_file() {
    let c = ResolvedConfig::resolve(None, s("master"), s("upstream"), s("origin"), s("main"));
    assert_eq!(c.main, "master");
    assert_eq!(c.remote, "upstream");
}

#[test]
fn test_resolved_config_with_override() {
    let c = ResolvedConfig::resolve(
        s("override-main"),
        s("master"),
        s("upstream"),
        s("origin"),
        s("main"),
    );
    assert_eq!(c.main, "override-main");
    assert_eq!(c.remote, "upstream");
}

#[test]
fn repository_values_come_next() {
    let c = ResolvedConfig::resolve(None, None, None, s("mirror"), s("develop"));
    assert_eq!(c.main, "develop");
    assert_eq!(c.remote, "mirror");
}

#[test]
fn test_resolved_config_defaults() {
    // No file, a repository whose default remote is `origin` and whose
    // remote has no symbolic HEAD.
    let c = ResolvedConfig::resolve(None, None, None, s("origin"), None);
    assert_eq!(c.remote, "origin");
    assert!(!c.main.is_empty());
    assert_eq!(c.main, "main");
}

#[test]
fn hard_coded_defaults_come_last() {
    let c = ResolvedConfig::resolve(None, None, None, None, None);
    assert_eq!(c.main, "main");
    assert_eq!(c.remote, "origin");
}

#[test]
fn resolve_parts_agree_with_resolve() {
    assert_eq!(ResolvedConfig::resolve_remote(None, s("mirror")), "mirror");
    assert_eq!(ResolvedConfig::resolve_remote(s("up"), s("mirror")), "up");
    assert_eq!(ResolvedConfig::resolve_main(None, s("dev"), s("main")), "dev");
    assert_eq!(ResolvedConfig::resolve_main(None, None, None), "main");
}

#[test]
fn remote_head_target_gives_last_segment() {
    assert_eq!(branch_from_remote_head("refs/remotes/origin/main"), "main");
    assert_eq!(branch_from_remote_head("trunk"), "trunk");
    assert_eq!(branch_from_remote_head("refs/remotes/origin/"), "");
    assert_eq!(branch_from_remote_head(""), "");
}
