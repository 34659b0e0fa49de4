use canvas_assembly::app_root::{
    app_config_path, path_join, pc_react_root, repo_root_candidate, resolve_canvas_app_root,
    APP_CONFIG_FILE,
};

#[test]
fn canvas_app_root_resolves_to_pc_react_manifest_root() {
    let repo_root = repo_root_candidate("/work/sdkwork-canvas/crates/sdkwork-api-canvas-standalone-gateway");
    let manifest = app_config_path(&pc_react_root(&repo_root));
    // The PC React app directory holds its app config file.
    let root = resolve_canvas_app_root(repo_root.clone(), true, None);
    assert_eq!(app_config_path(&root), manifest);
    assert!(app_config_path(&root).ends_with(APP_CONFIG_FILE));
}

#[test]
fn canvas_app_root_prefers_the_canonical_pc_react_directory() {
    let root = resolve_canvas_app_root(
        "/work/sdkwork-canvas".to_string(),
        true,
        Some("/srv/sdkwork-canvas/sdkwork-canvas-pc-react".to_string()),
    );
    assert_eq!(root, "/srv/sdkwork-canvas/sdkwork-canvas-pc-react");
}

#[test]
fn canvas_app_root_falls_back_to_repository_root_without_app_config() {
    let root = resolve_canvas_app_root("/work/sdkwork-canvas".to_string(), false, None);
    assert_eq!(root, "/work/sdkwork-canvas");
}

#[test]
fn path_join_follows_unix_path_rules() {
    assert_eq!(path_join("/a/b", "c"), "/a/b/c");
    assert_eq!(path_join("/a/b/", "c"), "/a/b/c");
    assert_eq!(path_join("", "c"), "c");
    assert_eq!(path_join("/a/b", "/etc"), "/etc");
    assert_eq!(repo_root_candidate("/x/crates/gw"), "/x/crates/gw/../..");
    assert_eq!(pc_react_root("/x"), "/x/sdkwork-canvas-pc-react");
    assert_eq!(app_config_path("/x"), "/x/sdkwork.app.config.json");
    for (base, segment) in [("/a/b", "c"), ("/a/b/", "c"), ("", "c"), ("rel", "x/y"), ("/a", "/abs")] {
        let expected = std::path::PathBuf::from(base).join(segment);
        assert_eq!(path_join(base, segment), expected.to_str().unwrap());
    }
}
