//! The application root that the canvas tenant application is bootstrapped
//! from: the PC React app when its app config is present, else the repository
//! root.

use vstd::prelude::*;
use crate::text::push_char;
use vstd::string::StrSliceExecFns;

verus! {

/// The repository root, relative to the gateway crate's manifest directory.
pub const REPO_ROOT_FROM_MANIFEST_DIR: &'static str = "../..";

/// The directory of the PC React app inside the repository.
pub const PC_REACT_DIR: &'static str = "sdkwork-canvas-pc-react";

/// The app config file that marks an application root.
pub const APP_CONFIG_FILE: &'static str = "sdkwork.app.config.json";

/// `base` joined with `segment` as `PathBuf::join` does on Unix: an absolute
/// segment replaces the base, otherwise a separator is added when the base is
/// not empty and does not end in one.
pub open spec fn path_join_spec(base: Seq<char>, segment: Seq<char>) -> Seq<char> {
    if segment.len() > 0 && segment[0] == '/' {
        segment
    } else if base.len() == 0 || base.last() == '/' {
        base + segment
    } else {
        base + seq!['/'] + segment
    }
}

/// `base` joined with `segment`.
pub fn path_join(base: &str, segment: &str) -> (path: String)
    ensures
        path@ == path_join_spec(base@, segment@),
{
    let seg_len = segment.unicode_len();
    if seg_len > 0 && segment.get_char(0) == '/' {
        return String::from_str(segment);
    }
    let base_len = base.unicode_len();
    let mut path = String::from_str(base);
    if base_len > 0 && base.get_char(base_len - 1) != '/' {
        push_char(&mut path, '/');
    }
    path.append(segment);
    path
}

/// The repository root derived from the gateway crate's manifest directory,
/// before it is canonicalised.
pub fn repo_root_candidate(manifest_dir: &str) -> (root: String)
    ensures
        root@ == path_join_spec(manifest_dir@, REPO_ROOT_FROM_MANIFEST_DIR@),
{
    path_join(manifest_dir, REPO_ROOT_FROM_MANIFEST_DIR)
}

/// The PC React app directory of a repository root.
pub fn pc_react_root(repo_root: &str) -> (root: String)
    ensures
        root@ == path_join_spec(repo_root@, PC_REACT_DIR@),
{
    path_join(repo_root, PC_REACT_DIR)
}

/// The app config path of an application root.
pub fn app_config_path(root: &str) -> (path: String)
    ensures
        path@ == path_join_spec(root@, APP_CONFIG_FILE@),
{
    path_join(root, APP_CONFIG_FILE)
}

/// The application root: the PC React app directory when its app config is a
/// file (canonicalised when that succeeded), else the repository root.
pub open spec fn canvas_app_root_spec(
    repo_root: Seq<char>,
    pc_react_has_app_config: bool,
    canonical_pc_react_root: Option<Seq<char>>,
) -> Seq<char> {
    if pc_react_has_app_config {
        match canonical_pc_react_root {
            Some(c) => c,
            None => path_join_spec(repo_root, PC_REACT_DIR@),
        }
    } else {
        repo_root
    }
}

/// Resolves the canvas application root from the repository root, whether the
/// PC React app directory holds the app config file, and that directory's
/// canonical form when canonicalisation succeeded.
pub fn resolve_canvas_app_root(
    repo_root: String,
    pc_react_has_app_config: bool,
    canonical_pc_react_root: Option<String>,
) -> (root: String)
    ensures
        root@ == canvas_app_root_spec(
            repo_root@,
            pc_react_has_app_config,
            match canonical_pc_react_root {
                Some(c) => Some(c@),
                None => None,
            },
        ),
{
    if pc_react_has_app_config {
        match canonical_pc_react_root {
            Some(c) => c,
            None => pc_react_root(repo_root.as_str()),
        }
    } else {
        repo_root
    }
}

} // verus!
