use setmeup::pattern::Pattern;
use setmeup::sources::{AnsibleContext, Source};

use tempfile::{Builder, TempDir};

fn make_source(name: &str, path: &str, recurse: bool, pattern: Option<&str>) -> Source {
    let filter = match pattern {
        Some(p) => Pattern::new(p.to_string()).expect("pattern should compile"),
        None => Pattern::default_filter(),
    };
    Source::new(
        name.to_string(),
        path.to_string(),
        recurse,
        filter,
        None,
        AnsibleContext::default(),
    )
}

fn touch(dir: &std::path::Path, name: &str, ext: &str) -> tempfile::NamedTempFile {
    Builder::new()
        .prefix(name)
        .suffix(ext)
        .rand_bytes(0)
        .keep(true)
        .tempfile_in(dir)
        .expect("failed to create a fixture file")
}

fn subdir(dir: &std::path::Path, name: &str) -> TempDir {
    Builder::new()
        .prefix(name)
        .rand_bytes(0)
        .tempdir_in(dir)
        .expect("failed to create a fixture directory")
}

/// A root directory holding playbook1.yml and playbook2.yaml.
fn root_only_fixture() -> (TempDir, Vec<tempfile::NamedTempFile>) {
    let root = tempfile::tempdir().expect("failed to create a fixture root");
    let a = touch(root.path(), "playbook1", ".yml");
    let b = touch(root.path(), "playbook2", ".yaml");
    (root, vec![a, b])
}

/// A root holding playbook1.yml, depth1/playbook2.yml and
/// depth2/depth1/playbook3.yml.
fn with_depth_fixture() -> (TempDir, Vec<TempDir>, Vec<tempfile::NamedTempFile>) {
    let root = tempfile::tempdir().expect("failed to create a fixture root");
    let a = touch(root.path(), "playbook1", ".yml");
    let d1 = subdir(root.path(), "depth1");
    let b = touch(d1.path(), "playbook2", ".yml");
    let d2 = subdir(root.path(), "depth2");
    let d21 = subdir(d2.path(), "depth1");
    let c = touch(d21.path(), "playbook3", ".yml");
    let files = vec![a, b, c];
    (root, vec![d1, d2, d21], files)
}

fn expect_playbooks(source: Source, expected: Vec<&str>) -> Result<(), String> {
    let playbooks = source.explore();
    for e in expected {
        if !playbooks.iter().any(|p| p == e) {
            return Err(format!("wrong playbook paths returned: {:?}", playbooks));
        }
    }
    Ok(())
}

#[test]
fn non_existent_dir_empty() -> Result<(), String> {
    let playbooks = make_source("nonexistent", "/nonexistent_provisioning_dir", false, None)
        .explore();
    match playbooks.len() {
        0 => Ok(()),
        n => Err(format!("expected no file match, got {}", n)),
    }
}

#[test]
fn existent_empty_ok() -> Result<(), String> {
    let root = tempfile::tempdir().expect("failed to create a fixture root");
    let playbooks = make_source("empty", root.path().to_str().unwrap(), false, None).explore();
    match playbooks.len() {
        0 => Ok(()),
        n => Err(format!("expected no file match, got {}", n)),
    }
}

#[test]
fn root_only() -> Result<(), String> {
    let (root, _files) = root_only_fixture();
    let source = make_source("root_only", root.path().to_str().unwrap(), false, None);
    expect_playbooks(source, vec!["playbook1.yml", "playbook2.yaml"])
}

#[test]
fn with_depth_no_recurse() -> Result<(), String> {
    let (root, _dirs, _files) = with_depth_fixture();
    let source = make_source("with_depth", root.path().to_str().unwrap(), false, None);
    let playbooks = make_source("with_depth", root.path().to_str().unwrap(), false, None)
        .explore();
    if playbooks.iter().any(|p| p.contains('/')) {
        return Err(format!("a non-recursive walk went deep: {:?}", playbooks));
    }
    expect_playbooks(source, vec!["playbook1.yml"])
}

#[test]
fn with_depth_recurse() -> Result<(), String> {
    let (root, _dirs, _files) = with_depth_fixture();
    let source = make_source("with_depth", root.path().to_str().unwrap(), true, None);
    expect_playbooks(
        source,
        vec!["playbook1.yml", "depth1/playbook2.yml", "depth2/depth1/playbook3.yml"],
    )
}

#[test]
fn playbook_match_none_no_recurse() -> Result<(), String> {
    let (root, _files) = root_only_fixture();
    let source = make_source("root_only", root.path().to_str().unwrap(), false, Some("nomatch"));
    let playbooks = source.explore();
    match playbooks.len() {
        0 => Ok(()),
        n => Err(format!("expected no file match, got {}", n)),
    }
}

#[test]
fn playbook_match_some_no_recurse() -> Result<(), String> {
    let (root, _files) = root_only_fixture();
    let source = make_source("root_only", root.path().to_str().unwrap(), false, Some("\\.yml$"));
    expect_playbooks(source, vec!["playbook1.yml"])
}

#[test]
fn playbook_match_some_recurse() -> Result<(), String> {
    let (root, _dirs, _files) = with_depth_fixture();
    let source = make_source(
        "with_depth",
        root.path().to_str().unwrap(),
        true,
        Some("playbook{1,3}"),
    );
    expect_playbooks(source, vec!["playbook1.yml", "depth2/depth1/playbook3.yml"])
}

#[test]
fn pre_provision_none() -> Result<(), String> {
    let (root, _files) = root_only_fixture();
    let source = make_source("root_only", root.path().to_str().unwrap(), false, None);
    match source.update() {
        None => Ok(()),
        Some(_) => Err("a source without a hook asked for an invocation".to_string()),
    }
}

#[test]
fn pre_provision_invocation_shape() -> Result<(), String> {
    let (root, _files) = root_only_fixture();
    let source = Source::new(
        "root_only".to_string(),
        root.path().to_str().unwrap().to_string(),
        false,
        Pattern::default_filter(),
        Some("/bin/true".to_string()),
        AnsibleContext::default(),
    );
    match source.update() {
        Some(inv) => {
            assert_eq!(inv.program, "sh");
            assert_eq!(inv.args, vec!["-c".to_string(), "/bin/true".to_string()]);
            assert_eq!(inv.cwd, root.path().to_str().unwrap());
            assert!(!inv.engine_aware);
            Ok(())
        },
        None => Err("a source with a hook asked for nothing".to_string()),
    }
}

/// A directory holding a.yml and a.txt is explored with the default filter:
/// exactly a.yml comes back.
#[test]
fn default_filter_selects_yml_only() -> Result<(), String> {
    let root = tempfile::tempdir().expect("failed to create a fixture root");
    let _a = touch(root.path(), "a", ".yml");
    let _b = touch(root.path(), "a", ".txt");
    let playbooks = make_source("foo", root.path().to_str().unwrap(), false, None).explore();
    match playbooks.len() {
        1 => {
            assert_eq!(playbooks[0], "a.yml");
            Ok(())
        },
        n => Err(format!("expected exactly one match, got {}: {:?}", n, playbooks)),
    }
}
