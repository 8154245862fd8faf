use comtrya::error::PlanError;
use comtrya::files::{manifest_file_path, FileCopy, FileDownload};
use comtrya::link::FileLink;
use comtrya::manifest::Manifest;
use comtrya::steps::Atom;

fn manifest_at(root: Option<&str>) -> Manifest {
    Manifest {
        name: None,
        root_dir: root.map(|r| r.to_string()),
        depends: vec![],
        labels: vec![],
        where_condition: None,
        actions: vec![],
    }
}

fn link(source: &str, target: &str, walk_dir: bool) -> FileLink {
    FileLink {
        from: None,
        source: Some(source.to_string()),
        target: Some(target.to_string()),
        to: None,
        walk_dir,
    }
}

#[test]
fn it_links_directories() {
    // An existing directory, linked into its parent; an absolute source
    // replaces the manifest's `files` directory when joined.
    let source_dir = "/usr/bin";
    let manifest = manifest_at(Some(source_dir));
    let target = "/usr";
    let file_link_action = link(source_dir, target, false);
    let steps = file_link_action.plan(&manifest, &vec![]).unwrap();
    assert_eq!(steps.len(), 2);
}

#[test]
fn link_plan_without_root_dir_is_refused() {
    let action = link("a", "b", false);
    assert_eq!(action.plan(&manifest_at(None), &vec![]), Err(PlanError::MissingRootDir));
}

#[test]
fn link_plan_with_missing_source_names_it() {
    let action = link("no-such-entry", "b", false);
    assert_eq!(
        action.plan(&manifest_at(Some("/nonexistent-root-of-manifests")), &vec![]),
        Err(PlanError::UnresolvedPath { path: "no-such-entry".to_string() })
    );
}

#[test]
fn walk_links_pairs_each_named_child_with_its_target() {
    let children = vec!["/s/a".to_string(), "/s/.".to_string(), "/s/c".to_string()];
    let targets = vec![Some("/t/a".to_string()), None, Some("/t/c".to_string())];
    assert_eq!(
        FileLink::walk_links(&children, &targets),
        vec![
            ("/s/a".to_string(), "/t/a".to_string()),
            ("/s/c".to_string(), "/t/c".to_string()),
        ]
    );
}

#[test]
fn walking_plan_creates_the_target_then_links_each_named_child() {
    let children = vec!["/s/a".to_string(), "/s/b".to_string()];
    let targets = vec![Some("/t/a".to_string()), Some("/t/b".to_string())];
    let steps = FileLink::plan_walk_with_targets("/t".to_string(), &children, &targets);
    assert_eq!(steps.len(), 3);
    assert_eq!(steps[0].atom, Atom::DirectoryCreate { path: "/t".to_string() });
    assert_eq!(steps[1].atom, Atom::FileLink { source: "/s/a".to_string(), target: "/t/a".to_string() });
    assert_eq!(steps[2].atom, Atom::FileLink { source: "/s/b".to_string(), target: "/t/b".to_string() });
}

#[test]
fn walking_plan_without_named_children_only_creates_the_target() {
    let children = vec!["/s/..".to_string()];
    let targets = vec![None];
    let steps = FileLink::plan_walk_with_targets("/t".to_string(), &children, &targets);
    assert_eq!(steps.len(), 1);
}

#[test]
fn single_link_creates_the_parent_of_the_target() {
    let steps = FileLink::plan_no_walk("/s/a".to_string(), "/t/sub/a".to_string());
    assert_eq!(steps.len(), 2);
    assert_eq!(steps[0].atom, Atom::DirectoryCreate { path: "/t/sub".to_string() });
    assert_eq!(steps[1].atom, Atom::FileLink { source: "/s/a".to_string(), target: "/t/sub/a".to_string() });
}

#[test]
fn walking_links_each_entry_under_its_file_name() {
    let children = vec!["/s/one.txt".to_string(), "/s/two.txt".to_string()];
    let steps = FileLink::plan_walk("/t".to_string(), &children);
    assert_eq!(steps.len(), 3);
    assert_eq!(steps[1].atom, Atom::FileLink { source: "/s/one.txt".to_string(), target: "/t/one.txt".to_string() });
    assert_eq!(steps[2].atom, Atom::FileLink { source: "/s/two.txt".to_string(), target: "/t/two.txt".to_string() });
}

#[test]
fn download_creates_the_parent_of_its_destination() {
    let d = FileDownload {
        from: "https://example.org/a".to_string(),
        to: "/opt/tools/a".to_string(),
        chmod: 0o644,
        template: false,
        owner_user: None,
        owner_group: None,
    };
    let steps = d.plan().unwrap();
    assert_eq!(steps[0].atom, Atom::DirectoryCreate { path: "/opt/tools".to_string() });
    let rootless = FileDownload { to: "".to_string(), ..d };
    assert_eq!(rootless.plan(), Err(PlanError::NoParentDirectory { path: "".to_string() }));
}

#[test]
fn copy_into_a_directory_keeps_the_file_name() {
    let c = FileCopy {
        from: "/src/config.toml".to_string(),
        to: "/".to_string(),
        chmod: 0o600,
        template: false,
        passphrase: None,
    };
    assert_eq!(c.destination(), "/config.toml");
    let steps = c.plan(b"x".to_vec()).unwrap();
    assert_eq!(steps[0].atom, Atom::DirectoryCreate { path: "/".to_string() });
    assert_eq!(steps[1].atom, Atom::FileCreate { path: "/config.toml".to_string() });
}

#[test]
fn manifest_files_live_under_files() {
    assert_eq!(manifest_file_path("/m", "a/b"), "/m/files/a/b");
    assert_eq!(manifest_file_path("/m", "/abs"), "/abs");
}

#[test]
fn a_file_source_is_linked_directly_even_when_walking() {
    let action = link("a", "/t/sub/a", true);
    let children = vec!["/s/a/x".to_string()];
    let steps = action.plan_with_kind("/s/a".to_string(), true, &children);
    assert_eq!(steps.len(), 2);
    assert_eq!(steps[1].atom, Atom::FileLink { source: "/s/a".to_string(), target: "/t/sub/a".to_string() });
}

#[test]
fn a_directory_source_is_walked_when_walking() {
    let action = link("a", "/t", true);
    let children = vec!["/s/a/x".to_string(), "/s/a/y".to_string()];
    let steps = action.plan_with_kind("/s/a".to_string(), false, &children);
    assert_eq!(steps.len(), 3);
    assert_eq!(steps[0].atom, Atom::DirectoryCreate { path: "/t".to_string() });
    assert_eq!(steps[2].atom, Atom::FileLink { source: "/s/a/y".to_string(), target: "/t/y".to_string() });
}

#[test]
fn a_directory_source_is_linked_directly_without_walking() {
    let action = link("a", "/t/a", false);
    let steps = action.plan_with_kind("/s/a".to_string(), false, &vec!["/s/a/x".to_string()]);
    assert_eq!(steps.len(), 2);
    assert_eq!(steps[1].atom, Atom::FileLink { source: "/s/a".to_string(), target: "/t/a".to_string() });
}
