use herb_config::{DirListing, HerbConfig};

fn dir(path: &str, entries: &[&str]) -> DirListing {
    DirListing {
        path: path.to_string(),
        entries: entries.iter().map(|e| e.to_string()).collect(),
    }
}

#[test]
fn find_config_file_finds_config_in_current_dir() {
    let dirs = vec![dir("/work/project", &["src", ".herb.yml", "README.md"])];

    let found = HerbConfig::find_config_file(&dirs);

    assert_eq!(found, Some("/work/project/.herb.yml".to_string()));
}

#[test]
fn find_config_file_walks_up_directory_tree() {
    let dirs = vec![
        dir("/work/project/app/views", &["home"]),
        dir("/work/project/app", &["views"]),
        dir("/work/project", &[".herb.yml", "app"]),
        dir("/work", &["project"]),
        dir("/", &["work"]),
    ];

    let found = HerbConfig::find_config_file(&dirs);

    assert_eq!(found, Some("/work/project/.herb.yml".to_string()));
}

#[test]
fn find_config_file_returns_none_when_not_found() {
    let dirs = vec![dir("/work/empty", &[]), dir("/work", &["empty"]), dir("/", &["work"])];

    let found = HerbConfig::find_config_file(&dirs);

    assert!(found.is_none() || found.is_some());
    assert_eq!(found, None);
}

#[test]
fn find_config_file_prefers_innermost_directory() {
    let dirs = vec![
        dir("/a/b", &[".herb.yml"]),
        dir("/a", &[".herb.yml"]),
    ];

    let found = HerbConfig::find_config_file(&dirs);

    assert_eq!(found, Some("/a/b/.herb.yml".to_string()));
}

#[test]
fn find_config_file_joins_root_path_without_double_separator() {
    let dirs = vec![dir("/", &[".herb.yml"])];

    let found = HerbConfig::find_config_file(&dirs);

    assert_eq!(found, Some("/.herb.yml".to_string()));
}

#[test]
fn find_project_root_stops_at_version_control_directory() {
    let dirs = vec![
        dir("/work/project/app", &["views"]),
        dir("/work/project", &[".git", "app"]),
        dir("/work", &["project"]),
    ];

    let root = HerbConfig::find_project_root(&dirs, &"/work/project/app".to_string());

    assert_eq!(root, "/work/project");
}

#[test]
fn find_project_root_stops_at_config_file() {
    let dirs = vec![
        dir("/work/project/app", &[".herb.yml"]),
        dir("/work/project", &[".git"]),
    ];

    let root = HerbConfig::find_project_root(&dirs, &"/work/project/app".to_string());

    assert_eq!(root, "/work/project/app");
}

#[test]
fn find_project_root_recognizes_each_indicator() {
    for indicator in [".git", ".herb", "Gemfile", "package.json", "Rakefile", "README.md"] {
        let dirs = vec![dir("/work/app", &[]), dir("/work", &[indicator])];
        let root = HerbConfig::find_project_root(&dirs, &"/work/app".to_string());
        assert_eq!(root, "/work");
    }
}

#[test]
fn find_project_root_falls_back_to_start_directory() {
    let dirs = vec![dir("/somewhere/else", &["notes.txt"]), dir("/somewhere", &[]), dir("/", &[])];

    let root = HerbConfig::find_project_root(&dirs, &"/somewhere/else".to_string());

    assert_eq!(root, "/somewhere/else");
}
