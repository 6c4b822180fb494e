use herb_config::glob::is_path_matching;

fn glob_match(pattern: &str, path: &str) -> bool {
    is_path_matching(path, &[pattern.to_string()])
}

#[test]
fn test_double_star_extension() {
    assert!(glob_match("**/*.xml", "file.xml"));
    assert!(glob_match("**/*.xml", "dir/file.xml"));
    assert!(glob_match("**/*.xml", "a/b/c/file.xml"));
    assert!(!glob_match("**/*.xml", "file.rs"));
    assert!(!glob_match("**/*.xml", "file.xml.erb"));
}

#[test]
fn test_double_star_compound_extension() {
    assert!(glob_match("**/*.xml.erb", "file.xml.erb"));
    assert!(glob_match("**/*.xml.erb", "dir/file.xml.erb"));
    assert!(!glob_match("**/*.xml.erb", "file.xml"));
    assert!(!glob_match("**/*.xml.erb", "file.erb"));
}

#[test]
fn test_path_prefix_with_double_star() {
    assert!(glob_match("app/views/**/*", "app/views/home/index.html"));
    assert!(glob_match("app/views/**/*", "app/views/file.erb"));
    assert!(!glob_match("app/views/**/*", "lib/views/file.erb"));
}

#[test]
fn test_single_star() {
    assert!(glob_match("*.xml", "file.xml"));
    assert!(!glob_match("*.xml", "dir/file.xml"));
}

#[test]
fn test_question_mark() {
    assert!(glob_match("file?.xml", "file1.xml"));
    assert!(!glob_match("file?.xml", "file.xml"));
    assert!(!glob_match("file?.xml", "file12.xml"));
}

#[test]
fn test_exact_match() {
    assert!(glob_match("file.xml", "file.xml"));
    assert!(!glob_match("file.xml", "other.xml"));
}

#[test]
fn test_is_path_matching() {
    let patterns = vec!["**/*.xml".to_string(), "**/*.xml.erb".to_string()];
    assert!(is_path_matching("file.xml", &patterns));
    assert!(is_path_matching("dir/file.xml.erb", &patterns));
    assert!(!is_path_matching("file.html", &patterns));
}

#[test]
fn test_empty_patterns() {
    let patterns: Vec<String> = vec![];
    assert!(!is_path_matching("file.xml", &patterns));
}

#[test]
fn test_question_mark_does_not_cross_separator() {
    assert!(!glob_match("a?b", "a/b"));
    assert!(glob_match("a?b", "axb"));
}

#[test]
fn test_star_does_not_cross_separator() {
    assert!(!glob_match("a*b", "a/b"));
    assert!(glob_match("a*b", "ab"));
    assert!(glob_match("a*b", "axyzb"));
}

#[test]
fn test_matching_is_case_sensitive() {
    assert!(!glob_match("File.xml", "file.xml"));
    assert!(glob_match("File.xml", "File.xml"));
}

#[test]
fn test_matching_is_anchored() {
    assert!(!glob_match("file", "file.xml"));
    assert!(!glob_match("ile.xml", "file.xml"));
}

#[test]
fn test_double_star_matches_zero_segments() {
    assert!(glob_match("app/**/file.xml", "app/file.xml"));
    assert!(glob_match("app/**/file.xml", "app/a/b/file.xml"));
    assert!(!glob_match("app/**/file.xml", "lib/file.xml"));
}

#[test]
fn test_dot_matches_literally() {
    assert!(!glob_match("*.html", "indexhtml"));
    assert!(glob_match("*.html", "index.html"));
}
