use github_search::repo::{count_or_default, repo_name_from_url, text_or_else};

#[test]
fn missing_fields_have_fallbacks() {
    assert_eq!(text_or_else(&None, "Unknown"), "Unknown");
    assert_eq!(text_or_else(&Some("Rust".to_string()), "Unknown"), "Rust");
    assert_eq!(text_or_else(&Some("".to_string()), "Unknown"), "");
    assert_eq!(count_or_default(None), 0);
    assert_eq!(count_or_default(Some(4294967295)), 4294967295);
}

#[test]
fn repo_name_is_the_last_segment() {
    assert_eq!(repo_name_from_url("https://github.com/user/test-repo"), "test-repo");
    assert_eq!(repo_name_from_url("https://github.com/user/repo.git"), "repo");
    assert_eq!(repo_name_from_url("https://github.com/user/project/"), "project");
    assert_eq!(repo_name_from_url("https://github.com/user/project.git///"), "project");
    assert_eq!(repo_name_from_url("plain"), "plain");
}

#[test]
fn repo_name_edge_cases() {
    assert_eq!(repo_name_from_url(""), "repo");
    assert_eq!(repo_name_from_url("/"), "repo");
    assert_eq!(repo_name_from_url("///"), "repo");
    assert_eq!(repo_name_from_url(".git"), "repo");
    assert_eq!(repo_name_from_url("https://x/.git"), "repo");
    assert_eq!(repo_name_from_url("https://x/a.git.git"), "a");
    assert_eq!(repo_name_from_url("https://x/git"), "git");
    assert_eq!(repo_name_from_url("https://x/a.gitx"), "a.gitx");
    assert_eq!(repo_name_from_url("https://x/a.git/b"), "b");
}

#[test]
fn repo_name_agrees_with_the_standard_library() {
    for url in ["", "/", "a", "a/", "a/b", "a/b.git", "a/b.git/", ".git.git", "x/.git", "x//y//", "g.git.gi"] {
        let trimmed = url.trim_end_matches('/');
        let last = trimmed.rsplit('/').next().unwrap_or("repo");
        let name = last.trim_end_matches(".git");
        let expected = if name.is_empty() { "repo" } else { name };
        assert_eq!(repo_name_from_url(url), expected, "name of {:?}", url);
    }
}
