use greptile_client::error::GreptileError;
use greptile_client::identity::{get_git_repo, parse_github_remote_url, GreptileRepository, OriginRemote};

fn parsed(url: &str) -> Option<String> {
    parse_github_remote_url(url)
}

#[test]
fn parses_plain_github_url() {
    assert_eq!(parsed("https://github.com/acme/widgets.git"), Some("acme/widgets".to_string()));
}

#[test]
fn parses_www_github_url() {
    assert_eq!(
        parsed("https://www.github.com/shuttle-hq/zero-to-production-newsletter-api.git"),
        Some("shuttle-hq/zero-to-production-newsletter-api".to_string())
    );
}

#[test]
fn keeps_dots_and_underscores_in_names() {
    assert_eq!(parsed("https://github.com/my_org/site.io.git"), Some("my_org/site.io".to_string()));
}

#[test]
fn rejects_ssh_syntax() {
    assert_eq!(parsed("git@github.com:acme/widgets.git"), None);
}

#[test]
fn rejects_other_host() {
    assert_eq!(parsed("https://gitlab.com/acme/widgets.git"), None);
    assert_eq!(parsed("https://github.com.evil.org/acme/widgets.git"), None);
}

#[test]
fn rejects_missing_git_suffix() {
    assert_eq!(parsed("https://github.com/acme/widgets"), None);
}

#[test]
fn rejects_plain_http() {
    assert_eq!(parsed("http://github.com/acme/widgets.git"), None);
}

#[test]
fn rejects_bad_paths() {
    assert_eq!(parsed("https://github.com/acme/widgets/extra.git"), None);
    assert_eq!(parsed("https://github.com//widgets.git"), None);
    assert_eq!(parsed("https://github.com/acme/.git"), None);
    assert_eq!(parsed("https://github.com/widgets.git"), None);
    assert_eq!(parsed("https://github.com/ac me/widgets.git"), None);
    assert_eq!(parsed("https://github.com/acmé/widgets.git"), None);
    assert_eq!(parsed(""), None);
}

#[test]
fn rejects_text_around_the_url() {
    assert_eq!(parsed(" https://github.com/acme/widgets.git"), None);
    assert_eq!(parsed("https://github.com/acme/widgets.git/"), None);
}

#[test]
fn git_repo_errors_follow_the_lookup() {
    assert_eq!(get_git_repo(OriginRemote::NoRepository), Err(GreptileError::NoRepository));
    assert_eq!(get_git_repo(OriginRemote::NoRemote), Err(GreptileError::NoRemote));
    assert_eq!(get_git_repo(OriginRemote::NoUrl), Err(GreptileError::NoRemoteUrl));
    assert_eq!(
        get_git_repo(OriginRemote::Url("git@github.com:acme/widgets.git".to_string())),
        Err(GreptileError::UnparseableRemoteUrl("git@github.com:acme/widgets.git".to_string()))
    );
}

#[test]
fn git_repo_from_origin_url() {
    assert_eq!(
        get_git_repo(OriginRemote::Url("https://github.com/acme/widgets.git".to_string())),
        Ok("acme/widgets".to_string())
    );
}

#[test]
fn repo_id_joins_fields_with_colons() {
    let repo = GreptileRepository::new("gitlab".to_string(), "dev".to_string(), "a/b".to_string());
    assert_eq!(repo.as_repo_id(), "gitlab:dev:a/b");
}

#[test]
fn repo_id_is_stable() {
    let a = GreptileRepository::github_main("acme/widgets".to_string());
    let b = GreptileRepository::github_main("acme/widgets".to_string());
    assert_eq!(a.as_repo_id(), a.as_repo_id());
    assert_eq!(a.as_repo_id(), b.as_repo_id());
}

#[test]
fn github_main_sets_provider_and_branch() {
    let repo = GreptileRepository::github_main("acme/widgets".to_string());
    assert_eq!(repo.remote, "github");
    assert_eq!(repo.branch, "main");
    assert_eq!(repo.repository, "acme/widgets");
}
