use git_chest::error::AppError;
use git_chest::platforms::github::api_models::GitHubApiUser;
use git_chest::platforms::github::models::GitHubUserData;
use git_chest::platforms::Platform;

#[test]
fn canonical_tags_parse() {
    assert_eq!(Platform::from_str("bitbucket"), Ok(Platform::Bitbucket));
    assert_eq!(Platform::from_str("github"), Ok(Platform::GitHub));
    assert_eq!(Platform::from_str("gitlab"), Ok(Platform::GitLab));
    assert_eq!(Platform::from_str("gitea"), Ok(Platform::Gitea));
}

#[test]
fn tags_round_trip() {
    for platform in [Platform::Bitbucket, Platform::GitHub, Platform::GitLab, Platform::Gitea] {
        assert_eq!(Platform::from_str(platform.as_str()), Ok(platform));
    }
}

#[test]
fn tag_texts_are_lowercase_names() {
    assert_eq!(Platform::Bitbucket.as_str(), "bitbucket");
    assert_eq!(Platform::GitHub.as_str(), "github");
    assert_eq!(Platform::GitLab.as_str(), "gitlab");
    assert_eq!(Platform::Gitea.as_str(), "gitea");
}

#[test]
fn parsing_is_case_sensitive() {
    assert_eq!(
        Platform::from_str("GitHub"),
        Err(AppError::UnknownPlatform("GitHub".to_string()))
    );
    assert_eq!(
        Platform::from_str("GITLAB"),
        Err(AppError::UnknownPlatform("GITLAB".to_string()))
    );
}

#[test]
fn parsing_does_not_trim_or_guess() {
    assert_eq!(
        Platform::from_str(" github"),
        Err(AppError::UnknownPlatform(" github".to_string()))
    );
    assert_eq!(
        Platform::from_str("github "),
        Err(AppError::UnknownPlatform("github ".to_string()))
    );
    assert_eq!(
        Platform::from_str("git"),
        Err(AppError::UnknownPlatform("git".to_string()))
    );
    assert_eq!(Platform::from_str(""), Err(AppError::UnknownPlatform(String::new())));
}

#[test]
fn unknown_tag_is_carried_in_the_error() {
    assert_eq!(
        Platform::from_str("bogus"),
        Err(AppError::UnknownPlatform("bogus".to_string()))
    );
}

#[test]
fn only_github_has_a_fetcher() {
    assert!(Platform::GitHub.has_fetcher());
    assert!(!Platform::Bitbucket.has_fetcher());
    assert!(!Platform::GitLab.has_fetcher());
    assert!(!Platform::Gitea.has_fetcher());
}

#[test]
fn profile_is_taken_from_the_api_answer() {
    let api = GitHubApiUser {
        login: "octocat".to_string(),
        id: 583231,
        node_id: "MDQ6VXNlcjU4MzIzMQ==".to_string(),
        avatar_url: "https://example.invalid/u/583231".to_string(),
        gravatar_id: String::new(),
        type_: "User".to_string(),
        site_admin: false,
        name: Some("The Octocat".to_string()),
        company: Some("@github".to_string()),
        blog: "https://github.blog".to_string(),
        location: Some("San Francisco".to_string()),
        hireable: None,
        bio: None,
        twitter_username: None,
        public_repos: 8,
        public_gists: 9,
        followers: 100,
        following: 7,
        created_at: "2011-01-25T18:44:36Z".to_string(),
        updated_at: "2024-01-01T00:00:00Z".to_string(),
    };
    let profile = GitHubUserData::from_api(api);
    assert_eq!(
        profile,
        GitHubUserData {
            login: "octocat".to_string(),
            id: 583231,
            name: Some("The Octocat".to_string()),
            company: Some("@github".to_string()),
            bio: None,
            followers: 100,
            following: 7,
            public_repos: 8,
            public_gists: 9,
            created_at: "2011-01-25T18:44:36Z".to_string(),
            updated_at: "2024-01-01T00:00:00Z".to_string(),
        }
    );
}
