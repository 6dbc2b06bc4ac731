use git_chest::error::{require_row, AppError, StorageOp};
use git_chest::platforms::github::models::GitHubUserData;
use git_chest::store::Store;
use git_chest::user::avatar::UserAvatar;
use git_chest::user::{Aggregation, DbUser, PlatformUserData, Reply, User};

fn octocat() -> GitHubUserData {
    GitHubUserData {
        login: "octocat".to_string(),
        id: 583231,
        name: Some("The Octocat".to_string()),
        company: None,
        bio: None,
        followers: 100,
        following: 7,
        public_repos: 8,
        public_gists: 9,
        created_at: "2011-01-25T18:44:36Z".to_string(),
        updated_at: "2024-01-01T00:00:00Z".to_string(),
    }
}

fn unreachable_github() -> Result<GitHubUserData, String> {
    Err("connection refused".to_string())
}

/// A store whose user under `id` is `user` on `platform`, registered at
/// `now`, after `id - 1` other users.
fn store_with(id: i64, user: &str, platform: &str, now: &str) -> Store {
    let mut store = Store::new();
    for n in 1..id {
        let filler = format!("filler-{n}");
        assert_eq!(User::add_at(&filler, "gitea", "2020-01-01T00:00:00+00:00", &mut store), Ok(n));
    }
    assert_eq!(User::add_at(user, platform, now, &mut store), Ok(id));
    store
}

#[test]
fn get_returns_the_stored_row_unchanged() {
    let mut store = store_with(3, "  Mixed Case\tName ", "gitlab", "2024-05-06T07:08:09.123456+00:00");
    store.set_avatar(UserAvatar { id: 3, ext: None });
    let user = User::get(3, &store, "/data", unreachable_github()).unwrap();
    assert_eq!(user.user, "  Mixed Case\tName ");
    assert_eq!(user.created_at, "2024-05-06T07:08:09.123456+00:00");
    assert_eq!(user.updated_at, "2024-05-06T07:08:09.123456+00:00");
    let row = store.user_by_id(3).unwrap();
    assert_eq!(user.user, row.user);
    assert_eq!(user.created_at, row.created_at);
    assert_eq!(user.updated_at, row.updated_at);
}

#[test]
fn platforms_without_fetcher_yield_their_empty_profile() {
    let cases = [
        ("bitbucket", PlatformUserData::Bitbucket),
        ("gitlab", PlatformUserData::GitLab),
        ("gitea", PlatformUserData::Gitea),
    ];
    for (tag, empty) in cases {
        let mut store = store_with(1, "someone", tag, "t");
        store.set_avatar(UserAvatar { id: 1, ext: Some("png".to_string()) });
        let failing = User::get(1, &store, "/data", unreachable_github()).unwrap();
        assert_eq!(failing.platform_user, empty);
        let answering = User::get(1, &store, "/data", Ok(octocat())).unwrap();
        assert_eq!(answering.platform_user, empty);
    }
}

#[test]
fn remove_then_get_is_not_found() {
    let mut store = store_with(2, "octocat", "github", "t");
    store.set_avatar(UserAvatar { id: 2, ext: Some("png".to_string()) });
    assert!(User::get(2, &store, "/data", Ok(octocat())).is_ok());
    assert_eq!(User::remove(2, &mut store), Ok(()));
    assert_eq!(User::get(2, &store, "/data", Ok(octocat())), Err(AppError::NotFound));
    assert_eq!(User::get(2, &store, "/data", unreachable_github()), Err(AppError::NotFound));
}

#[test]
fn remove_leaves_other_users_and_the_avatar_row() {
    let mut store = store_with(2, "second", "gitea", "t");
    store.set_avatar(UserAvatar { id: 1, ext: None });
    store.set_avatar(UserAvatar { id: 2, ext: Some("png".to_string()) });
    assert_eq!(User::remove(2, &mut store), Ok(()));
    assert!(User::get(1, &store, "/data", unreachable_github()).is_ok());
    assert_eq!(
        UserAvatar::get(2, &store),
        Ok(UserAvatar { id: 2, ext: Some("png".to_string()) })
    );
    assert_eq!(User::is_registered("second", &store), Ok(false));
    assert_eq!(User::is_registered("filler-1", &store), Ok(true));
}

#[test]
fn remove_of_an_unknown_id_changes_nothing() {
    let mut store = store_with(1, "only", "gitea", "t");
    assert_eq!(User::remove(99, &mut store), Ok(()));
    assert_eq!(User::is_registered("only", &store), Ok(true));
    assert_eq!(User::add_at("next", "gitea", "t", &mut store), Ok(2));
}

#[test]
fn add_hands_out_increasing_ids() {
    let mut store = Store::new();
    let mut last = 0;
    for n in 0..20 {
        let name = format!("user-{n}");
        let id = User::add_at(&name, "github", "t", &mut store).unwrap();
        assert!(id > last);
        last = id;
    }
    assert_eq!(last, 20);
}

#[test]
fn ids_are_not_handed_out_again_after_a_remove() {
    let mut store = Store::new();
    assert_eq!(User::add_at("a", "github", "t", &mut store), Ok(1));
    assert_eq!(User::add_at("b", "github", "t", &mut store), Ok(2));
    assert_eq!(User::remove(2, &mut store), Ok(()));
    assert_eq!(User::add_at("c", "github", "t", &mut store), Ok(3));
    assert_eq!(User::remove(1, &mut store), Ok(()));
    assert_eq!(User::remove(3, &mut store), Ok(()));
    assert_eq!(User::add_at("d", "github", "t", &mut store), Ok(4));
}

#[test]
fn user_is_registered_right_after_add() {
    let mut store = Store::new();
    assert_eq!(User::is_registered("octocat", &store), Ok(false));
    let id = User::add_at("octocat", "github", "t", &mut store).unwrap();
    assert_eq!(User::is_registered("octocat", &store), Ok(true));
    assert_eq!(User::is_registered("Octocat", &store), Ok(false));
    assert_eq!(User::is_registered("", &store), Ok(false));
    assert_eq!(store.user_id_by_name("octocat"), Some(id));
}

#[test]
fn add_makes_no_uniqueness_check() {
    let mut store = Store::new();
    assert_eq!(User::add_at("twice", "github", "t1", &mut store), Ok(1));
    assert_eq!(User::add_at("twice", "gitlab", "t2", &mut store), Ok(2));
    assert_eq!(store.user_by_id(1).unwrap().platform, "github");
    assert_eq!(store.user_by_id(2).unwrap().platform, "gitlab");
    assert_eq!(User::remove(1, &mut store), Ok(()));
    assert_eq!(User::is_registered("twice", &store), Ok(true));
    assert_eq!(store.user_id_by_name("twice"), Some(2));
}

#[test]
fn add_sets_both_times_to_the_time_given() {
    let mut store = Store::new();
    let id = User::add_at("octocat", "github", "2024-02-29T12:00:00+00:00", &mut store).unwrap();
    assert_eq!(
        store.user_by_id(id),
        Some(DbUser {
            user: "octocat".to_string(),
            platform: "github".to_string(),
            created_at: "2024-02-29T12:00:00+00:00".to_string(),
            updated_at: "2024-02-29T12:00:00+00:00".to_string(),
        })
    );
    assert_eq!(
        DbUser::registered("a", "b", "c"),
        DbUser {
            user: "a".to_string(),
            platform: "b".to_string(),
            created_at: "c".to_string(),
            updated_at: "c".to_string(),
        }
    );
}

#[test]
fn add_stamps_the_row_with_the_current_time() {
    let before = chrono::Utc::now();
    let mut store = Store::new();
    let id = User::add("octocat", "github", &mut store).unwrap();
    let after = chrono::Utc::now();
    assert_eq!(id, 1);
    let row = store.user_by_id(id).unwrap();
    assert_eq!(row.user, "octocat");
    assert_eq!(row.platform, "github");
    assert_eq!(row.created_at, row.updated_at);
    let stamped = chrono::DateTime::parse_from_rfc3339(&row.created_at).unwrap();
    assert!(before <= stamped && stamped <= after);
}

#[test]
fn github_user_with_png_avatar() {
    let mut store = store_with(7, "octocat", "github", "2024-01-01T00:00:00+00:00");
    store.set_avatar(UserAvatar { id: 7, ext: Some("png".to_string()) });
    let user = User::get(7, &store, "/home/alice/.local/share/git-chest", Ok(octocat())).unwrap();
    assert!(user.avatar.ends_with("7.png"));
    assert_eq!(user.avatar, "/home/alice/.local/share/git-chest/assets/avatars/7.png");
    assert_eq!(user.platform_user, PlatformUserData::GitHub(octocat()));
    assert_eq!(user.user, "octocat");
    assert_eq!(
        user,
        User {
            user: "octocat".to_string(),
            created_at: "2024-01-01T00:00:00+00:00".to_string(),
            updated_at: "2024-01-01T00:00:00+00:00".to_string(),
            avatar: "/home/alice/.local/share/git-chest/assets/avatars/7.png".to_string(),
            platform_user: PlatformUserData::GitHub(octocat()),
        }
    );
}

#[test]
fn bogus_platform_fails_before_any_fetch() {
    let mut store = store_with(9, "someone", "bogus", "t");
    store.set_avatar(UserAvatar { id: 9, ext: None });
    assert_eq!(
        User::get(9, &store, "/data", Ok(octocat())),
        Err(AppError::UnknownPlatform("bogus".to_string()))
    );
    assert_eq!(
        User::get(9, &store, "/data", unreachable_github()),
        Err(AppError::UnknownPlatform("bogus".to_string()))
    );

    let waiting = Aggregation::start(9, "/data").step(Reply::UserRow(store.user_by_id(9)));
    assert!(matches!(waiting, Aggregation::LoadAvatar { id: 9, .. }));
    let ended = waiting.step(Reply::AvatarRow(store.avatar_by_user(9)));
    assert!(!matches!(ended, Aggregation::FetchGitHub { .. }));
    assert_eq!(
        ended.outcome(),
        Some(Err(AppError::UnknownPlatform("bogus".to_string())))
    );
}

#[test]
fn github_fetch_failure_ends_the_request() {
    let mut store = store_with(1, "octocat", "github", "t");
    store.set_avatar(UserAvatar { id: 1, ext: None });
    assert_eq!(
        User::get(1, &store, "/data", Err("rate limited".to_string())),
        Err(AppError::FetchError("rate limited".to_string()))
    );
}

#[test]
fn missing_user_is_not_found() {
    let store = Store::new();
    assert_eq!(User::get(1, &store, "/data", Ok(octocat())), Err(AppError::NotFound));
    assert_eq!(store.user_by_id(1), None);
}

#[test]
fn user_without_avatar_row_is_not_found() {
    let store = store_with(1, "octocat", "github", "t");
    assert_eq!(User::get(1, &store, "/data", Ok(octocat())), Err(AppError::NotFound));
    assert_eq!(UserAvatar::get(1, &store), Err(AppError::NotFound));
}

#[test]
fn missing_avatar_is_reported_before_an_unknown_platform() {
    let store = store_with(1, "someone", "bogus", "t");
    assert_eq!(User::get(1, &store, "/data", Ok(octocat())), Err(AppError::NotFound));
}

#[test]
fn avatar_row_is_replaced_by_a_later_one() {
    let mut store = Store::new();
    store.set_avatar(UserAvatar { id: 4, ext: None });
    store.set_avatar(UserAvatar { id: 5, ext: Some("gif".to_string()) });
    store.set_avatar(UserAvatar { id: 4, ext: Some("webp".to_string()) });
    assert_eq!(
        UserAvatar::get(4, &store),
        Ok(UserAvatar { id: 4, ext: Some("webp".to_string()) })
    );
    assert_eq!(
        UserAvatar::get(5, &store),
        Ok(UserAvatar { id: 5, ext: Some("gif".to_string()) })
    );
    assert_eq!(store.avatar_by_user(6), None);
}

#[test]
fn aggregation_asks_for_user_then_avatar_then_profile() {
    let row = DbUser::registered("octocat", "github", "t");
    let start = Aggregation::start(7, "/data");
    assert!(matches!(start, Aggregation::LoadUser { id: 7, .. }));
    let loaded = start.step(Reply::UserRow(Some(row)));
    assert!(matches!(loaded, Aggregation::LoadAvatar { id: 7, .. }));
    let located = loaded.step(Reply::AvatarRow(Some(UserAvatar { id: 7, ext: Some("png".to_string()) })));
    match &located {
        Aggregation::FetchGitHub { id, user, avatar } => {
            assert_eq!(*id, 7);
            assert_eq!(user.user, "octocat");
            assert_eq!(avatar, "/data/assets/avatars/7.png");
        }
        _ => panic!("the profile is asked for once both rows are there"),
    }
    let ended = located.step(Reply::GitHubProfile(Ok(octocat())));
    match ended.outcome() {
        Some(Ok(user)) => assert_eq!(user.platform_user, PlatformUserData::GitHub(octocat())),
        _ => panic!("the aggregation ends with the user"),
    }
}

#[test]
fn aggregation_without_fetcher_ends_with_the_avatar_row() {
    let row = DbUser::registered("someone", "gitea", "t");
    let ended = Aggregation::start(1, "/data")
        .step(Reply::UserRow(Some(row)))
        .step(Reply::AvatarRow(Some(UserAvatar { id: 1, ext: None })));
    assert_eq!(
        ended.outcome(),
        Some(Ok(User {
            user: "someone".to_string(),
            created_at: "t".to_string(),
            updated_at: "t".to_string(),
            avatar: "/data/assets/avatars/1".to_string(),
            platform_user: PlatformUserData::Gitea,
        }))
    );
}

#[test]
fn aggregation_reports_storage_failures_by_operation() {
    let at_user = Aggregation::start(1, "/data").step(Reply::StorageFailed);
    assert_eq!(
        at_user.outcome(),
        Some(Err(AppError::StorageError("Error getting user from database".to_string())))
    );
    let at_avatar = Aggregation::start(1, "/data")
        .step(Reply::UserRow(Some(DbUser::registered("u", "github", "t"))))
        .step(Reply::StorageFailed);
    assert_eq!(
        at_avatar.outcome(),
        Some(Err(AppError::StorageError("Error getting user avatar from database".to_string())))
    );
}

#[test]
fn aggregation_ignores_answers_it_did_not_ask_for() {
    let start = Aggregation::start(1, "/data").step(Reply::AvatarRow(None));
    assert!(matches!(start, Aggregation::LoadUser { id: 1, .. }));
    let start = start.step(Reply::GitHubProfile(Ok(octocat())));
    assert!(matches!(start, Aggregation::LoadUser { id: 1, .. }));
    let loaded = start
        .step(Reply::UserRow(Some(DbUser::registered("u", "github", "t"))))
        .step(Reply::UserRow(None));
    assert!(matches!(loaded, Aggregation::LoadAvatar { id: 1, .. }));
    let located = loaded
        .step(Reply::AvatarRow(Some(UserAvatar { id: 1, ext: None })))
        .step(Reply::StorageFailed);
    assert!(matches!(located, Aggregation::FetchGitHub { id: 1, .. }));
    assert_eq!(located.outcome(), None);
}

#[test]
fn ended_aggregation_stays_as_it_is() {
    let failed = Aggregation::start(1, "/data").step(Reply::UserRow(None));
    let still = failed
        .step(Reply::UserRow(Some(DbUser::registered("u", "github", "t"))))
        .step(Reply::GitHubProfile(Ok(octocat())));
    assert_eq!(still.outcome(), Some(Err(AppError::NotFound)));
}

#[test]
fn storage_failures_have_their_messages() {
    assert_eq!(
        StorageOp::AddUser.failure(),
        AppError::StorageError("Error adding repository data into database".to_string())
    );
    assert_eq!(
        StorageOp::CheckUser.failure(),
        AppError::StorageError("Error checking if user exists in database".to_string())
    );
    assert_eq!(
        StorageOp::GetUser.failure(),
        AppError::StorageError("Error getting user from database".to_string())
    );
    assert_eq!(
        StorageOp::GetAvatar.failure(),
        AppError::StorageError("Error getting user avatar from database".to_string())
    );
    assert_eq!(
        StorageOp::DeleteUser.failure(),
        AppError::StorageError("Error deleting user from database".to_string())
    );
}

#[test]
fn a_row_that_must_exist() {
    assert_eq!(require_row(Some(5)), Ok(5));
    assert_eq!(require_row::<i32>(None), Err(AppError::NotFound));
}

#[test]
fn add_without_a_row_changes_nothing() {
    let mut store = Store::new();
    assert_eq!(
        User::add_row(None, &mut store),
        Err(AppError::StorageError("Error adding repository data into database".to_string()))
    );
    assert_eq!(store.user_by_id(1), None);
    assert_eq!(User::add_row(Some(DbUser::registered("a", "gitea", "t")), &mut store), Ok(1));
    assert_eq!(
        User::add_row(None, &mut store),
        Err(AppError::StorageError("Error adding repository data into database".to_string()))
    );
    assert_eq!(User::is_registered("a", &store), Ok(true));
    assert_eq!(User::add_row(Some(DbUser::registered("b", "gitea", "t")), &mut store), Ok(2));
    assert_eq!(store.user_by_id(2), Some(DbUser::registered("b", "gitea", "t")));
}

#[test]
fn row_is_stamped_with_the_time_that_the_clock_gave() {
    assert_eq!(
        DbUser::registered_when("octocat", "github", Some("2024-02-29T12:00:00+00:00".to_string())),
        Some(DbUser {
            user: "octocat".to_string(),
            platform: "github".to_string(),
            created_at: "2024-02-29T12:00:00+00:00".to_string(),
            updated_at: "2024-02-29T12:00:00+00:00".to_string(),
        })
    );
    assert_eq!(DbUser::registered_when("octocat", "github", None), None);
}

#[test]
fn row_registered_now_holds_the_current_time_twice() {
    let before = chrono::Utc::now();
    let row = DbUser::registered_now("octocat", "github").unwrap();
    let after = chrono::Utc::now();
    assert_eq!(row.user, "octocat");
    assert_eq!(row.platform, "github");
    assert_eq!(row.created_at, row.updated_at);
    let stamped = chrono::DateTime::parse_from_rfc3339(&row.created_at).unwrap();
    assert!(before <= stamped && stamped <= after);
    assert_eq!(row.created_at, stamped.with_timezone(&chrono::Utc).to_rfc3339());
}
