//! Users: the stored row, the profile from the platform, and the two put
//! together.

pub mod avatar;

use crate::error::{require_row, AppError, ErrorView, StorageOp};
use crate::platforms::github::models::GitHubUserData;
use crate::platforms::Platform;
use crate::store::{Store, StoreView};
use crate::user::avatar::{AvatarView, UserAvatar};
use vstd::prelude::*;

verus! {

/// The stored row of a user: the name on the platform, the platform's tag,
/// and when the row was created and last updated.
#[derive(Debug, PartialEq, Eq)]
pub struct DbUser {
    pub user: String,
    pub platform: String,
    pub created_at: String,
    pub updated_at: String,
}

/// A [`DbUser`] with its texts as sequences of characters.
pub struct DbUserView {
    pub user: Seq<char>,
    pub platform: Seq<char>,
    pub created_at: Seq<char>,
    pub updated_at: Seq<char>,
}

impl View for DbUser {
    type V = DbUserView;

    open spec fn view(&self) -> DbUserView {
        DbUserView {
            user: self.user@,
            platform: self.platform@,
            created_at: self.created_at@,
            updated_at: self.updated_at@,
        }
    }
}

impl Clone for DbUser {
    fn clone(&self) -> (copy: DbUser)
        ensures
            copy@ == self@,
    {
        DbUser {
            user: self.user.clone(),
            platform: self.platform.clone(),
            created_at: self.created_at.clone(),
            updated_at: self.updated_at.clone(),
        }
    }
}

impl DbUserView {
    /// The row of a user who registers at the time `now`: created and last
    /// updated at that one time.
    pub open spec fn registered(user: Seq<char>, platform: Seq<char>, now: Seq<char>) -> DbUserView {
        DbUserView { user, platform, created_at: now, updated_at: now }
    }
}

impl DbUser {
    /// The row of a user who registers at the time `now`.
    pub fn registered(user: &str, platform: &str, now: &str) -> (row: DbUser)
        ensures
            row@ == DbUserView::registered(user@, platform@, now@),
    {
        DbUser {
            user: user.to_owned(),
            platform: platform.to_owned(),
            created_at: now.to_owned(),
            updated_at: now.to_owned(),
        }
    }

    /// The row of a user who registers at the time that the clock gave, or
    /// none where the clock gave no time.
    pub fn registered_when(user: &str, platform: &str, clock: Option<String>) -> (row: Option<
        DbUser,
    >)
        ensures
            match clock {
                Some(now) => row matches Some(r) && r@ == DbUserView::registered(
                    user@,
                    platform@,
                    now@,
                ),
                None => row is None,
            },
    {
        match clock {
            Some(now) => Some(DbUser::registered(user, platform, now.as_str())),
            None => None,
        }
    }

    /// The row of a user who registers now: created and last updated at one
    /// time, whatever the clock says. None where the clock gives no time.
    pub fn registered_now(user: &str, platform: &str) -> (row: Option<DbUser>)
        ensures
            row matches Some(r) ==> exists|now: Seq<char>|
                r@ == #[trigger] DbUserView::registered(user@, platform@, now),
    {
        DbUser::registered_when(user, platform, now_rfc3339())
    }
}

/// What a platform reports of a user: one case for each platform. A platform
/// whose profiles are not fetched has an empty case.
#[derive(Debug, PartialEq, Eq)]
pub enum PlatformUserData {
    Bitbucket,
    GitHub(GitHubUserData),
    GitLab,
    Gitea,
}

impl PlatformUserData {
    /// The platform that the profile is of.
    pub open spec fn platform(self) -> Platform {
        match self {
            PlatformUserData::Bitbucket => Platform::Bitbucket,
            PlatformUserData::GitHub(_) => Platform::GitHub,
            PlatformUserData::GitLab => Platform::GitLab,
            PlatformUserData::Gitea => Platform::Gitea,
        }
    }

    /// The profile of a user on a platform that is not asked: the platform's
    /// empty case. A platform with a fetcher has none.
    pub open spec fn unfetched(platform: Platform) -> Option<PlatformUserData> {
        match platform {
            Platform::Bitbucket => Some(PlatformUserData::Bitbucket),
            Platform::GitHub => None,
            Platform::GitLab => Some(PlatformUserData::GitLab),
            Platform::Gitea => Some(PlatformUserData::Gitea),
        }
    }
}

/// A user as the application shows them: the stored row, the path of the
/// avatar, and the profile from the platform.
#[derive(Debug, PartialEq, Eq)]
pub struct User {
    pub user: String,
    pub created_at: String,
    pub updated_at: String,
    pub avatar: String,
    pub platform_user: PlatformUserData,
}

/// A [`User`] with its texts as sequences of characters. The profile is kept
/// as it came from the platform.
pub struct UserView {
    pub user: Seq<char>,
    pub created_at: Seq<char>,
    pub updated_at: Seq<char>,
    pub avatar: Seq<char>,
    pub platform_user: PlatformUserData,
}

impl View for User {
    type V = UserView;

    open spec fn view(&self) -> UserView {
        UserView {
            user: self.user@,
            created_at: self.created_at@,
            updated_at: self.updated_at@,
            avatar: self.avatar@,
            platform_user: self.platform_user,
        }
    }
}

impl UserView {
    /// The user made of a stored row, an avatar path and a profile. Name and
    /// times are those of the row, unchanged.
    pub open spec fn assemble(
        row: DbUserView,
        avatar: Seq<char>,
        platform_user: PlatformUserData,
    ) -> UserView {
        UserView {
            user: row.user,
            created_at: row.created_at,
            updated_at: row.updated_at,
            avatar,
            platform_user,
        }
    }
}

/// What the remote platform answered: the profile, or why there is none.
pub open spec fn fetched_view(fetched: Result<GitHubUserData, String>) -> Result<
    GitHubUserData,
    Seq<char>,
> {
    match fetched {
        Ok(profile) => Ok(profile),
        Err(reason) => Err(reason@),
    }
}

/// How a request for a user ended.
pub open spec fn outcome_view(outcome: Result<User, AppError>) -> Result<UserView, ErrorView> {
    match outcome {
        Ok(user) => Ok(user@),
        Err(error) => Err(error@),
    }
}

/// An aggregation in progress. Each case but the last two waits for one
/// answer from outside: a row from storage or a profile from the platform.
pub enum Aggregation {
    /// Waits for the user row under `id`.
    LoadUser { id: i64, data_dir: String },
    /// Has the user row; waits for the avatar row under `id`.
    LoadAvatar { id: i64, data_dir: String, user: DbUser },
    /// Has both rows; waits for the GitHub profile of the user under `id`.
    FetchGitHub { id: i64, user: DbUser, avatar: String },
    /// Ended with the user.
    Done(User),
    /// Ended with an error.
    Failed(AppError),
}

/// An answer from outside to a waiting [`Aggregation`].
pub enum Reply {
    /// The user row that was asked for, or that there is none.
    UserRow(Option<DbUser>),
    /// The avatar row that was asked for, or that there is none.
    AvatarRow(Option<UserAvatar>),
    /// The profile that GitHub sent, or why it sent none.
    GitHubProfile(Result<GitHubUserData, String>),
    /// Storage could not be read.
    StorageFailed,
}

/// An [`Aggregation`] over the views of what it holds.
pub enum AggregationView {
    LoadUser { id: int, data_dir: Seq<char> },
    LoadAvatar { id: int, data_dir: Seq<char>, user: DbUserView },
    FetchGitHub { id: int, user: DbUserView, avatar: Seq<char> },
    Done(UserView),
    Failed(ErrorView),
}

/// A [`Reply`] over the views of what it holds.
pub enum ReplyView {
    UserRow(Option<DbUserView>),
    AvatarRow(Option<AvatarView>),
    GitHubProfile(Result<GitHubUserData, Seq<char>>),
    StorageFailed,
}

impl View for Aggregation {
    type V = AggregationView;

    open spec fn view(&self) -> AggregationView {
        match *self {
            Aggregation::LoadUser { id, data_dir } => AggregationView::LoadUser {
                id: id as int,
                data_dir: data_dir@,
            },
            Aggregation::LoadAvatar { id, data_dir, user } => AggregationView::LoadAvatar {
                id: id as int,
                data_dir: data_dir@,
                user: user@,
            },
            Aggregation::FetchGitHub { id, user, avatar } => AggregationView::FetchGitHub {
                id: id as int,
                user: user@,
                avatar: avatar@,
            },
            Aggregation::Done(user) => AggregationView::Done(user@),
            Aggregation::Failed(error) => AggregationView::Failed(error@),
        }
    }
}

impl View for Reply {
    type V = ReplyView;

    open spec fn view(&self) -> ReplyView {
        match *self {
            Reply::UserRow(Some(row)) => ReplyView::UserRow(Some(row@)),
            Reply::UserRow(None) => ReplyView::UserRow(None),
            Reply::AvatarRow(Some(row)) => ReplyView::AvatarRow(Some(row@)),
            Reply::AvatarRow(None) => ReplyView::AvatarRow(None),
            Reply::GitHubProfile(fetched) => ReplyView::GitHubProfile(fetched_view(fetched)),
            Reply::StorageFailed => ReplyView::StorageFailed,
        }
    }
}

impl AggregationView {
    /// Whether the aggregation has ended.
    pub open spec fn ended(self) -> bool {
        self is Done || self is Failed
    }

    /// How many answers the aggregation can still take.
    pub open spec fn steps_left(self) -> nat {
        match self {
            AggregationView::LoadUser { .. } => 3,
            AggregationView::LoadAvatar { .. } => 2,
            AggregationView::FetchGitHub { .. } => 1,
            _ => 0,
        }
    }

    /// What follows once both rows are there: the stored tag picks the
    /// platform. A tag that names no platform ends the aggregation; a
    /// platform without a fetcher ends it with that platform's empty
    /// profile; GitHub is asked.
    pub open spec fn dispatch(id: int, user: DbUserView, avatar: Seq<char>) -> AggregationView {
        match Platform::parse(user.platform) {
            None => AggregationView::Failed(ErrorView::UnknownPlatform(user.platform)),
            Some(platform) => match PlatformUserData::unfetched(platform) {
                Some(empty) => AggregationView::Done(UserView::assemble(user, avatar, empty)),
                None => AggregationView::FetchGitHub { id, user, avatar },
            },
        }
    }

    /// The aggregation after an answer. An answer to a question that the
    /// aggregation is not waiting on leaves it as it is.
    pub open spec fn step(self, reply: ReplyView) -> AggregationView {
        match self {
            AggregationView::LoadUser { id, data_dir } => match reply {
                ReplyView::UserRow(Some(user)) => AggregationView::LoadAvatar { id, data_dir, user },
                ReplyView::UserRow(None) => AggregationView::Failed(ErrorView::NotFound),
                ReplyView::StorageFailed => AggregationView::Failed(
                    ErrorView::StorageError(StorageOp::GetUser.message()),
                ),
                _ => self,
            },
            AggregationView::LoadAvatar { id, data_dir, user } => match reply {
                ReplyView::AvatarRow(Some(avatar)) => AggregationView::dispatch(
                    id,
                    user,
                    avatar.path_str(data_dir),
                ),
                ReplyView::AvatarRow(None) => AggregationView::Failed(ErrorView::NotFound),
                ReplyView::StorageFailed => AggregationView::Failed(
                    ErrorView::StorageError(StorageOp::GetAvatar.message()),
                ),
                _ => self,
            },
            AggregationView::FetchGitHub { id, user, avatar } => match reply {
                ReplyView::GitHubProfile(Ok(profile)) => AggregationView::Done(
                    UserView::assemble(user, avatar, PlatformUserData::GitHub(profile)),
                ),
                ReplyView::GitHubProfile(Err(reason)) => AggregationView::Failed(
                    ErrorView::FetchError(reason),
                ),
                _ => self,
            },
            _ => self,
        }
    }

    /// The end of an aggregation that is answered from the tables `store`
    /// and, where GitHub is asked, with `github`.
    pub open spec fn run(
        store: StoreView,
        id: int,
        data_dir: Seq<char>,
        github: Result<GitHubUserData, Seq<char>>,
    ) -> AggregationView {
        let loaded = (AggregationView::LoadUser { id, data_dir }).step(
            ReplyView::UserRow(store.user(id)),
        );
        let located = loaded.step(ReplyView::AvatarRow(store.avatar(id)));
        located.step(ReplyView::GitHubProfile(github))
    }
}

impl Aggregation {
    /// The aggregation for the user under `id`, with avatars below
    /// `data_dir`: it waits for the user row.
    pub fn start(id: i64, data_dir: &str) -> (state: Aggregation)
        ensures
            state@ == (AggregationView::LoadUser { id: id as int, data_dir: data_dir@ }),
    {
        Aggregation::LoadUser { id, data_dir: data_dir.to_owned() }
    }

    /// Takes an answer and says what the aggregation waits for next, or how
    /// it ended.
    pub fn step(self, reply: Reply) -> (next: Aggregation)
        ensures
            next@ == self@.step(reply@),
    {
        match self {
            Aggregation::LoadUser { id, data_dir } => match reply {
                Reply::UserRow(Some(user)) => Aggregation::LoadAvatar { id, data_dir, user },
                Reply::UserRow(None) => Aggregation::Failed(AppError::NotFound),
                Reply::StorageFailed => Aggregation::Failed(StorageOp::GetUser.failure()),
                _ => Aggregation::LoadUser { id, data_dir },
            },
            Aggregation::LoadAvatar { id, data_dir, user } => match reply {
                Reply::AvatarRow(Some(avatar)) => {
                    let path = avatar.path_str(data_dir.as_str());
                    Aggregation::dispatch(id, user, path)
                },
                Reply::AvatarRow(None) => Aggregation::Failed(AppError::NotFound),
                Reply::StorageFailed => Aggregation::Failed(StorageOp::GetAvatar.failure()),
                _ => Aggregation::LoadAvatar { id, data_dir, user },
            },
            Aggregation::FetchGitHub { id, user, avatar } => match reply {
                Reply::GitHubProfile(Ok(profile)) => Aggregation::Done(
                    User::assemble(user, avatar, PlatformUserData::GitHub(profile)),
                ),
                Reply::GitHubProfile(Err(reason)) => Aggregation::Failed(
                    AppError::FetchError(reason),
                ),
                _ => Aggregation::FetchGitHub { id, user, avatar },
            },
            Aggregation::Done(user) => Aggregation::Done(user),
            Aggregation::Failed(error) => Aggregation::Failed(error),
        }
    }

    /// Picks the platform by the stored tag, once both rows are there.
    pub fn dispatch(id: i64, user: DbUser, avatar: String) -> (next: Aggregation)
        ensures
            next@ == AggregationView::dispatch(id as int, user@, avatar@),
    {
        match Platform::from_str(user.platform.as_str()) {
            Err(error) => Aggregation::Failed(error),
            Ok(platform) => match platform {
                Platform::Bitbucket => Aggregation::Done(
                    User::assemble(user, avatar, PlatformUserData::Bitbucket),
                ),
                Platform::GitHub => Aggregation::FetchGitHub { id, user, avatar },
                Platform::GitLab => Aggregation::Done(
                    User::assemble(user, avatar, PlatformUserData::GitLab),
                ),
                Platform::Gitea => Aggregation::Done(
                    User::assemble(user, avatar, PlatformUserData::Gitea),
                ),
            },
        }
    }

    /// How the aggregation ended, or nothing while it still waits.
    pub fn outcome(self) -> (outcome: Option<Result<User, AppError>>)
        ensures
            match outcome {
                Some(Ok(user)) => self == Aggregation::Done(user),
                Some(Err(error)) => self == Aggregation::Failed(error),
                None => !self@.ended(),
            },
    {
        match self {
            Aggregation::Done(user) => Some(Ok(user)),
            Aggregation::Failed(error) => Some(Err(error)),
            _ => None,
        }
    }
}

/// What a request for the user under `id` ends in, given the tables and
/// what GitHub answers when it is asked.
///
/// The user row and the avatar row must both be there. The stored tag must
/// name a platform. Only a platform with a fetcher is asked, and only then
/// can the request end in a fetch error: every other platform yields its
/// empty profile. The result is whole or an error, never a part.
pub open spec fn spec_get(
    store: StoreView,
    id: int,
    data_dir: Seq<char>,
    github: Result<GitHubUserData, Seq<char>>,
) -> Result<UserView, ErrorView> {
    match (store.user(id), store.avatar(id)) {
        (None, _) => Err(ErrorView::NotFound),
        (Some(_), None) => Err(ErrorView::NotFound),
        (Some(row), Some(avatar)) => {
            let path = avatar.path_str(data_dir);
            match Platform::parse(row.platform) {
                None => Err(ErrorView::UnknownPlatform(row.platform)),
                Some(platform) => match PlatformUserData::unfetched(platform) {
                    Some(empty) => Ok(UserView::assemble(row, path, empty)),
                    None => match github {
                        Ok(profile) => Ok(
                            UserView::assemble(row, path, PlatformUserData::GitHub(profile)),
                        ),
                        Err(reason) => Err(ErrorView::FetchError(reason)),
                    },
                },
            }
        },
    }
}

/// Reads the clock with `std::time::SystemTime::now` and renders it with
/// `chrono::DateTime::from_timestamp` and `DateTime::to_rfc3339`: the current
/// time as a text. Nothing is claimed of the answer: it depends on the clock.
/// There is none where the clock stands before 1970 or beyond the dates that
/// `chrono` holds.
#[verifier::external_body]
fn now_rfc3339() -> (now: Option<String>) {
    let since = std::time::SystemTime::now().duration_since(std::time::UNIX_EPOCH).ok()?;
    let secs = i64::try_from(since.as_secs()).ok()?;
    Some(chrono::DateTime::from_timestamp(secs, since.subsec_nanos())?.to_rfc3339())
}

impl User {
    /// Puts a stored row, an avatar path and a profile together.
    pub fn assemble(row: DbUser, avatar: String, platform_user: PlatformUserData) -> (user: User)
        ensures
            user@ == UserView::assemble(row@, avatar@, platform_user),
    {
        User {
            user: row.user,
            created_at: row.created_at,
            updated_at: row.updated_at,
            avatar,
            platform_user,
        }
    }

    /// Inserts the row of a new user and returns the new id. No check is
    /// made that the name is new. Fails, and leaves the tables as they are,
    /// where there is no row to insert or no id is left.
    pub fn add_row(row: Option<DbUser>, store: &mut Store) -> (added: Result<i64, AppError>)
        requires
            old(store).wf(),
        ensures
            final(store).wf(),
            match added {
                Ok(id) => {
                    &&& row is Some
                    &&& old(store)@.has_room()
                    &&& id == old(store)@.next_id()
                    &&& final(store)@ == old(store)@.insert_user(row->Some_0@)
                },
                Err(error) => {
                    &&& row is None || !old(store)@.has_room()
                    &&& final(store)@ == old(store)@
                    &&& error@ == ErrorView::StorageError(StorageOp::AddUser.message())
                },
            },
    {
        match row {
            Some(r) => match store.insert_user(r) {
                Some(id) => Ok(id),
                None => Err(StorageOp::AddUser.failure()),
            },
            None => Err(StorageOp::AddUser.failure()),
        }
    }

    /// Registers a user at the time `now` and returns the new id. No check
    /// is made that the name is new. Fails, and leaves the tables as they
    /// are, only where no id is left.
    pub fn add_at(user: &str, platform: &str, now: &str, store: &mut Store) -> (added: Result<
        i64,
        AppError,
    >)
        requires
            old(store).wf(),
        ensures
            final(store).wf(),
            match added {
                Ok(id) => {
                    &&& old(store)@.has_room()
                    &&& id == old(store)@.next_id()
                    &&& final(store)@ == old(store)@.insert_user(
                        DbUserView::registered(user@, platform@, now@),
                    )
                },
                Err(error) => {
                    &&& !old(store)@.has_room()
                    &&& final(store)@ == old(store)@
                    &&& error@ == ErrorView::StorageError(StorageOp::AddUser.message())
                },
            },
    {
        User::add_row(Some(DbUser::registered(user, platform, now)), store)
    }

    /// Registers a user at the current time and returns the new id: the row
    /// is created and last updated at one time, whatever the clock says.
    /// Fails, and leaves the tables as they are, where no id is left or the
    /// clock gives no time.
    pub fn add(user: &str, platform: &str, store: &mut Store) -> (added: Result<i64, AppError>)
        requires
            old(store).wf(),
        ensures
            final(store).wf(),
            match added {
                Ok(id) => {
                    &&& old(store)@.has_room()
                    &&& id == old(store)@.next_id()
                    &&& exists|now: Seq<char>|
                        final(store)@ == old(store)@.insert_user(
                            #[trigger] DbUserView::registered(user@, platform@, now),
                        )
                },
                Err(error) => {
                    &&& final(store)@ == old(store)@
                    &&& error@ == ErrorView::StorageError(StorageOp::AddUser.message())
                },
            },
            !old(store)@.has_room() ==> added is Err,
    {
        User::add_row(DbUser::registered_now(user, platform), store)
    }

    /// Whether a user of that name is registered.
    pub fn is_registered(user: &str, store: &Store) -> (found: Result<bool, AppError>)
        requires
            store.wf(),
        ensures
            found == Ok::<bool, AppError>(store@.has_user_named(user@)),
    {
        Ok(store.user_id_by_name(user).is_some())
    }

    /// Puts together the user under `id`: the row, the path of the avatar
    /// below `data_dir` and the profile. `github` is what GitHub answers for
    /// this user; it is looked at only where the user is on GitHub.
    pub fn get(id: i64, store: &Store, data_dir: &str, github: Result<GitHubUserData, String>) -> (got:
        Result<User, AppError>)
        requires
            store.wf(),
        ensures
            outcome_view(got) == spec_get(store@, id as int, data_dir@, fetched_view(github)),
    {
        let ghost fetched = fetched_view(github);
        let loaded = Aggregation::start(id, data_dir).step(Reply::UserRow(store.user_by_id(id)));
        let located = match loaded {
            Aggregation::LoadAvatar { .. } => loaded.step(
                Reply::AvatarRow(store.avatar_by_user(id)),
            ),
            _ => loaded,
        };
        let ended = match located {
            Aggregation::FetchGitHub { .. } => located.step(Reply::GitHubProfile(github)),
            _ => located,
        };
        proof {
            lemma_run_is_get(store@, id as int, data_dir@, fetched);
        }
        match ended {
            Aggregation::Done(user) => Ok(user),
            Aggregation::Failed(error) => Err(error),
            _ => unreached(),
        }
    }

    /// Deletes the user row under `id`. The avatar row of the user stays.
    pub fn remove(id: i64, store: &mut Store) -> (removed: Result<(), AppError>)
        requires
            old(store).wf(),
        ensures
            final(store).wf(),
            removed is Ok,
            final(store)@ == old(store)@.delete_user(id as int),
    {
        store.delete_user(id);
        Ok(())
    }
}

/// An aggregation that is answered from the tables, and by GitHub where it
/// asks, ends in what `spec_get` says, and it always ends.
pub proof fn lemma_run_is_get(
    store: StoreView,
    id: int,
    data_dir: Seq<char>,
    github: Result<GitHubUserData, Seq<char>>,
)
    ensures
        AggregationView::run(store, id, data_dir, github) == match spec_get(
            store,
            id,
            data_dir,
            github,
        ) {
            Ok(user) => AggregationView::Done(user),
            Err(error) => AggregationView::Failed(error),
        },
{
}

/// Where the request succeeds, name and times of the user are those of the
/// stored row, unchanged.
pub proof fn lemma_get_keeps_row(
    store: StoreView,
    id: int,
    data_dir: Seq<char>,
    github: Result<GitHubUserData, Seq<char>>,
)
    requires
        spec_get(store, id, data_dir, github) is Ok,
    ensures
        store.users.dom().contains(id),
        spec_get(store, id, data_dir, github)->Ok_0.user == store.users[id].user,
        spec_get(store, id, data_dir, github)->Ok_0.created_at == store.users[id].created_at,
        spec_get(store, id, data_dir, github)->Ok_0.updated_at == store.users[id].updated_at,
{
}

/// Where both rows are there and the stored tag names a platform, the
/// request succeeds with name and times of the row, whatever the avatar and
/// the profile are, unless the platform is asked and the fetch fails.
pub proof fn lemma_get_succeeds(
    store: StoreView,
    id: int,
    data_dir: Seq<char>,
    github: Result<GitHubUserData, Seq<char>>,
)
    requires
        store.users.dom().contains(id),
        store.avatars.dom().contains(id),
        Platform::parse(store.users[id].platform) is Some,
        Platform::parse(store.users[id].platform)->Some_0.has_fetcher() ==> github is Ok,
    ensures
        spec_get(store, id, data_dir, github) is Ok,
        spec_get(store, id, data_dir, github)->Ok_0.avatar == store.avatar(id)->Some_0.path_str(
            data_dir,
        ),
        spec_get(store, id, data_dir, github)->Ok_0.platform_user.platform() == Platform::parse(
            store.users[id].platform,
        )->Some_0,
{
}

/// Every platform is either asked for its profiles or has an empty profile
/// of its own, never both.
pub proof fn lemma_empty_profile_or_fetcher(platform: Platform)
    ensures
        PlatformUserData::unfetched(platform) is None <==> platform.has_fetcher(),
        PlatformUserData::unfetched(platform) matches Some(empty) ==> empty.platform() == platform,
{
}

/// A user on a platform without a fetcher gets that platform's empty
/// profile, whatever the remote side would have answered: the request never
/// ends in a fetch error.
pub proof fn lemma_unfetched_platform_never_fails(
    store: StoreView,
    id: int,
    data_dir: Seq<char>,
    github: Result<GitHubUserData, Seq<char>>,
    platform: Platform,
)
    requires
        store.users.dom().contains(id),
        store.avatars.dom().contains(id),
        Platform::parse(store.users[id].platform) == Some(platform),
        !platform.has_fetcher(),
    ensures
        spec_get(store, id, data_dir, github) is Ok,
        PlatformUserData::unfetched(platform) == Some(
            spec_get(store, id, data_dir, github)->Ok_0.platform_user,
        ),
        !(spec_get(store, id, data_dir, github) matches Err(ErrorView::FetchError(_))),
{
}

/// A request ends in a fetch error only where the user is on a platform
/// with a fetcher and the fetch failed, and then with the fetcher's reason.
pub proof fn lemma_fetch_error_is_the_fetchers(
    store: StoreView,
    id: int,
    data_dir: Seq<char>,
    github: Result<GitHubUserData, Seq<char>>,
    reason: Seq<char>,
)
    requires
        spec_get(store, id, data_dir, github) == Err::<UserView, ErrorView>(
            ErrorView::FetchError(reason),
        ),
    ensures
        github == Err::<GitHubUserData, Seq<char>>(reason),
        store.users.dom().contains(id),
        Platform::parse(store.users[id].platform) matches Some(p) && p.has_fetcher(),
{
}

/// After a user was removed, a request for that user finds nothing.
pub proof fn lemma_get_after_remove(
    store: StoreView,
    id: int,
    data_dir: Seq<char>,
    github: Result<GitHubUserData, Seq<char>>,
)
    ensures
        spec_get(store.delete_user(id), id, data_dir, github) == Err::<UserView, ErrorView>(
            ErrorView::NotFound,
        ),
{
}

/// Removing a user changes nothing for any other user.
pub proof fn lemma_remove_keeps_others(
    store: StoreView,
    removed: int,
    id: int,
    data_dir: Seq<char>,
    github: Result<GitHubUserData, Seq<char>>,
)
    requires
        id != removed,
    ensures
        spec_get(store.delete_user(removed), id, data_dir, github) == spec_get(
            store,
            id,
            data_dir,
            github,
        ),
{
}

/// A new user gets an id above every id in the table and above every id
/// that was handed out before, and is registered right away. The tables stay
/// valid, so the next id is higher again.
pub proof fn lemma_add_is_monotonic(store: StoreView, row: DbUserView)
    requires
        store.valid(),
        store.has_room(),
    ensures
        store.next_id() > store.last_id,
        forall|id: int| store.users.dom().contains(id) ==> id < store.next_id(),
        store.insert_user(row).valid(),
        store.insert_user(row).last_id == store.next_id(),
        store.insert_user(row).users.dom().contains(store.next_id()),
        store.insert_user(row).users[store.next_id()] == row,
        store.insert_user(row).has_user_named(row.user),
{
}

/// Ids are never handed out again: removing a user, also the newest, does
/// not lower the id that the next user gets.
pub proof fn lemma_remove_keeps_ids(store: StoreView, id: int)
    requires
        store.valid(),
    ensures
        store.delete_user(id).valid(),
        store.delete_user(id).next_id() == store.next_id(),
{
}

/// A stored tag that names no platform ends the aggregation when the avatar
/// row arrives, with the tag in the error: the platform is never asked.
pub proof fn lemma_unknown_platform_never_fetches(
    id: int,
    data_dir: Seq<char>,
    user: DbUserView,
    reply: ReplyView,
)
    requires
        Platform::parse(user.platform) is None,
    ensures
        !((AggregationView::LoadAvatar { id, data_dir, user }).step(reply) is FetchGitHub),
        reply matches ReplyView::AvatarRow(Some(_)) ==> (AggregationView::LoadAvatar {
            id,
            data_dir,
            user,
        }).step(reply) == AggregationView::Failed(ErrorView::UnknownPlatform(user.platform)),
{
}

/// Each answer that an aggregation is waiting on brings it closer to its
/// end; an aggregation that has ended stays as it is.
pub proof fn lemma_step_progress(state: AggregationView, reply: ReplyView)
    ensures
        state.step(reply).steps_left() <= state.steps_left(),
        state.ended() ==> state.step(reply) == state,
        state.step(reply) != state ==> state.step(reply).steps_left() < state.steps_left(),
{
}

} // verus!
