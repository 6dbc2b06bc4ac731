//! The profile that is kept of a GitHub user.

use crate::platforms::github::api_models::GitHubApiUser;
use vstd::prelude::*;

verus! {

/// A GitHub user's profile as it is shown: who they are, what they say of
/// themselves, and their counts. A field that the user left empty is absent.
#[derive(Debug, PartialEq, Eq)]
pub struct GitHubUserData {
    pub login: String,
    pub id: i32,
    pub name: Option<String>,
    pub company: Option<String>,
    pub bio: Option<String>,
    pub followers: i32,
    pub following: i32,
    pub public_repos: i32,
    pub public_gists: i32,
    pub created_at: String,
    pub updated_at: String,
}

impl GitHubUserData {
    /// The profile held in the answer of the API to a request for a user:
    /// each field of the profile is the answer's field of that name.
    pub open spec fn spec_from_api(api: GitHubApiUser) -> GitHubUserData {
        GitHubUserData {
            login: api.login,
            id: api.id,
            name: api.name,
            company: api.company,
            bio: api.bio,
            followers: api.followers,
            following: api.following,
            public_repos: api.public_repos,
            public_gists: api.public_gists,
            created_at: api.created_at,
            updated_at: api.updated_at,
        }
    }

    /// Takes the profile out of an answer of the API.
    pub fn from_api(api: GitHubApiUser) -> (profile: GitHubUserData)
        ensures
            profile == GitHubUserData::spec_from_api(api),
    {
        GitHubUserData {
            login: api.login,
            id: api.id,
            name: api.name,
            company: api.company,
            bio: api.bio,
            followers: api.followers,
            following: api.following,
            public_repos: api.public_repos,
            public_gists: api.public_gists,
            created_at: api.created_at,
            updated_at: api.updated_at,
        }
    }
}

} // verus!
