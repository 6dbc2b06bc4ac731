//! The closed set of supported hosting platforms.

pub mod github;

use crate::error::AppError;
use vstd::prelude::*;

verus! {

/// A hosting platform. The set is closed: a new platform is a new variant.
#[derive(Clone, Copy, Debug, PartialEq, Eq, Structural)]
pub enum Platform {
    Bitbucket,
    GitHub,
    GitLab,
    Gitea,
}

impl Platform {
    /// The canonical tag under which the platform is stored.
    pub open spec fn tag(self) -> Seq<char> {
        match self {
            Platform::Bitbucket => "bitbucket"@,
            Platform::GitHub => "github"@,
            Platform::GitLab => "gitlab"@,
            Platform::Gitea => "gitea"@,
        }
    }

    /// The platform that a stored tag names: the tag must match a canonical
    /// tag exactly, character for character.
    pub open spec fn parse(tag: Seq<char>) -> Option<Platform> {
        if tag == Platform::Bitbucket.tag() {
            Some(Platform::Bitbucket)
        } else if tag == Platform::GitHub.tag() {
            Some(Platform::GitHub)
        } else if tag == Platform::GitLab.tag() {
            Some(Platform::GitLab)
        } else if tag == Platform::Gitea.tag() {
            Some(Platform::Gitea)
        } else {
            None
        }
    }

    /// Whether profiles of this platform are fetched from the remote service.
    /// A platform without a fetcher always yields its empty profile.
    pub open spec fn spec_has_fetcher(&self) -> bool {
        *self == Platform::GitHub
    }

    /// The canonical tag of the platform.
    pub fn as_str(&self) -> (tag: &'static str)
        ensures
            tag@ == self.tag(),
    {
        match self {
            Platform::Bitbucket => "bitbucket",
            Platform::GitHub => "github",
            Platform::GitLab => "gitlab",
            Platform::Gitea => "gitea",
        }
    }

    /// Whether profiles of this platform are fetched from the remote service.
    #[verifier::when_used_as_spec(spec_has_fetcher)]
    pub fn has_fetcher(&self) -> (live: bool)
        ensures
            live == self.spec_has_fetcher(),
    {
        match self {
            Platform::GitHub => true,
            _ => false,
        }
    }

    /// Parses a stored tag. Anything but a canonical tag is an error that
    /// carries the tag as it was given.
    pub fn from_str(tag: &str) -> (parsed: Result<Platform, AppError>)
        ensures
            match Platform::parse(tag@) {
                Some(platform) => parsed == Ok::<Platform, AppError>(platform),
                None => parsed matches Err(AppError::UnknownPlatform(given)) && given@ == tag@,
            },
    {
        let given = tag.to_owned();
        if given == "bitbucket".to_owned() {
            Ok(Platform::Bitbucket)
        } else if given == "github".to_owned() {
            Ok(Platform::GitHub)
        } else if given == "gitlab".to_owned() {
            Ok(Platform::GitLab)
        } else if given == "gitea".to_owned() {
            Ok(Platform::Gitea)
        } else {
            Err(AppError::UnknownPlatform(given))
        }
    }
}

/// Each platform's tag parses back to that platform: the canonical tags are
/// pairwise different.
pub proof fn lemma_tag_parses(platform: Platform)
    ensures
        Platform::parse(platform.tag()) == Some(platform),
{
    reveal_strlit("bitbucket");
    reveal_strlit("github");
    reveal_strlit("gitlab");
    reveal_strlit("gitea");
    assert("bitbucket"@.len() == 9);
    assert("github"@[3] != "gitlab"@[3]);
}

/// Parsing accepts nothing but the canonical tags: a tag that parses is the
/// tag of the platform it parsed to.
pub proof fn lemma_parse_exact(tag: Seq<char>, platform: Platform)
    ensures
        Platform::parse(tag) == Some(platform) <==> tag == platform.tag(),
{
    lemma_tag_parses(platform);
}

} // verus!
