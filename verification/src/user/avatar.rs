//! The locally cached avatar of a user.

use crate::error::{require_row, AppError};
use crate::store::Store;
use crate::text::{decimal, push_decimal};
use crate::utils::dirs::{lemma_avatar_in_avatars, DataPath, DataPathView};
use vstd::prelude::*;
use vstd::string::*;

verus! {

/// The avatar row of a user: the user's id and the extension of the image
/// file, where it has one.
#[derive(Debug, PartialEq, Eq)]
pub struct UserAvatar {
    pub id: i64,
    pub ext: Option<String>,
}

/// A [`UserAvatar`] with its extension as a sequence of characters.
pub struct AvatarView {
    pub id: int,
    pub ext: Option<Seq<char>>,
}

impl View for UserAvatar {
    type V = AvatarView;

    open spec fn view(&self) -> AvatarView {
        AvatarView {
            id: self.id as int,
            ext: match self.ext {
                Some(e) => Some(e@),
                None => None,
            },
        }
    }
}

impl AvatarView {
    /// The name of the image file: the id in decimal, then a dot and the
    /// extension where one is stored, and nothing more where none is.
    pub open spec fn file_name(self) -> Seq<char> {
        match self.ext {
            Some(e) => decimal(self.id) + seq!['.'] + e,
            None => decimal(self.id),
        }
    }

    /// The path of the image file below the data directory.
    pub open spec fn path_str(self, data_dir: Seq<char>) -> Seq<char> {
        DataPathView::Avatar(self.file_name()).path(data_dir)
    }
}

impl UserAvatar {
    /// Looks up the avatar row of a user. Each user has exactly one: a
    /// missing row is an error, not an avatar without a file.
    pub fn get(user_id: i64, store: &Store) -> (found: Result<UserAvatar, AppError>)
        requires
            store.wf(),
        ensures
            match found {
                Ok(avatar) => store@.avatar(user_id as int) == Some(avatar@),
                Err(e) => store@.avatar(user_id as int) is None && e == AppError::NotFound,
            },
    {
        require_row(store.avatar_by_user(user_id))
    }

    /// The name of the avatar's image file.
    pub fn file_name(&self) -> (name: String)
        ensures
            name@ == self@.file_name(),
    {
        let mut name = String::new();
        push_decimal(&mut name, self.id);
        if let Some(e) = &self.ext {
            proof {
                reveal_strlit(".");
            }
            name.append(".");
            name.append(e.as_str());
        }
        name
    }

    /// The path of the avatar's image file below the data directory. It is
    /// a function of the row and the directory alone.
    pub fn path_str(&self, data_dir: &str) -> (path: String)
        ensures
            path@ == self@.path_str(data_dir@),
    {
        let name = self.file_name();
        DataPath::Avatar(name.as_str()).path(data_dir)
    }
}

/// The avatar's path is the avatar directory, a `/`, the id in decimal and,
/// where an extension is stored, a dot and the extension.
pub proof fn lemma_path_str_format(avatar: AvatarView, data_dir: Seq<char>)
    ensures
        avatar.path_str(data_dir) == DataPathView::Avatars.path(data_dir) + seq!['/']
            + avatar.file_name(),
{
    lemma_avatar_in_avatars(data_dir, avatar.file_name());
}

/// Two rows that hold the same id and extension have the same path below
/// the same directory.
pub proof fn lemma_path_str_deterministic(a: UserAvatar, b: UserAvatar, data_dir: Seq<char>)
    requires
        a@ == b@,
    ensures
        a@.path_str(data_dir) == b@.path_str(data_dir),
{
}

} // verus!
