//! The two tables that hold users and their avatars, kept in memory.
//!
//! The tables are keyed by user id. Ids are handed out in increasing order
//! and never again, also after the row they were given to is gone.

use crate::user::avatar::{AvatarView, UserAvatar};
use crate::user::{DbUser, DbUserView};
use vstd::prelude::*;

verus! {

struct UserRecord {
    id: i64,
    row: DbUser,
}

/// The user table and the avatar table.
pub struct Store {
    users: Vec<UserRecord>,
    avatars: Vec<UserAvatar>,
    last_id: i64,
    user_rows: Ghost<Map<int, DbUserView>>,
    avatar_rows: Ghost<Map<int, Option<Seq<char>>>>,
}

/// What a [`Store`] holds: the user row and the avatar extension under each
/// id, and the last id that was handed out.
pub struct StoreView {
    pub users: Map<int, DbUserView>,
    pub avatars: Map<int, Option<Seq<char>>>,
    pub last_id: int,
}

impl StoreView {
    /// No row has an id that was not handed out yet.
    pub open spec fn valid(self) -> bool {
        &&& 0 <= self.last_id <= i64::MAX
        &&& forall|id: int| #[trigger] self.users.dom().contains(id) ==> 1 <= id <= self.last_id
    }

    /// Whether a new id is left to hand out.
    pub open spec fn has_room(self) -> bool {
        self.last_id < i64::MAX
    }

    /// The id that the next insertion hands out.
    pub open spec fn next_id(self) -> int {
        self.last_id + 1
    }

    /// The tables after `row` was inserted under the next id.
    pub open spec fn insert_user(self, row: DbUserView) -> StoreView {
        StoreView {
            users: self.users.insert(self.next_id(), row),
            avatars: self.avatars,
            last_id: self.next_id(),
        }
    }

    /// The tables after the user row under `id` was deleted. The avatar row
    /// of that user stays.
    pub open spec fn delete_user(self, id: int) -> StoreView {
        StoreView { users: self.users.remove(id), avatars: self.avatars, last_id: self.last_id }
    }

    /// The tables after the avatar row of `avatar.id` was written.
    pub open spec fn set_avatar(self, avatar: AvatarView) -> StoreView {
        StoreView {
            users: self.users,
            avatars: self.avatars.insert(avatar.id, avatar.ext),
            last_id: self.last_id,
        }
    }

    /// Whether some user row holds the name `user`.
    pub open spec fn has_user_named(self, user: Seq<char>) -> bool {
        exists|id: int| #[trigger] self.users.dom().contains(id) && self.users[id].user == user
    }

    /// The user row under `id`, if there is one.
    pub open spec fn user(self, id: int) -> Option<DbUserView> {
        if self.users.dom().contains(id) {
            Some(self.users[id])
        } else {
            None
        }
    }

    /// The avatar row under `id`, if there is one.
    pub open spec fn avatar(self, id: int) -> Option<AvatarView> {
        if self.avatars.dom().contains(id) {
            Some(AvatarView { id, ext: self.avatars[id] })
        } else {
            None
        }
    }
}

impl View for Store {
    type V = StoreView;

    closed spec fn view(&self) -> StoreView {
        StoreView {
            users: self.user_rows@,
            avatars: self.avatar_rows@,
            last_id: self.last_id as int,
        }
    }
}

impl Store {
    /// The rows in memory are the rows of the view.
    pub closed spec fn inv(&self) -> bool {
        &&& forall|i: int|
            0 <= i < self.users.len() ==> {
                &&& self.user_rows@.dom().contains(#[trigger] self.users[i].id as int)
                &&& self.user_rows@[self.users[i].id as int] == self.users[i].row@
            }
        &&& forall|id: int| #[trigger]
            self.user_rows@.dom().contains(id) ==> exists|i: int|
                0 <= i < self.users.len() && #[trigger] self.users[i].id == id
        &&& forall|i: int|
            0 <= i < self.avatars.len() ==> {
                &&& self.avatar_rows@.dom().contains(#[trigger] self.avatars[i].id as int)
                &&& self.avatar_rows@[self.avatars[i].id as int] == self.avatars[i]@.ext
            }
        &&& forall|id: int| #[trigger]
            self.avatar_rows@.dom().contains(id) ==> exists|i: int|
                0 <= i < self.avatars.len() && #[trigger] self.avatars[i].id == id
    }

    /// What every store holds of: its rows in memory are the rows of its view,
    /// and the view is valid.
    pub open spec fn wf(&self) -> bool {
        self.inv() && self@.valid()
    }

    /// Two empty tables; the first id to be handed out is 1.
    pub fn new() -> (store: Store)
        ensures
            store.wf(),
            store@.users == Map::<int, DbUserView>::empty(),
            store@.avatars == Map::<int, Option<Seq<char>>>::empty(),
            store@.last_id == 0,
    {
        Store {
            users: Vec::new(),
            avatars: Vec::new(),
            last_id: 0,
            user_rows: Ghost(Map::empty()),
            avatar_rows: Ghost(Map::empty()),
        }
    }

    /// Inserts a user row under the next id and returns that id, or leaves
    /// the tables as they are where no id is left.
    pub fn insert_user(&mut self, row: DbUser) -> (id: Option<i64>)
        requires
            old(self).wf(),
        ensures
            final(self).wf(),
            match id {
                Some(id) => old(self)@.has_room() && id == old(self)@.next_id() && final(self)@
                    == old(self)@.insert_user(row@),
                None => !old(self)@.has_room() && final(self)@ == old(self)@,
            },
    {
        if self.last_id == i64::MAX {
            return None;
        }
        let id = self.last_id + 1;
        self.last_id = id;
        self.user_rows = Ghost(self.user_rows@.insert(id as int, row@));
        self.users.push(UserRecord { id, row });
        proof {
            let n = old(self).users.len() as int;
            assert(self.users[n].id == id);
            assert forall|k: int| #[trigger] self.user_rows@.dom().contains(k) implies exists|
                i: int,
            |
                0 <= i < self.users.len() && #[trigger] self.users[i].id == k by {
                if k != id {
                    let i = choose|i: int|
                        0 <= i < old(self).users.len() && #[trigger] old(self).users[i].id == k;
                    assert(self.users[i].id == k);
                }
            }
            assert(self@ =~= old(self)@.insert_user(row@));
        }
        Some(id)
    }

    /// The user row under `id`, if there is one.
    pub fn user_by_id(&self, id: i64) -> (row: Option<DbUser>)
        requires
            self.wf(),
        ensures
            match row {
                Some(r) => self@.user(id as int) == Some(r@),
                None => self@.user(id as int) is None,
            },
    {
        let mut i: usize = 0;
        while i < self.users.len()
            invariant
                self.inv(),
                0 <= i <= self.users.len(),
                forall|j: int| 0 <= j < i ==> self.users[j].id != id,
            decreases self.users.len() - i,
        {
            if self.users[i].id == id {
                return Some(self.users[i].row.clone());
            }
            i += 1;
        }
        None
    }

    /// The id of a user row that holds the name `user`, if there is one.
    /// Where several rows hold the name, any of them may be named.
    pub fn user_id_by_name(&self, user: &str) -> (id: Option<i64>)
        requires
            self.wf(),
        ensures
            match id {
                Some(id) => self@.users.dom().contains(id as int) && self@.users[id as int].user
                    == user@,
                None => !self@.has_user_named(user@),
            },
    {
        let wanted = user.to_owned();
        let mut i: usize = 0;
        while i < self.users.len()
            invariant
                self.inv(),
                wanted@ == user@,
                0 <= i <= self.users.len(),
                forall|j: int| 0 <= j < i ==> self.users[j].row@.user != user@,
            decreases self.users.len() - i,
        {
            if self.users[i].row.user == wanted {
                return Some(self.users[i].id);
            }
            i += 1;
        }
        None
    }

    /// Deletes the user row under `id`, if there is one. The avatar row of
    /// that user is not touched.
    pub fn delete_user(&mut self, id: i64)
        requires
            old(self).wf(),
        ensures
            final(self).wf(),
            final(self)@ == old(self)@.delete_user(id as int),
    {
        let ghost before = self.user_rows@;
        self.user_rows = Ghost(before.remove(id as int));
        let mut i: usize = 0;
        while i < self.users.len()
            invariant
                0 <= i <= self.users.len(),
                self.avatars == old(self).avatars,
                self.last_id == old(self).last_id,
                self.avatar_rows == old(self).avatar_rows,
                self.user_rows@ == before.remove(id as int),
                before == old(self).user_rows@,
                forall|j: int| 0 <= j < i ==> self.users[j].id != id,
                forall|j: int|
                    0 <= j < self.users.len() ==> {
                        &&& before.dom().contains(#[trigger] self.users[j].id as int)
                        &&& before[self.users[j].id as int] == self.users[j].row@
                    },
                forall|k: int| #[trigger]
                    before.dom().contains(k) && k != id ==> exists|j: int|
                        0 <= j < self.users.len() && #[trigger] self.users[j].id == k,
            decreases self.users.len() - i,
        {
            if self.users[i].id == id {
                let ghost prev = self.users@;
                self.users.remove(i);
                proof {
                    assert forall|k: int| #[trigger] before.dom().contains(k) && k != id implies exists|
                        j: int,
                    |
                        0 <= j < self.users.len() && #[trigger] self.users[j].id == k by {
                        let j = choose|j: int| 0 <= j < prev.len() && #[trigger] prev[j].id == k;
                        if j < i {
                            assert(self.users[j].id == k);
                        } else {
                            assert(self.users[j - 1].id == k);
                        }
                    }
                }
            } else {
                i += 1;
            }
        }
        proof {
            assert(self@ =~= old(self)@.delete_user(id as int));
        }
    }

    /// The avatar row under `id`, if there is one.
    pub fn avatar_by_user(&self, id: i64) -> (row: Option<UserAvatar>)
        requires
            self.wf(),
        ensures
            match row {
                Some(r) => self@.avatar(id as int) == Some(r@),
                None => self@.avatar(id as int) is None,
            },
    {
        let mut i: usize = 0;
        while i < self.avatars.len()
            invariant
                self.inv(),
                0 <= i <= self.avatars.len(),
                forall|j: int| 0 <= j < i ==> self.avatars[j].id != id,
            decreases self.avatars.len() - i,
        {
            if self.avatars[i].id == id {
                let ext = match &self.avatars[i].ext {
                    Some(e) => Some(e.clone()),
                    None => None,
                };
                return Some(UserAvatar { id, ext });
            }
            i += 1;
        }
        None
    }

    /// Writes the avatar row of `avatar.id`, in place of the one that was
    /// there if there was one.
    pub fn set_avatar(&mut self, avatar: UserAvatar)
        requires
            old(self).wf(),
        ensures
            final(self).wf(),
            final(self)@ == old(self)@.set_avatar(avatar@),
    {
        let ghost before = self.avatar_rows@;
        let id = avatar.id;
        let mut i: usize = 0;
        while i < self.avatars.len()
            invariant
                0 <= i <= self.avatars.len(),
                self.users == old(self).users,
                self.last_id == old(self).last_id,
                self.user_rows == old(self).user_rows,
                self.avatar_rows@ == before,
                before == old(self).avatar_rows@,
                forall|j: int| 0 <= j < i ==> self.avatars[j].id != id,
                forall|j: int|
                    0 <= j < self.avatars.len() ==> {
                        &&& before.dom().contains(#[trigger] self.avatars[j].id as int)
                        &&& before[self.avatars[j].id as int] == self.avatars[j]@.ext
                    },
                forall|k: int| #[trigger]
                    before.dom().contains(k) && k != id ==> exists|j: int|
                        0 <= j < self.avatars.len() && #[trigger] self.avatars[j].id == k,
            decreases self.avatars.len() - i,
        {
            if self.avatars[i].id == id {
                let ghost prev = self.avatars@;
                self.avatars.remove(i);
                proof {
                    assert forall|k: int| #[trigger] before.dom().contains(k) && k != id implies exists|
                        j: int,
                    |
                        0 <= j < self.avatars.len() && #[trigger] self.avatars[j].id == k by {
                        let j = choose|j: int| 0 <= j < prev.len() && #[trigger] prev[j].id == k;
                        if j < i {
                            assert(self.avatars[j].id == k);
                        } else {
                            assert(self.avatars[j - 1].id == k);
                        }
                    }
                }
            } else {
                i += 1;
            }
        }
        self.avatar_rows = Ghost(before.insert(id as int, avatar@.ext));
        let ghost n = self.avatars.len() as int;
        let ghost prev = self.avatars@;
        let ghost row = avatar@;
        self.avatars.push(avatar);
        proof {
            assert(self.avatars[n].id == id);
            assert forall|k: int| #[trigger] self.avatar_rows@.dom().contains(k) implies exists|
                j: int,
            |
                0 <= j < self.avatars.len() && #[trigger] self.avatars[j].id == k by {
                if k != id {
                    let j = choose|j: int| 0 <= j < prev.len() && #[trigger] prev[j].id == k;
                    assert(self.avatars[j].id == k);
                }
            }
            assert forall|k: int| #[trigger] self.user_rows@.dom().contains(k) implies exists|
                j: int,
            |
                0 <= j < self.users.len() && #[trigger] self.users[j].id == k by {
                let j = choose|j: int|
                    0 <= j < old(self).users.len() && #[trigger] old(self).users[j].id == k;
                assert(self.users[j].id == k);
            }
            assert(self@ =~= old(self)@.set_avatar(row));
        }
    }
}

} // verus!
