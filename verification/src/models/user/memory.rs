//! A store of users held in memory: no two of its users share an identifier
//! or a name.

use crate::models::user::{
    confirmed_with_id, confirmed_with_name, copy_user, count_id, has_id, has_name,
    lemma_first_match_skips, login_outcome, unique_ids, unique_names, with_confirmed, IOModel,
    NewUser, StoreError, User, UserRow,
};
use crate::text::same_text;
use vstd::prelude::*;
use vstd::string::*;

verus! {

/// The users, in the order in which they were stored.
pub struct MemoryModel {
    users: Vec<User>,
}

/// The index of the first confirmed user with the given identifier.
fn position_of_id(users: &Vec<User>, id: u128) -> (at: Option<usize>)
    ensures
        match at {
            Some(i) => i < users.len() && confirmed_with_id(users.deep_view(), id) == Some(
                users[i as int]@,
            ),
            None => confirmed_with_id(users.deep_view(), id) is None,
        },
{
    let ghost rows = users.deep_view();
    let ghost wanted = |row: UserRow| row.id == id && row.confirmed;
    let mut i: usize = 0;
    while i < users.len()
        invariant
            i <= users.len(),
            rows == users.deep_view(),
            wanted == |row: UserRow| row.id == id && row.confirmed,
            forall|j: int| 0 <= j < i ==> !wanted(#[trigger] rows[j]),
        decreases users.len() - i,
    {
        if users[i].id == id && users[i].confirmed {
            proof {
                lemma_first_match_skips(rows, wanted, i as int);
                assert(rows.skip(i as int)[0] == users[i as int]@);
            }
            return Some(i);
        }
        i += 1;
    }
    proof {
        lemma_first_match_skips(rows, wanted, i as int);
        assert(rows.skip(i as int).len() == 0);
    }
    None
}

/// The index of the first confirmed user with the given name.
fn position_of_name(users: &Vec<User>, name: &str) -> (at: Option<usize>)
    ensures
        match at {
            Some(i) => i < users.len() && confirmed_with_name(users.deep_view(), name@) == Some(
                users[i as int]@,
            ),
            None => confirmed_with_name(users.deep_view(), name@) is None,
        },
{
    let ghost rows = users.deep_view();
    let ghost wanted = |row: UserRow| row.name == name@ && row.confirmed;
    let mut i: usize = 0;
    while i < users.len()
        invariant
            i <= users.len(),
            rows == users.deep_view(),
            wanted == |row: UserRow| row.name == name@ && row.confirmed,
            forall|j: int| 0 <= j < i ==> !wanted(#[trigger] rows[j]),
        decreases users.len() - i,
    {
        if users[i].confirmed && same_text(users[i].name.as_str(), name) {
            proof {
                lemma_first_match_skips(rows, wanted, i as int);
                assert(rows.skip(i as int)[0] == users[i as int]@);
            }
            return Some(i);
        }
        i += 1;
    }
    proof {
        lemma_first_match_skips(rows, wanted, i as int);
        assert(rows.skip(i as int).len() == 0);
    }
    None
}

/// Whether some user has the given name.
fn name_is_taken(users: &Vec<User>, name: &str) -> (taken: bool)
    ensures
        taken == has_name(users.deep_view(), name@),
{
    let ghost rows = users.deep_view();
    let mut i: usize = 0;
    while i < users.len()
        invariant
            i <= users.len(),
            rows == users.deep_view(),
            forall|j: int| 0 <= j < i ==> (#[trigger] rows[j]).name != name@,
        decreases users.len() - i,
    {
        if same_text(users[i].name.as_str(), name) {
            assert(rows[i as int].name == name@);
            return true;
        }
        i += 1;
    }
    false
}

/// Whether some user has the given identifier.
fn id_is_taken(users: &Vec<User>, id: u128) -> (taken: bool)
    ensures
        taken == has_id(users.deep_view(), id),
{
    let ghost rows = users.deep_view();
    let mut i: usize = 0;
    while i < users.len()
        invariant
            i <= users.len(),
            rows == users.deep_view(),
            forall|j: int| 0 <= j < i ==> (#[trigger] rows[j]).id != id,
        decreases users.len() - i,
    {
        if users[i].id == id {
            assert(rows[i as int].id == id);
            return true;
        }
        i += 1;
    }
    false
}

/// Confirms the users with the given identifier and counts them.
fn confirm_in(users: &mut Vec<User>, id: u128) -> (touched: usize)
    ensures
        final(users).deep_view() == with_confirmed(old(users).deep_view(), id),
        touched == count_id(old(users).deep_view(), id),
{
    let ghost before = users.deep_view();
    let mut touched: usize = 0;
    let mut i: usize = 0;
    while i < users.len()
        invariant
            i <= users.len(),
            users.len() == before.len(),
            touched <= i,
            touched == count_id(before.take(i as int), id),
            forall|j: int| 0 <= j < i ==> users.deep_view()[j] == with_confirmed(before, id)[j],
            forall|j: int| i <= j < before.len() ==> users.deep_view()[j] == before[j],
        decreases users.len() - i,
    {
        proof {
            assert(before.take(i + 1).drop_last() =~= before.take(i as int));
            assert(users.deep_view()[i as int] == before[i as int]);
        }
        if users[i].id == id {
            let row = copy_user(&users[i]);
            users.set(i, User { confirmed: true, ..row });
            touched += 1;
        }
        i += 1;
    }
    proof {
        assert(before.take(i as int) =~= before);
        assert(users.deep_view() =~= with_confirmed(before, id));
    }
    touched
}

impl MemoryModel {
    #[verifier::type_invariant]
    spec fn well_formed(&self) -> bool {
        unique_ids(self.users.deep_view()) && unique_names(self.users.deep_view())
    }

    /// The users that the store holds, in the order in which they were
    /// stored.
    pub closed spec fn users(&self) -> Seq<UserRow> {
        self.users.deep_view()
    }

    /// The store describes its users.
    pub proof fn lemma_rows_are_users(&self)
        ensures
            self.rows() == Some(self.users()),
    {
    }

    /// A store that holds no user.
    pub fn new() -> (model: MemoryModel)
        ensures
            model.users() == Seq::<UserRow>::empty(),
            model.rows() == Some(model.users()),
    {
        let model = MemoryModel { users: Vec::new() };
        assert(model.users.deep_view() =~= Seq::<UserRow>::empty());
        model
    }

    /// How many users the store holds.
    pub fn len(&self) -> (n: usize)
        ensures
            n == self.users().len(),
    {
        self.users.len()
    }

    /// A copy of the user stored at place `i`.
    pub fn user_at(&self, i: usize) -> (user: Option<User>)
        ensures
            match user {
                Some(u) => i < self.users().len() && u@ == self.users()[i as int],
                None => i >= self.users().len(),
            },
    {
        if i < self.users.len() {
            Some(copy_user(&self.users[i]))
        } else {
            None
        }
    }

    /// No two users of the store share an identifier or a name.
    pub fn check_unique(&self)
        ensures
            unique_ids(self.users()),
            unique_names(self.users()),
    {
        proof {
            use_type_invariant(self);
        }
    }
}

impl IOModel for MemoryModel {
    closed spec fn rows(&self) -> Option<Seq<UserRow>> {
        Some(self.users.deep_view())
    }

    fn find(&self, user_id: u128) -> (r: Result<Option<User>, StoreError>)
        ensures
            r is Ok,
    {
        match position_of_id(&self.users, user_id) {
            Some(i) => Ok(Some(copy_user(&self.users[i]))),
            None => Ok(None),
        }
    }

    fn confirm(&mut self, user_id: u128) -> (r: Result<usize, StoreError>)
        ensures
            r is Ok,
    {
        proof {
            use_type_invariant(&*self);
        }
        let mut users: Vec<User> = Vec::new();
        core::mem::swap(&mut self.users, &mut users);
        let touched = confirm_in(&mut users, user_id);
        core::mem::swap(&mut self.users, &mut users);
        Ok(touched)
    }

    fn verify_login(&self, username: &str, pass: &str) -> (r: Result<Option<User>, StoreError>)
        ensures
            r is Ok,
    {
        let found = match position_of_name(&self.users, username) {
            Some(i) => Some(copy_user(&self.users[i])),
            None => None,
        };
        Ok(login_outcome(found, pass))
    }

    fn create(&mut self, new_user: &NewUser) -> (r: Result<Option<User>, StoreError>)
        ensures
            r is Err <==> !has_name(old(self).users(), new_user.name@) && has_id(
                old(self).users(),
                new_user.id,
            ),
    {
        if name_is_taken(&self.users, new_user.name) {
            return Ok(None);
        }
        if id_is_taken(&self.users, new_user.id) {
            return Err(StoreError { message: "duplicate user id".to_owned() });
        }
        let ghost before = self.users.deep_view();
        let user = User {
            id: new_user.id,
            name: new_user.name.to_owned(),
            email: new_user.email.to_owned(),
            password: new_user.password.to_owned(),
            confirmed: false,
        };
        let stored = copy_user(&user);
        proof {
            use_type_invariant(&*self);
        }
        let mut users: Vec<User> = Vec::new();
        core::mem::swap(&mut self.users, &mut users);
        users.push(user);
        proof {
            assert(users.deep_view() =~= before.push(new_user@));
        }
        core::mem::swap(&mut self.users, &mut users);
        Ok(Some(stored))
    }
}

} // verus!
