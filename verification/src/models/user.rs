//! User records and the interface of the store that keeps them.

use crate::password::{password_matches, verify_password};
use vstd::prelude::*;
use vstd::string::*;

pub mod memory;

verus! {

/// A user as the store keeps it.
#[derive(Clone, Debug, PartialEq, Eq)]
pub struct User {
    pub id: u128,
    pub name: String,
    pub email: String,
    /// The hash of the password, never the plaintext.
    pub password: String,
    pub confirmed: bool,
}

/// A user to be stored: not yet confirmed.
#[derive(Clone, Copy, Debug, PartialEq, Eq)]
pub struct NewUser<'a> {
    pub id: u128,
    pub name: &'a str,
    pub email: &'a str,
    /// The hash of the password.
    pub password: &'a str,
}

/// Any failure of the store itself: a lost connection, a violated
/// constraint, a timeout.
#[derive(Clone, Debug, PartialEq, Eq)]
pub struct StoreError {
    pub message: String,
}

/// A stored user, as contracts speak of it.
pub struct UserRow {
    pub id: u128,
    pub name: Seq<char>,
    pub email: Seq<char>,
    pub password: Seq<char>,
    pub confirmed: bool,
}

impl View for User {
    type V = UserRow;

    open spec fn view(&self) -> UserRow {
        UserRow {
            id: self.id,
            name: self.name@,
            email: self.email@,
            password: self.password@,
            confirmed: self.confirmed,
        }
    }
}

impl DeepView for User {
    type V = UserRow;

    open spec fn deep_view(&self) -> UserRow {
        self@
    }
}

impl<'a> View for NewUser<'a> {
    type V = UserRow;

    /// The row that storing this user adds.
    open spec fn view(&self) -> UserRow {
        UserRow {
            id: self.id,
            name: self.name@,
            email: self.email@,
            password: self.password@,
            confirmed: false,
        }
    }
}

/// The first row that `wanted` holds of.
pub open spec fn first_match(rows: Seq<UserRow>, wanted: spec_fn(UserRow) -> bool) -> Option<
    UserRow,
>
    decreases rows.len(),
{
    if rows.len() == 0 {
        None
    } else if wanted(rows[0]) {
        Some(rows[0])
    } else {
        first_match(rows.drop_first(), wanted)
    }
}

/// The confirmed user with the given identifier.
pub open spec fn confirmed_with_id(rows: Seq<UserRow>, id: u128) -> Option<UserRow> {
    first_match(rows, |row: UserRow| row.id == id && row.confirmed)
}

/// The confirmed user with the given name.
pub open spec fn confirmed_with_name(rows: Seq<UserRow>, name: Seq<char>) -> Option<UserRow> {
    first_match(rows, |row: UserRow| row.name == name && row.confirmed)
}

/// Whether some user, confirmed or not, has the given name.
pub open spec fn has_name(rows: Seq<UserRow>, name: Seq<char>) -> bool {
    exists|i: int| 0 <= i < rows.len() && (#[trigger] rows[i]).name == name
}

/// Whether some user has the given identifier.
pub open spec fn has_id(rows: Seq<UserRow>, id: u128) -> bool {
    exists|i: int| 0 <= i < rows.len() && (#[trigger] rows[i]).id == id
}

/// How many users have the given name.
pub open spec fn count_name(rows: Seq<UserRow>, name: Seq<char>) -> nat
    decreases rows.len(),
{
    if rows.len() == 0 {
        0
    } else {
        count_name(rows.drop_last(), name) + if rows.last().name == name {
            1nat
        } else {
            0nat
        }
    }
}

/// How many users have the given identifier.
pub open spec fn count_id(rows: Seq<UserRow>, id: u128) -> nat
    decreases rows.len(),
{
    if rows.len() == 0 {
        0
    } else {
        count_id(rows.drop_last(), id) + if rows.last().id == id {
            1nat
        } else {
            0nat
        }
    }
}

/// The row, confirmed.
pub open spec fn confirmed_row(row: UserRow) -> UserRow {
    UserRow { confirmed: true, ..row }
}

/// The rows after the users with the given identifier are confirmed: nothing
/// else changes, and a user already confirmed stays as it is.
pub open spec fn with_confirmed(rows: Seq<UserRow>, id: u128) -> Seq<UserRow> {
    Seq::new(
        rows.len(),
        |i: int|
            if rows[i].id == id {
                confirmed_row(rows[i])
            } else {
                rows[i]
            },
    )
}

/// The user that a login yields: the one found, where the password given is
/// the one its hash was made from.
pub open spec fn checked_login(found: Option<UserRow>, pass: Seq<char>) -> Option<UserRow> {
    match found {
        Some(row) => if password_matches(row.password, pass) {
            Some(row)
        } else {
            None
        },
        None => None,
    }
}

/// The rows and the answer that storing `row` gives: a row whose name is
/// taken is refused and nothing changes; any other is added at the end.
pub open spec fn created(rows: Seq<UserRow>, row: UserRow) -> (Seq<UserRow>, Option<UserRow>) {
    if has_name(rows, row.name) {
        (rows, None)
    } else {
        (rows.push(row), Some(row))
    }
}

/// No two users share an identifier.
pub open spec fn unique_ids(rows: Seq<UserRow>) -> bool {
    forall|i: int, j: int|
        0 <= i < j < rows.len() ==> (#[trigger] rows[i]).id != (#[trigger] rows[j]).id
}

/// No two users share a name.
pub open spec fn unique_names(rows: Seq<UserRow>) -> bool {
    forall|i: int, j: int|
        0 <= i < j < rows.len() ==> (#[trigger] rows[i]).name != (#[trigger] rows[j]).name
}

/// Where no row before `from` is wanted, the first match lies in the rest.
pub proof fn lemma_first_match_skips(rows: Seq<UserRow>, wanted: spec_fn(UserRow) -> bool, from: int)
    requires
        0 <= from <= rows.len(),
        forall|j: int| 0 <= j < from ==> !wanted(#[trigger] rows[j]),
    ensures
        first_match(rows, wanted) == first_match(rows.skip(from), wanted),
    decreases from,
{
    if from == 0 {
        assert(rows.skip(0) =~= rows);
    } else {
        lemma_first_match_skips(rows, wanted, from - 1);
        let rest = rows.skip(from - 1);
        assert(rest[0] == rows[from - 1]);
        assert(rest.drop_first() =~= rows.skip(from));
    }
}

/// The store of users.
///
/// A store may describe the users it holds, as the store in memory does;
/// what its methods do is then stated over that description, and a call that
/// returns an error has changed nothing. Of a store that describes nothing,
/// such as a database that other writers share, nothing is stated: the
/// service then answers for what it decides itself.
pub trait IOModel {
    /// The users that the store holds, where it describes them.
    open spec fn rows(&self) -> Option<Seq<UserRow>> {
        None
    }

    /// Finds the confirmed user with the given identifier.
    fn find(&self, user_id: u128) -> (r: Result<Option<User>, StoreError>)
        ensures
            self.rows() matches Some(rows) ==> (r matches Ok(found) ==> found.deep_view()
                == confirmed_with_id(rows, user_id)),
    ;

    /// Confirms the user with the given identifier and says how many rows
    /// that touched.
    fn confirm(&mut self, user_id: u128) -> (r: Result<usize, StoreError>)
        ensures
            match old(self).rows() {
                Some(before) => match r {
                    Ok(touched) => {
                        &&& final(self).rows() == Some(with_confirmed(before, user_id))
                        &&& touched == count_id(before, user_id)
                    },
                    Err(_) => final(self).rows() == Some(before),
                },
                None => final(self).rows() is None,
            },
    ;

    /// Finds the confirmed user with the given name, if the password is its
    /// own.
    fn verify_login(&self, username: &str, pass: &str) -> (r: Result<Option<User>, StoreError>)
        ensures
            self.rows() matches Some(rows) ==> (r matches Ok(found) ==> found.deep_view()
                == checked_login(confirmed_with_name(rows, username@), pass@)),
    ;

    /// Stores a new unconfirmed user unless its name is taken: the test and
    /// the insertion are one step.
    fn create(&mut self, new_user: &NewUser) -> (r: Result<Option<User>, StoreError>)
        ensures
            match old(self).rows() {
                Some(before) => match r {
                    Ok(stored) => (final(self).rows(), stored.deep_view()) == (
                        Some(created(before, new_user@).0),
                        created(before, new_user@).1,
                    ),
                    Err(_) => final(self).rows() == Some(before),
                },
                None => final(self).rows() is None,
            },
    ;
}

/// A copy of a user.
pub fn copy_user(user: &User) -> (copy: User)
    ensures
        copy@ == user@,
{
    User {
        id: user.id,
        name: user.name.clone(),
        email: user.email.clone(),
        password: user.password.clone(),
        confirmed: user.confirmed,
    }
}

/// Lets the user found log in if `pass` is the password its hash was made
/// from.
pub fn login_outcome(found: Option<User>, pass: &str) -> (user: Option<User>)
    ensures
        user.deep_view() == checked_login(found.deep_view(), pass@),
{
    match found {
        Some(user) => {
            if verify_password(user.password.as_str(), pass) {
                Some(user)
            } else {
                None
            }
        },
        None => None,
    }
}

} // verus!
