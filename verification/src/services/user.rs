//! The user service: registration, confirmation, the two grants and the
//! lookup of the current user.

use crate::ids::fresh_user_id;
use crate::models::user::{
    checked_login, confirmed_with_id, confirmed_with_name, count_name, has_name,
    lemma_first_match_skips, with_confirmed, IOModel, NewUser, StoreError, User, UserRow,
};
use crate::password::{hash_password, password_matches};
use crate::token::{
    claim_fields, encode_token, issued, jwt_signed, lemma_decode_rejects_other_kind,
    lemma_decode_returns_claim, minted, token_subject,
    validate_access_token, validate_confirm_token, validate_refresh_token, Claim, ClaimKind,
};
use vstd::prelude::*;
use vstd::string::*;

verus! {

/// What can go wrong in the service.
#[derive(Clone, Debug, PartialEq, Eq)]
pub enum ServiceError {
    /// The text given is no confirm token of this service.
    InvalidConfirmToken,
    /// Bad credentials, a bad token or one of the wrong kind, a user that is
    /// unknown or not confirmed: the caller is not told which.
    PermissionDenied,
    /// The name is taken.
    UserExists,
    /// The store failed.
    DBError(StoreError),
}

/// A request for tokens, by password or by refresh token.
#[derive(Clone, Debug, PartialEq, Eq)]
pub enum TokenRequest {
    Password { username: String, password: String },
    RefreshToken { refresh_token: String },
}

/// A request for tokens by name and password.
#[derive(Clone, Debug, PartialEq, Eq)]
pub struct PasswordGrantRequest {
    pub name: String,
    pub password: String,
}

/// A request for tokens by refresh token.
#[derive(Clone, Debug, PartialEq, Eq)]
pub struct RefreshGrantRequest {
    pub refresh_token: String,
}

/// A fresh pair of tokens.
#[derive(Clone, Debug, PartialEq, Eq)]
pub struct AccessTokenResponse {
    pub access_token: String,
    /// Always "bearer".
    pub token_type: String,
    /// The number of seconds told to the client.
    pub expires_in: i64,
    pub refresh_token: String,
}

/// What a new user gives: all three as the caller wrote them.
#[derive(Clone, Debug, PartialEq, Eq)]
pub struct RegisterRequest {
    pub name: String,
    pub email: String,
    /// The plaintext password.
    pub password: String,
}

/// The token that confirms the user just registered.
#[derive(Clone, Debug, PartialEq, Eq)]
pub struct RegisterResponse {
    pub confirm_token: String,
}

#[derive(Clone, Debug, PartialEq, Eq)]
pub struct ConfirmNewUserRequest {
    pub confirm_token: String,
}

/// The empty mark of a confirmation done.
#[derive(Clone, Copy, Debug, PartialEq, Eq, Structural)]
pub struct ConfirmNewUserResponse;

#[derive(Clone, Debug, PartialEq, Eq)]
pub struct CurrentUserRequest {
    pub access_token: String,
}

/// The profile of a user, without the hash of its password.
#[derive(Clone, Debug, PartialEq, Eq)]
pub struct CurrentUserResponse {
    pub identifier: u128,
    pub name: String,
    pub email: String,
}

#[derive(Clone, Copy, Debug, PartialEq, Eq, Structural)]
pub struct StatusRequest {}

#[derive(Clone, Copy, Debug, PartialEq, Eq)]
pub struct StatusResponse {
    pub status: &'static str,
}

/// The kind of every token pair.
pub const TOKEN_TYPE: &'static str = "bearer";

/// The number of seconds that a token pair tells the client.
pub const EXPIRES_IN: i64 = 3600;

impl Default for AccessTokenResponse {
    fn default() -> (response: AccessTokenResponse)
        ensures
            response.access_token@.len() == 0,
            response.token_type@.len() == 0,
            response.expires_in == 0,
            response.refresh_token@.len() == 0,
    {
        AccessTokenResponse {
            access_token: String::new(),
            token_type: String::new(),
            expires_in: 0,
            refresh_token: String::new(),
        }
    }
}

/// The claim of the given kind for a user.
pub open spec fn claim_for(kind: ClaimKind, id: u128) -> Claim {
    Claim { kind, subject: id }
}

/// `response` is the pair of tokens minted for user `id` under `key`.
pub open spec fn is_token_pair(key: Seq<u8>, id: u128, response: AccessTokenResponse) -> bool {
    &&& response.access_token@ == minted(key, claim_for(ClaimKind::Access, id))
    &&& response.refresh_token@ == minted(key, claim_for(ClaimKind::Refresh, id))
    &&& response.token_type@ == TOKEN_TYPE@
    &&& response.expires_in == EXPIRES_IN
}

/// `response` is the profile of `row`.
pub open spec fn is_profile(row: UserRow, response: CurrentUserResponse) -> bool {
    &&& response.identifier == row.id
    &&& response.name@ == row.name
    &&& response.email@ == row.email
}

/// What a grant answers once the store has been asked for the user: a pair
/// of tokens for the user found, a denial where none was found, the store's
/// error where it failed.
pub open spec fn grant_answer(
    key: Seq<u8>,
    found: Result<Option<UserRow>, StoreError>,
    r: Result<AccessTokenResponse, ServiceError>,
) -> bool {
    match found {
        Ok(Some(row)) => r matches Ok(response) && is_token_pair(key, row.id, response),
        Ok(None) => r == Err::<AccessTokenResponse, ServiceError>(ServiceError::PermissionDenied),
        Err(e) => r == Err::<AccessTokenResponse, ServiceError>(ServiceError::DBError(e)),
    }
}

/// What a password grant may answer. Where the store describes its users,
/// tokens go to the confirmed user of that name whose password this is, and a
/// denial means that there is none; of any other store, the tokens granted
/// are a pair for some user.
pub open spec fn password_grant_post(
    store: Option<Seq<UserRow>>,
    key: Seq<u8>,
    name: Seq<char>,
    password: Seq<char>,
    r: Result<AccessTokenResponse, ServiceError>,
) -> bool {
    match r {
        Ok(response) => match store {
            Some(rows) => checked_login(confirmed_with_name(rows, name), password) matches Some(
                row,
            ) && is_token_pair(key, row.id, response),
            None => exists|id: u128| is_token_pair(key, id, response),
        },
        Err(ServiceError::PermissionDenied) => store matches Some(rows) ==> checked_login(
            confirmed_with_name(rows, name),
            password,
        ) is None,
        Err(ServiceError::DBError(_)) => true,
        Err(_) => false,
    }
}

/// What a refresh grant may answer. A text that is no refresh token is
/// denied whatever the store holds.
pub open spec fn refresh_grant_post(
    store: Option<Seq<UserRow>>,
    key: Seq<u8>,
    token: Seq<char>,
    r: Result<AccessTokenResponse, ServiceError>,
) -> bool {
    match token_subject(key, token, ClaimKind::Refresh) {
        None => r == Err::<AccessTokenResponse, ServiceError>(ServiceError::PermissionDenied),
        Some(id) => match r {
            Ok(response) => match store {
                Some(rows) => confirmed_with_id(rows, id) matches Some(row) && is_token_pair(
                    key,
                    row.id,
                    response,
                ),
                None => exists|user: u128| is_token_pair(key, user, response),
            },
            Err(ServiceError::PermissionDenied) => store matches Some(rows) ==> confirmed_with_id(
                rows,
                id,
            ) is None,
            Err(ServiceError::DBError(_)) => true,
            Err(_) => false,
        },
    }
}

/// What the lookup of the current user may answer. A text that is no access
/// token is denied whatever the store holds.
pub open spec fn current_user_post(
    store: Option<Seq<UserRow>>,
    key: Seq<u8>,
    token: Seq<char>,
    r: Result<CurrentUserResponse, ServiceError>,
) -> bool {
    match token_subject(key, token, ClaimKind::Access) {
        None => r == Err::<CurrentUserResponse, ServiceError>(ServiceError::PermissionDenied),
        Some(id) => match r {
            Ok(response) => store matches Some(rows) ==> confirmed_with_id(rows, id) matches Some(
                row,
            ) && is_profile(row, response),
            Err(ServiceError::PermissionDenied) => store matches Some(rows) ==> confirmed_with_id(
                rows,
                id,
            ) is None,
            Err(ServiceError::DBError(_)) => true,
            Err(_) => false,
        },
    }
}

/// What a registration may answer, and what it may do to the users. On a
/// store that describes its users it adds one unconfirmed user under a name
/// that was free, with a hash of the password, and answers with the token
/// that confirms that user; or it changes nothing and the name was taken; or
/// it changes nothing and the store failed. Of any other store, the token in
/// the answer is the confirm token of some user.
pub open spec fn register_post(
    before: Option<Seq<UserRow>>,
    after: Option<Seq<UserRow>>,
    key: Seq<u8>,
    name: Seq<char>,
    email: Seq<char>,
    password: Seq<char>,
    r: Result<RegisterResponse, ServiceError>,
) -> bool {
    match r {
        Ok(response) => match before {
            Some(rows) => {
                &&& after matches Some(grown)
                &&& !has_name(rows, name)
                &&& grown.len() == rows.len() + 1
                &&& grown == rows.push(grown.last())
                &&& grown.last().name == name
                &&& grown.last().email == email
                &&& !grown.last().confirmed
                &&& password_matches(grown.last().password, password)
                &&& response.confirm_token@ == minted(
                    key,
                    claim_for(ClaimKind::Confirm, grown.last().id),
                )
            },
            None => after is None && exists|id: u128|
                response.confirm_token@ == #[trigger] minted(key, claim_for(ClaimKind::Confirm, id)),
        },
        Err(ServiceError::UserExists) => after == before && (before matches Some(rows)
            ==> has_name(rows, name)),
        Err(ServiceError::DBError(_)) => after == before,
        Err(_) => false,
    }
}

/// What a confirmation may answer, and what it may do to the users. A text
/// that is no confirm token is refused and nothing changes.
pub open spec fn confirm_post(
    before: Option<Seq<UserRow>>,
    after: Option<Seq<UserRow>>,
    key: Seq<u8>,
    token: Seq<char>,
    r: Result<ConfirmNewUserResponse, ServiceError>,
) -> bool {
    match token_subject(key, token, ClaimKind::Confirm) {
        None => after == before && r == Err::<ConfirmNewUserResponse, ServiceError>(
            ServiceError::InvalidConfirmToken,
        ),
        Some(id) => match r {
            Ok(_) => after == match before {
                Some(rows) => Some(with_confirmed(rows, id)),
                None => None,
            },
            Err(ServiceError::DBError(_)) => after == before,
            Err(_) => false,
        },
    }
}

/// Mints the pair of tokens for a user.
pub fn access_token_response(key: &[u8], user: &User) -> (response: AccessTokenResponse)
    ensures
        is_token_pair(key@, user.id, response),
        jwt_signed(key@, claim_fields(claim_for(ClaimKind::Access, user.id))) is Some ==> issued(
            key@,
            response.access_token@,
            claim_for(ClaimKind::Access, user.id),
        ),
        jwt_signed(key@, claim_fields(claim_for(ClaimKind::Refresh, user.id))) is Some ==> issued(
            key@,
            response.refresh_token@,
            claim_for(ClaimKind::Refresh, user.id),
        ),
{
    AccessTokenResponse {
        access_token: encode_token(key, &Claim { kind: ClaimKind::Access, subject: user.id }),
        refresh_token: encode_token(key, &Claim { kind: ClaimKind::Refresh, subject: user.id }),
        token_type: TOKEN_TYPE.to_owned(),
        expires_in: EXPIRES_IN,
    }
}

/// The answer of a grant to what the store said of the user.
pub fn grant_outcome(key: &[u8], found: Result<Option<User>, StoreError>) -> (r: Result<
    AccessTokenResponse,
    ServiceError,
>)
    ensures
        grant_answer(
            key@,
            match found {
                Ok(user) => Ok(user.deep_view()),
                Err(e) => Err(e),
            },
            r,
        ),
{
    match found {
        Ok(Some(user)) => Ok(access_token_response(key, &user)),
        Ok(None) => Err(ServiceError::PermissionDenied),
        Err(e) => Err(ServiceError::DBError(e)),
    }
}

/// The answer of the lookup to what the store said of the user.
pub fn current_user_outcome(found: Result<Option<User>, StoreError>) -> (r: Result<
    CurrentUserResponse,
    ServiceError,
>)
    ensures
        match found {
            Ok(Some(user)) => r matches Ok(response) && is_profile(user@, response),
            Ok(None) => r == Err::<CurrentUserResponse, ServiceError>(
                ServiceError::PermissionDenied,
            ),
            Err(e) => r == Err::<CurrentUserResponse, ServiceError>(ServiceError::DBError(e)),
        },
{
    match found {
        Ok(Some(user)) => Ok(
            CurrentUserResponse { identifier: user.id, name: user.name, email: user.email },
        ),
        Ok(None) => Err(ServiceError::PermissionDenied),
        Err(e) => Err(ServiceError::DBError(e)),
    }
}

/// The answer of a registration to what the store said of the new user.
pub fn register_outcome(key: &[u8], stored: Result<Option<User>, StoreError>) -> (r: Result<
    RegisterResponse,
    ServiceError,
>)
    ensures
        match stored {
            Ok(Some(user)) => r matches Ok(response) && response.confirm_token@ == minted(
                key@,
                claim_for(ClaimKind::Confirm, user.id),
            ),
            Ok(None) => r == Err::<RegisterResponse, ServiceError>(ServiceError::UserExists),
            Err(e) => r == Err::<RegisterResponse, ServiceError>(ServiceError::DBError(e)),
        },
{
    match stored {
        Ok(Some(user)) => Ok(
            RegisterResponse {
                confirm_token: encode_token(
                    key,
                    &Claim { kind: ClaimKind::Confirm, subject: user.id },
                ),
            },
        ),
        Ok(None) => Err(ServiceError::UserExists),
        Err(e) => Err(ServiceError::DBError(e)),
    }
}

/// The answer of a confirmation to what the store said of the update. That
/// no row was touched is no error.
pub fn confirm_outcome(updated: Result<usize, StoreError>) -> (r: Result<
    ConfirmNewUserResponse,
    ServiceError,
>)
    ensures
        match updated {
            Ok(_) => r == Ok::<ConfirmNewUserResponse, ServiceError>(ConfirmNewUserResponse),
            Err(e) => r == Err::<ConfirmNewUserResponse, ServiceError>(ServiceError::DBError(e)),
        },
{
    match updated {
        Ok(_) => Ok(ConfirmNewUserResponse),
        Err(e) => Err(ServiceError::DBError(e)),
    }
}

/// The user service over a store of users, with the secret that signs its
/// tokens.
pub struct Service<M: IOModel> {
    model: M,
    secret_key: Vec<u8>,
}

impl<M: IOModel> Service<M> {
    /// The users in the store, where the store describes them.
    pub closed spec fn rows(&self) -> Option<Seq<UserRow>> {
        self.model.rows()
    }

    /// The signing secret.
    pub closed spec fn key(&self) -> Seq<u8> {
        self.secret_key@
    }

    /// A service over `model` that signs with `secret_key`.
    pub fn new(model: M, secret_key: Vec<u8>) -> (service: Service<M>)
        ensures
            service.rows() == model.rows(),
            service.key() == secret_key@,
    {
        Service { model, secret_key }
    }

    /// The store.
    pub fn model(&self) -> (model: &M)
        ensures
            model.rows() == self.rows(),
    {
        &self.model
    }

    /// Answers a request for tokens of either form.
    pub fn token(&self, request: &TokenRequest) -> (r: Result<AccessTokenResponse, ServiceError>)
        ensures
            match *request {
                TokenRequest::Password { username, password } => password_grant_post(
                    self.rows(),
                    self.key(),
                    username@,
                    password@,
                    r,
                ),
                TokenRequest::RefreshToken { refresh_token } => refresh_grant_post(
                    self.rows(),
                    self.key(),
                    refresh_token@,
                    r,
                ),
            },
    {
        match request {
            TokenRequest::Password { username, password } => {
                let found = self.model.verify_login(username.as_str(), password.as_str());
                grant_outcome(self.secret_key.as_slice(), found)
            },
            TokenRequest::RefreshToken { refresh_token } => {
                match validate_refresh_token(self.secret_key.as_slice(), refresh_token.as_str()) {
                    Some(id) => {
                        let found = self.model.find(id);
                        grant_outcome(self.secret_key.as_slice(), found)
                    },
                    None => Err(ServiceError::PermissionDenied),
                }
            },
        }
    }

    /// Grants tokens to a confirmed user that gives its name and password.
    /// An unknown name, an unconfirmed user and a wrong password are denied
    /// alike.
    pub fn password_grant(&self, request: &PasswordGrantRequest) -> (r: Result<
        AccessTokenResponse,
        ServiceError,
    >)
        ensures
            password_grant_post(self.rows(), self.key(), request.name@, request.password@, r),
    {
        let found = self.model.verify_login(request.name.as_str(), request.password.as_str());
        grant_outcome(self.secret_key.as_slice(), found)
    }

    /// Grants a new pair of tokens for a refresh token of a confirmed user.
    /// The token given stays valid.
    pub fn refresh_token_grant(&self, request: &RefreshGrantRequest) -> (r: Result<
        AccessTokenResponse,
        ServiceError,
    >)
        ensures
            refresh_grant_post(self.rows(), self.key(), request.refresh_token@, r),
    {
        match validate_refresh_token(self.secret_key.as_slice(), request.refresh_token.as_str()) {
            Some(id) => {
                let found = self.model.find(id);
                grant_outcome(self.secret_key.as_slice(), found)
            },
            None => Err(ServiceError::PermissionDenied),
        }
    }

    /// Registers a new user under a fresh identifier, with the hash of its
    /// password, and answers with the token that confirms it.
    pub fn register(&mut self, request: &RegisterRequest) -> (r: Result<
        RegisterResponse,
        ServiceError,
    >)
        ensures
            final(self).key() == old(self).key(),
            register_post(
                old(self).rows(),
                final(self).rows(),
                old(self).key(),
                request.name@,
                request.email@,
                request.password@,
                r,
            ),
    {
        let id = fresh_user_id();
        let hash = hash_password(request.password.as_str());
        let new_user = NewUser {
            id,
            name: request.name.as_str(),
            email: request.email.as_str(),
            password: hash.as_str(),
        };
        let stored = self.model.create(&new_user);
        register_outcome(self.secret_key.as_slice(), stored)
    }

    /// Confirms the user that a confirm token speaks of. Confirming again
    /// is no error.
    pub fn confirm_new_user(&mut self, request: &ConfirmNewUserRequest) -> (r: Result<
        ConfirmNewUserResponse,
        ServiceError,
    >)
        ensures
            final(self).key() == old(self).key(),
            confirm_post(
                old(self).rows(),
                final(self).rows(),
                old(self).key(),
                request.confirm_token@,
                r,
            ),
    {
        match validate_confirm_token(self.secret_key.as_slice(), request.confirm_token.as_str()) {
            Some(id) => {
                let updated = self.model.confirm(id);
                confirm_outcome(updated)
            },
            None => Err(ServiceError::InvalidConfirmToken),
        }
    }

    /// The profile of the confirmed user that an access token speaks of.
    pub fn current_user(&self, request: &CurrentUserRequest) -> (r: Result<
        CurrentUserResponse,
        ServiceError,
    >)
        ensures
            current_user_post(self.rows(), self.key(), request.access_token@, r),
    {
        match validate_access_token(self.secret_key.as_slice(), request.access_token.as_str()) {
            Some(id) => {
                let found = self.model.find(id);
                current_user_outcome(found)
            },
            None => Err(ServiceError::PermissionDenied),
        }
    }
}

/// A name that no user has is counted zero times.
pub proof fn lemma_free_name_counts_zero(rows: Seq<UserRow>, name: Seq<char>)
    requires
        !has_name(rows, name),
    ensures
        count_name(rows, name) == 0,
    decreases rows.len(),
{
    if rows.len() > 0 {
        assert(rows.last() == rows[rows.len() - 1]);
        assert forall|i: int| 0 <= i < rows.drop_last().len() implies (#[trigger] rows.drop_last()[i]).name
            != name by {
            assert(rows.drop_last()[i] == rows[i]);
        }
        lemma_free_name_counts_zero(rows.drop_last(), name);
    }
}

/// A registration under a name that some user has, confirmed or not, does
/// not succeed and changes no user: it answers that the user exists, unless
/// the store itself fails.
pub proof fn lemma_taken_name_is_refused(
    before: Seq<UserRow>,
    after: Seq<UserRow>,
    key: Seq<u8>,
    name: Seq<char>,
    email: Seq<char>,
    password: Seq<char>,
    r: Result<RegisterResponse, ServiceError>,
)
    requires
        register_post(Some(before), Some(after), key, name, email, password, r),
        has_name(before, name),
    ensures
        after == before,
        r matches Err(e) && (e is UserExists || e is DBError),
{
}

/// Of two registrations under one free name, made one after the other on a
/// store that does not fail, the first succeeds and the second answers that
/// the user exists; the store then holds exactly one user of that name.
pub proof fn lemma_same_name_registers_once(
    start: Seq<UserRow>,
    between: Seq<UserRow>,
    end: Seq<UserRow>,
    key: Seq<u8>,
    name: Seq<char>,
    first_email: Seq<char>,
    first_password: Seq<char>,
    second_email: Seq<char>,
    second_password: Seq<char>,
    first: Result<RegisterResponse, ServiceError>,
    second: Result<RegisterResponse, ServiceError>,
)
    requires
        !has_name(start, name),
        register_post(Some(start), Some(between), key, name, first_email, first_password, first),
        register_post(Some(between), Some(end), key, name, second_email, second_password, second),
        !(first matches Err(ServiceError::DBError(_))),
        !(second matches Err(ServiceError::DBError(_))),
    ensures
        first is Ok,
        second == Err::<RegisterResponse, ServiceError>(ServiceError::UserExists),
        end == between,
        count_name(end, name) == 1,
{
    assert(between.last() == between[between.len() - 1]);
    assert(has_name(between, name));
    assert(between.drop_last() =~= start);
    lemma_free_name_counts_zero(start, name);
}

/// A token issued for one purpose is denied wherever another is expected,
/// whatever the store holds: a refresh grant denies every token that is no
/// refresh token, the lookup of the current user denies every token that is
/// no access token, and a confirmation refuses every token that is no
/// confirm token and changes nothing.
pub proof fn lemma_token_of_other_kind_is_denied(
    rows: Option<Seq<UserRow>>,
    after: Option<Seq<UserRow>>,
    key: Seq<u8>,
    token: Seq<char>,
    claim: Claim,
    grant: Result<AccessTokenResponse, ServiceError>,
    lookup: Result<CurrentUserResponse, ServiceError>,
    confirmation: Result<ConfirmNewUserResponse, ServiceError>,
)
    requires
        issued(key, token, claim),
    ensures
        claim.kind != ClaimKind::Refresh && refresh_grant_post(rows, key, token, grant) ==> grant
            == Err::<AccessTokenResponse, ServiceError>(ServiceError::PermissionDenied),
        claim.kind != ClaimKind::Access && current_user_post(rows, key, token, lookup) ==> lookup
            == Err::<CurrentUserResponse, ServiceError>(ServiceError::PermissionDenied),
        claim.kind != ClaimKind::Confirm && confirm_post(rows, after, key, token, confirmation)
            ==> after == rows && confirmation == Err::<ConfirmNewUserResponse, ServiceError>(
            ServiceError::InvalidConfirmToken,
        ),
{
    if claim.kind != ClaimKind::Refresh {
        lemma_decode_rejects_other_kind(key, token, claim, ClaimKind::Refresh);
    }
    if claim.kind != ClaimKind::Access {
        lemma_decode_rejects_other_kind(key, token, claim, ClaimKind::Access);
    }
    if claim.kind != ClaimKind::Confirm {
        lemma_decode_rejects_other_kind(key, token, claim, ClaimKind::Confirm);
    }
}

/// A token issued to a user is honoured for its own purpose: with the access
/// token of a confirmed user the lookup answers with that user's profile or
/// with the store's error, and never denies.
pub proof fn lemma_access_token_finds_its_user(
    rows: Seq<UserRow>,
    key: Seq<u8>,
    token: Seq<char>,
    id: u128,
    lookup: Result<CurrentUserResponse, ServiceError>,
)
    requires
        issued(key, token, claim_for(ClaimKind::Access, id)),
        current_user_post(Some(rows), key, token, lookup),
        confirmed_with_id(rows, id) is Some,
    ensures
        match lookup {
            Ok(response) => is_profile(confirmed_with_id(rows, id)->0, response),
            Err(e) => e is DBError,
        },
{
    lemma_decode_returns_claim(key, token, claim_for(ClaimKind::Access, id));
}

/// Confirming twice leaves the users as confirming once does.
pub proof fn lemma_confirm_is_idempotent(rows: Seq<UserRow>, id: u128)
    ensures
        with_confirmed(with_confirmed(rows, id), id) == with_confirmed(rows, id),
{
    assert(with_confirmed(with_confirmed(rows, id), id) =~= with_confirmed(rows, id));
}

/// Before it is confirmed, a user is granted nothing: a password grant under
/// a name whose users are all unconfirmed does not succeed.
pub proof fn lemma_unconfirmed_user_is_denied(
    rows: Seq<UserRow>,
    key: Seq<u8>,
    name: Seq<char>,
    password: Seq<char>,
    r: Result<AccessTokenResponse, ServiceError>,
)
    requires
        password_grant_post(Some(rows), key, name, password, r),
        forall|i: int| 0 <= i < rows.len() && (#[trigger] rows[i]).name == name ==> !rows[i].confirmed,
    ensures
        r is Err,
{
    let wanted = |row: UserRow| row.name == name && row.confirmed;
    assert forall|j: int| 0 <= j < rows.len() implies !wanted(#[trigger] rows[j]) by {}
    lemma_first_match_skips(rows, wanted, rows.len() as int);
    assert(rows.skip(rows.len() as int).len() == 0);
}

} // verus!
