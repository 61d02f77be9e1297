//! What the HTTP layer decides before and after it calls the user service:
//! it reads grants from form fields and turns errors into status codes.

use crate::ids::fresh_user_id;
use crate::models::user::{IOModel, StoreError, User};
use crate::services::user::{
    PasswordGrantRequest, RefreshGrantRequest, ServiceError, StatusResponse, TokenRequest,
};
use crate::text::same_text;
use vstd::hash_map::StringHashMap;
use vstd::prelude::*;
use vstd::string::*;
use vstd::utf8::*;

verus! {

/// What can be wrong with a request before the service sees it.
#[derive(Clone, Copy, Debug, PartialEq, Eq, Structural)]
pub enum WebError {
    MissingConfirmToken,
    MissingPassword,
    MissingUsername,
    MissingRefreshToken,
    InvalidGrantType,
}

/// The two values of the form field `grant_type`.
#[derive(Clone, Copy, Debug, PartialEq, Eq, Structural)]
pub enum GrantType {
    Password,
    Refresh,
}

/// The name of the form field that says which grant is asked for.
pub const GRANT_TYPE_FIELD: &'static str = "grant_type";

/// The name of the form field that holds the user's name.
pub const USERNAME_FIELD: &'static str = "username";

/// The name of the form field that holds the password.
pub const PASSWORD_FIELD: &'static str = "password";

/// The name of the form field that holds the refresh token.
pub const REFRESH_TOKEN_FIELD: &'static str = "refresh_token";

/// The grant that `text` names.
pub open spec fn grant_type_of(text: Seq<char>) -> Result<GrantType, WebError> {
    if text == "password"@ {
        Ok(GrantType::Password)
    } else if text == "refresh_token"@ {
        Ok(GrantType::Refresh)
    } else {
        Err(WebError::InvalidGrantType)
    }
}

/// The value of the first field called `key`.
pub open spec fn first_value(fields: Seq<(Seq<char>, Seq<char>)>, key: Seq<char>) -> Option<
    Seq<char>,
>
    decreases fields.len(),
{
    if fields.len() == 0 {
        None
    } else if fields[0].0 == key {
        Some(fields[0].1)
    } else {
        first_value(fields.drop_first(), key)
    }
}

/// The fields as a map: of two fields with one name the later one stays.
pub open spec fn form_map(fields: Seq<(Seq<char>, Seq<char>)>) -> Map<Seq<char>, Seq<char>>
    decreases fields.len(),
{
    if fields.len() == 0 {
        Map::empty()
    } else {
        form_map(fields.drop_last()).insert(fields.last().0, fields.last().1)
    }
}

/// The grant that the fields ask for: what the first field `grant_type`
/// names.
pub open spec fn grant_type_in(fields: Seq<(Seq<char>, Seq<char>)>) -> Result<
    GrantType,
    WebError,
> {
    match first_value(fields, GRANT_TYPE_FIELD@) {
        Some(text) => grant_type_of(text),
        None => Err(WebError::InvalidGrantType),
    }
}

/// The name and the password that the fields give to a password grant. The
/// name is looked for first.
pub open spec fn password_grant_in(fields: Seq<(Seq<char>, Seq<char>)>) -> Result<
    (Seq<char>, Seq<char>),
    WebError,
> {
    let map = form_map(fields);
    if !map.contains_key(USERNAME_FIELD@) {
        Err(WebError::MissingUsername)
    } else if !map.contains_key(PASSWORD_FIELD@) {
        Err(WebError::MissingPassword)
    } else {
        Ok((map[USERNAME_FIELD@], map[PASSWORD_FIELD@]))
    }
}

/// The token that the fields give to a refresh grant.
pub open spec fn refresh_grant_in(fields: Seq<(Seq<char>, Seq<char>)>) -> Result<
    Seq<char>,
    WebError,
> {
    let map = form_map(fields);
    if !map.contains_key(REFRESH_TOKEN_FIELD@) {
        Err(WebError::MissingRefreshToken)
    } else {
        Ok(map[REFRESH_TOKEN_FIELD@])
    }
}

/// The values of a map of texts.
pub open spec fn texts(map: Map<Seq<char>, String>) -> Map<Seq<char>, Seq<char>> {
    map.map_values(|value: String| value@)
}

impl WebError {
    /// The error in words.
    pub fn description(&self) -> (words: &'static str)
        ensures
            words@ == match *self {
                WebError::MissingUsername => "missing username"@,
                WebError::MissingPassword => "missing password"@,
                WebError::MissingRefreshToken => "missing refresh_token"@,
                WebError::MissingConfirmToken => "missing confirm token"@,
                WebError::InvalidGrantType => "invalid grant type"@,
            },
    {
        match self {
            WebError::MissingUsername => "missing username",
            WebError::MissingPassword => "missing password",
            WebError::MissingRefreshToken => "missing refresh_token",
            WebError::MissingConfirmToken => "missing confirm token",
            WebError::InvalidGrantType => "invalid grant type",
        }
    }
}

impl GrantType {
    /// Reads a grant type: `password` or `refresh_token`, and nothing else.
    pub fn from_str(s: &str) -> (r: Result<GrantType, WebError>)
        ensures
            r == grant_type_of(s@),
    {
        if same_text(s, "password") {
            Ok(GrantType::Password)
        } else if same_text(s, "refresh_token") {
            Ok(GrantType::Refresh)
        } else {
            Err(WebError::InvalidGrantType)
        }
    }
}

/// Finds the grant type among the form fields.
pub fn find_grant_type(fields: &[(String, String)]) -> (r: Result<GrantType, WebError>)
    ensures
        r == grant_type_in(fields.deep_view()),
{
    let ghost all = fields.deep_view();
    let mut i: usize = 0;
    assert(all.skip(0) =~= all);
    while i < fields.len()
        invariant
            i <= fields.len(),
            all == fields.deep_view(),
            first_value(all, GRANT_TYPE_FIELD@) == first_value(
                all.skip(i as int),
                GRANT_TYPE_FIELD@,
            ),
        decreases fields.len() - i,
    {
        proof {
            assert(all.skip(i as int)[0] == fields[i as int].deep_view());
            assert(all.skip(i as int).drop_first() =~= all.skip(i + 1));
        }
        if same_text(fields[i].0.as_str(), GRANT_TYPE_FIELD) {
            return GrantType::from_str(fields[i].1.as_str());
        }
        i += 1;
    }
    proof {
        assert(all.skip(i as int).len() == 0);
    }
    Err(WebError::InvalidGrantType)
}

/// Collects the form fields in a map.
pub fn form_to_map(fields: &[(String, String)]) -> (map: StringHashMap<String>)
    ensures
        texts(map@) == form_map(fields.deep_view()),
{
    let ghost all = fields.deep_view();
    let mut map: StringHashMap<String> = StringHashMap::new();
    let mut i: usize = 0;
    proof {
        assert(all.take(0) =~= Seq::<(Seq<char>, Seq<char>)>::empty());
        assert(texts(map@) =~= form_map(all.take(0)));
    }
    while i < fields.len()
        invariant
            i <= fields.len(),
            all == fields.deep_view(),
            texts(map@) == form_map(all.take(i as int)),
        decreases fields.len() - i,
    {
        let ghost before = map@;
        let key = fields[i].0.clone();
        let value = fields[i].1.clone();
        map.insert(key, value);
        proof {
            let next = all.take(i + 1);
            assert(next.drop_last() =~= all.take(i as int));
            assert(next.last() == fields[i as int].deep_view());
            assert(texts(map@) =~= texts(before).insert(next.last().0, next.last().1));
        }
        i += 1;
    }
    proof {
        assert(all.take(i as int) =~= all);
    }
    map
}

/// Reads a password grant from the form fields.
pub fn form_to_password_grant(fields: &[(String, String)]) -> (r: Result<
    PasswordGrantRequest,
    WebError,
>)
    ensures
        match r {
            Ok(request) => password_grant_in(fields.deep_view()) == Ok::<
                (Seq<char>, Seq<char>),
                WebError,
            >((request.name@, request.password@)),
            Err(e) => password_grant_in(fields.deep_view()) == Err::<
                (Seq<char>, Seq<char>),
                WebError,
            >(e),
        },
{
    let map = form_to_map(fields);
    let name = match map.get(USERNAME_FIELD) {
        Some(name) => name.clone(),
        None => { return Err(WebError::MissingUsername); },
    };
    let password = match map.get(PASSWORD_FIELD) {
        Some(password) => password.clone(),
        None => { return Err(WebError::MissingPassword); },
    };
    Ok(PasswordGrantRequest { name, password })
}

/// Reads a refresh grant from the form fields.
pub fn form_to_refresh_grant(fields: &[(String, String)]) -> (r: Result<
    RefreshGrantRequest,
    WebError,
>)
    ensures
        match r {
            Ok(request) => refresh_grant_in(fields.deep_view()) == Ok::<Seq<char>, WebError>(
                request.refresh_token@,
            ),
            Err(e) => refresh_grant_in(fields.deep_view()) == Err::<Seq<char>, WebError>(e),
        },
{
    let map = form_to_map(fields);
    match map.get(REFRESH_TOKEN_FIELD) {
        Some(token) => Ok(RefreshGrantRequest { refresh_token: token.clone() }),
        None => Err(WebError::MissingRefreshToken),
    }
}

/// Reads the request for tokens that the form fields make: the grant type
/// decides which other fields are asked for.
pub fn form_to_token_request(fields: &[(String, String)]) -> (r: Result<TokenRequest, WebError>)
    ensures
        match grant_type_in(fields.deep_view()) {
            Err(e) => r == Err::<TokenRequest, WebError>(e),
            Ok(GrantType::Password) => match password_grant_in(fields.deep_view()) {
                Ok((name, pass)) => r matches Ok(TokenRequest::Password { username, password })
                    && username@ == name && password@ == pass,
                Err(e) => r == Err::<TokenRequest, WebError>(e),
            },
            Ok(GrantType::Refresh) => match refresh_grant_in(fields.deep_view()) {
                Ok(token) => r matches Ok(TokenRequest::RefreshToken { refresh_token })
                    && refresh_token@ == token,
                Err(e) => r == Err::<TokenRequest, WebError>(e),
            },
        },
{
    match find_grant_type(fields) {
        Err(e) => Err(e),
        Ok(GrantType::Password) => match form_to_password_grant(fields) {
            Ok(request) => Ok(
                TokenRequest::Password { username: request.name, password: request.password },
            ),
            Err(e) => Err(e),
        },
        Ok(GrantType::Refresh) => match form_to_refresh_grant(fields) {
            Ok(request) => Ok(TokenRequest::RefreshToken { refresh_token: request.refresh_token }),
            Err(e) => Err(e),
        },
    }
}

/// The bytes of an `Authorization` header behind its first seven, where the
/// scheme `Bearer` and a space stand; nothing where the header is shorter or
/// the cut would split a character.
pub open spec fn bearer_bytes(header: Seq<char>) -> Seq<u8> {
    let bytes = encode_utf8(header);
    if bytes.len() >= 7 && is_char_boundary(bytes, 7) {
        bytes.subrange(7, bytes.len() as int)
    } else {
        Seq::empty()
    }
}

/// The access token that an `Authorization` header carries: the empty text
/// where there is no header or none to cut.
pub fn bearer_token<'a>(header: Option<&'a str>) -> (token: &'a str)
    ensures
        token.spec_bytes() == match header {
            Some(text) => bearer_bytes(text@),
            None => Seq::<u8>::empty(),
        },
{
    let none = "";
    proof {
        reveal_strlit("");
        assert(none@ =~= Seq::<char>::empty());
        assert(encode_utf8(none@) =~= Seq::<u8>::empty());
    }
    match header {
        Some(text) => {
            if text.as_bytes().len() >= 7 && text.is_char_boundary(7) {
                let (_, token) = text.split_at(7);
                token
            } else {
                none
            }
        },
        None => none,
    }
}

/// The status code that answers an error of the service.
pub fn status_code(err: &ServiceError) -> (code: u16)
    ensures
        code == match *err {
            ServiceError::InvalidConfirmToken => 400u16,
            ServiceError::PermissionDenied => 403u16,
            ServiceError::UserExists => 403u16,
            ServiceError::DBError(_) => 500u16,
        },
{
    match err {
        ServiceError::InvalidConfirmToken => 400,
        ServiceError::PermissionDenied => 403,
        ServiceError::UserExists => 403,
        ServiceError::DBError(_) => 500,
    }
}

/// The text that answers an error of the service: the error's name where the
/// caller may know it, nothing otherwise.
pub fn error_text(err: &ServiceError) -> (text: &'static str)
    ensures
        text@ == match *err {
            ServiceError::InvalidConfirmToken => "InvalidConfirmToken"@,
            ServiceError::PermissionDenied => ""@,
            ServiceError::UserExists => "UserExists"@,
            ServiceError::DBError(_) => ""@,
        },
{
    match err {
        ServiceError::InvalidConfirmToken => "InvalidConfirmToken",
        ServiceError::PermissionDenied => "",
        ServiceError::UserExists => "UserExists",
        ServiceError::DBError(_) => "",
    }
}

/// The status that a probe of the store shows: up where the store answered,
/// whatever it answered.
pub fn status_answer(probe: &Result<Option<User>, StoreError>) -> (response: StatusResponse)
    ensures
        response.status@ == if probe is Ok {
            "up"@
        } else {
            "down"@
        },
{
    match probe {
        Ok(_) => StatusResponse { status: "up" },
        Err(_) => StatusResponse { status: "down" },
    }
}

/// Probes the store with a fresh identifier and reports whether it answered.
pub fn status<M: IOModel>(user_model: &M) -> (response: StatusResponse)
    ensures
        response.status@ == "up"@ || response.status@ == "down"@,
{
    let probe = user_model.find(fresh_user_id());
    status_answer(&probe)
}

} // verus!
